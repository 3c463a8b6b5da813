//! The symbol set of an edited map: symbols with their type, code, name and
//! raw XML definition, kept in file order.
use vstd::prelude::*;
use vstd::std_specs::iter::IteratorSpec;

use crate::decimal::{decimal, push_unsigned};
use crate::parse::{ends_number, lemma_stands_byte, lemma_stands_concat, parse_number, stands_at};
use crate::text::{push_bytes, push_str, utf8};

verus! {

broadcast use vstd::std_specs::slice::axiom_spec_slice_iter;

/// The geometry type of a symbol.
#[derive(Debug, Clone, Copy, PartialEq, Eq, Structural, Hash)]
pub enum SymbolType {
    Point,
    Line,
    Area,
    Text,
    Combined,
}

impl SymbolType {
    /// Reads the `type` attribute of a symbol: `1`, `2`, `4` or `8`. A
    /// combined symbol is not read.
    pub fn from_attribute(value: &[u8]) -> (r: Option<SymbolType>)
        ensures
            r is Some <==> value@.len() == 1 && (value@[0] == 49u8 || value@[0] == 50u8
                || value@[0] == 52u8 || value@[0] == 56u8),
            r matches Some(t) ==> value@ == decimal(t.spec_value() as int) && !(t is Combined),
    {
        if value.len() != 1 {
            return None;
        }
        proof {
            reveal_with_fuel(crate::decimal::digits_of, 2);
        }
        match value[0] {
            49u8 => {
                assert(value@ =~= decimal(1));
                Some(SymbolType::Point)
            },
            50u8 => {
                assert(value@ =~= decimal(2));
                Some(SymbolType::Line)
            },
            52u8 => {
                assert(value@ =~= decimal(4));
                Some(SymbolType::Area)
            },
            56u8 => {
                assert(value@ =~= decimal(8));
                Some(SymbolType::Text)
            },
            _ => None,
        }
    }

    /// The type's value in the `type` attribute of a symbol.
    pub open spec fn spec_value(self) -> u8 {
        match self {
            SymbolType::Point => 1,
            SymbolType::Line => 2,
            SymbolType::Area => 4,
            SymbolType::Text => 8,
            SymbolType::Combined => 16,
        }
    }

    /// The type's value in the `type` attribute of a symbol.
    pub fn value(&self) -> (r: u8)
        ensures
            r == self.spec_value(),
    {
        match self {
            SymbolType::Point => 1,
            SymbolType::Line => 2,
            SymbolType::Area => 4,
            SymbolType::Text => 8,
            SymbolType::Combined => 16,
        }
    }
}

/// The code of a symbol, `major.minor.patch`.
#[derive(Debug, Default, Clone, Copy, PartialEq, Eq, Structural, Hash)]
pub struct SymbolCode {
    pub major: u16,
    pub minor: u16,
    pub patch: u16,
}

impl From<[u16; 3]> for SymbolCode {
    fn from(value: [u16; 3]) -> (r: SymbolCode)
        ensures
            r.major == value@[0] && r.minor == value@[1] && r.patch == value@[2],
    {
        SymbolCode { major: value[0], minor: value[1], patch: value[2] }
    }
}

impl vstd::std_specs::convert::FromSpecImpl<[u16; 3]> for SymbolCode {
    open spec fn obeys_from_spec() -> bool {
        true
    }

    open spec fn from_spec(v: [u16; 3]) -> SymbolCode {
        SymbolCode { major: v@[0], minor: v@[1], patch: v@[2] }
    }
}

/// The text of a symbol code with `parts` fields: `major`, `major.minor`
/// or `major.minor.patch`.
pub open spec fn code_text(c: SymbolCode, parts: nat) -> Seq<u8> {
    if parts == 1 {
        decimal(c.major as int)
    } else if parts == 2 {
        decimal(c.major as int) + seq![46u8] + decimal(c.minor as int)
    } else {
        decimal(c.major as int) + seq![46u8] + decimal(c.minor as int) + seq![46u8] + decimal(
            c.patch as int,
        )
    }
}

/// A code can be written with `parts` fields: the fields left out are zero.
pub open spec fn code_fits(c: SymbolCode, parts: nat) -> bool {
    &&& 1 <= parts <= 3
    &&& (parts < 2 ==> c.minor == 0)
    &&& (parts < 3 ==> c.patch == 0)
}

impl SymbolCode {
    /// Reads a symbol code: one to three numbers separated by `.`; the
    /// fields left out are zero.
    pub fn from_text(s: &str) -> (r: Option<SymbolCode>)
        ensures
            r matches Some(c) ==> exists|k: nat| code_fits(c, k) && code_text(c, k) == utf8(s@),
            forall|c: SymbolCode, k: nat|
                code_fits(c, k) && #[trigger] code_text(c, k) == utf8(s@) ==> r == Some(c),
    {
        let b = s.as_bytes();
        let n = b.len();
        let mut result: Option<SymbolCode> = None;
        let ghost mut parts: nat = 0;
        if let Some((major, q1)) = parse_number(b, 0, 0, 65535) {
            if q1 == n {
                result = Some(SymbolCode { major: major as u16, minor: 0, patch: 0 });
                proof {
                    assert(b@.subrange(0, q1 as int) =~= b@);
                    assert(code_fits(result->0, 1) && code_text(result->0, 1) == utf8(s@));
                    parts = 1;
                }
            } else if b[q1] == 46u8 {
                if let Some((minor, q2)) = parse_number(b, q1 + 1, 0, 65535) {
                    if q2 == n {
                        result = Some(
                            SymbolCode { major: major as u16, minor: minor as u16, patch: 0 },
                        );
                        proof {
                            lemma_stands_byte(b@, q1 as int, 46u8);
                            lemma_stands_concat(b@, 0, decimal(major as int), seq![46u8]);
                            lemma_stands_concat(
                                b@,
                                0,
                                decimal(major as int) + seq![46u8],
                                decimal(minor as int),
                            );
                            assert(b@.subrange(0, q2 as int) =~= b@);
                            assert(code_fits(result->0, 2) && code_text(result->0, 2) == utf8(
                                s@,
                            ));
                            parts = 2;
                        }
                    } else if b[q2] == 46u8 {
                        if let Some((patch, q3)) = parse_number(b, q2 + 1, 0, 65535) {
                            if q3 == n {
                                let c = SymbolCode {
                                    major: major as u16,
                                    minor: minor as u16,
                                    patch: patch as u16,
                                };
                                result = Some(c);
                                proof {
                                    let t2 = decimal(major as int) + seq![46u8] + decimal(
                                        minor as int,
                                    );
                                    lemma_stands_byte(b@, q1 as int, 46u8);
                                    lemma_stands_byte(b@, q2 as int, 46u8);
                                    lemma_stands_concat(b@, 0, decimal(major as int), seq![46u8]);
                                    lemma_stands_concat(
                                        b@,
                                        0,
                                        decimal(major as int) + seq![46u8],
                                        decimal(minor as int),
                                    );
                                    lemma_stands_concat(b@, 0, t2, seq![46u8]);
                                    lemma_stands_concat(
                                        b@,
                                        0,
                                        t2 + seq![46u8],
                                        decimal(patch as int),
                                    );
                                    assert(b@.subrange(0, q3 as int) =~= b@);
                                    assert(code_fits(c, 3) && code_text(c, 3) == utf8(s@));
                                    parts = 3;
                                }
                            }
                        }
                    }
                }
            }
        }
        proof {
            if result is Some {
                assert(code_fits(result->0, parts) && code_text(result->0, parts) == utf8(s@));
            }
            assert forall|c: SymbolCode, k: nat|
                code_fits(c, k) && #[trigger] code_text(c, k) == utf8(s@) implies result == Some(
                c,
            ) by {
                lemma_code_pieces(b@, c, k);
            }
        }
        result
    }
}

/// The pieces of a symbol code's text: each number stands where it should,
/// with a `.` or the end after it.
proof fn lemma_code_pieces(b: Seq<u8>, c: SymbolCode, k: nat)
    requires
        code_fits(c, k),
        code_text(c, k) == b,
    ensures
        ({
            let d1 = decimal(c.major as int);
            let d2 = decimal(c.minor as int);
            let d3 = decimal(c.patch as int);
            let q1 = d1.len() as int;
            let q2 = q1 + 1 + d2.len();
            let q3 = q2 + 1 + d3.len();
            &&& stands_at(b, 0, d1) && ends_number(b, q1)
            &&& (k == 1 <==> q1 == b.len())
            &&& k >= 2 ==> q1 < b.len() && b[q1] == 46u8 && stands_at(b, q1 + 1, d2)
                && ends_number(b, q2) && (k == 2 <==> q2 == b.len())
            &&& k == 3 ==> q2 < b.len() && b[q2] == 46u8 && stands_at(b, q2 + 1, d3) && q3
                == b.len() && ends_number(b, q3)
        }),
{
    let d1 = decimal(c.major as int);
    let d2 = decimal(c.minor as int);
    let d3 = decimal(c.patch as int);
    let q1 = d1.len() as int;
    let q2 = q1 + 1 + d2.len();
    crate::decimal::lemma_digits_of(c.minor as nat);
    crate::decimal::lemma_digits_of(c.patch as nat);
    if k == 1 {
        assert(b.subrange(0, q1) =~= d1);
    } else if k == 2 {
        lemma_stands_concat(b, 0, d1 + seq![46u8], d2);
        assert(b.subrange(0, b.len() as int) =~= b);
        lemma_stands_concat(b, 0, d1, seq![46u8]);
        lemma_stands_byte(b, q1, 46u8);
    } else {
        let t2 = d1 + seq![46u8] + d2;
        assert(b.subrange(0, b.len() as int) =~= b);
        lemma_stands_concat(b, 0, t2 + seq![46u8], d3);
        lemma_stands_concat(b, 0, t2, seq![46u8]);
        lemma_stands_concat(b, 0, d1 + seq![46u8], d2);
        lemma_stands_concat(b, 0, d1, seq![46u8]);
        lemma_stands_byte(b, q1, 46u8);
        lemma_stands_byte(b, q2, 46u8);
    }
}

/// A symbol of an edited map.
#[derive(Debug, Clone)]
pub struct Symbol {
    symbol_type: SymbolType,
    xml_def: Vec<u8>,
    code: SymbolCode,
    pub description: String,
    name: String,
}

impl Symbol {
    /// The symbol's type.
    pub closed spec fn spec_symbol_type(&self) -> SymbolType {
        self.symbol_type
    }

    /// The symbol's code.
    pub closed spec fn spec_code(&self) -> SymbolCode {
        self.code
    }

    /// The symbol's description.
    pub closed spec fn spec_description(&self) -> Seq<char> {
        self.description@
    }

    /// The symbol's name.
    pub closed spec fn spec_name(&self) -> Seq<char> {
        self.name@
    }

    /// The symbol's XML definition, written as it stands.
    pub closed spec fn spec_xml_def(&self) -> Seq<u8> {
        self.xml_def@
    }

    /// A symbol from its parts.
    pub fn new(
        symbol_type: SymbolType,
        xml_def: Vec<u8>,
        code: SymbolCode,
        description: String,
        name: String,
    ) -> (r: Symbol)
        ensures
            r.spec_symbol_type() == symbol_type,
            r.spec_xml_def() == xml_def@,
            r.spec_code() == code,
            r.spec_description() == description@,
            r.spec_name() == name@,
    {
        Symbol { symbol_type, xml_def, code, description, name }
    }

    /// The symbol's type.
    pub fn get_symbol_type(&self) -> (r: SymbolType)
        ensures
            r == self.spec_symbol_type(),
    {
        self.symbol_type
    }

    /// The symbol's code.
    pub fn get_code(&self) -> (r: SymbolCode)
        ensures
            r == self.spec_code(),
    {
        self.code
    }

    /// The symbol's description.
    pub fn get_description(&self) -> (r: &str)
        ensures
            r@ == self.spec_description(),
    {
        self.description.as_str()
    }

    /// The symbol's name.
    pub fn get_name(&self) -> (r: &str)
        ensures
            r@ == self.spec_name(),
    {
        self.name.as_str()
    }

    /// The symbol's XML definition.
    pub fn to_xml(&self) -> (r: &[u8])
        ensures
            r@ == self.spec_xml_def(),
    {
        self.xml_def.as_slice()
    }
}

/// The definitions of symbols, one after the other.
pub open spec fn defs_xml(ss: Seq<Symbol>) -> Seq<u8>
    decreases ss.len(),
{
    if ss.len() == 0 {
        seq![]
    } else {
        defs_xml(ss.drop_last()) + ss.last().spec_xml_def()
    }
}

/// `<line_symbol color="C" line_width="W" join_style="2" cap_style="1"/>`
pub open spec fn simple_line_def(color: usize, width: u32) -> Seq<u8> {
    utf8("<line_symbol color=\""@) + decimal(color as int) + utf8("\" line_width=\""@) + decimal(
        width as int,
    ) + utf8("\" join_style=\"2\" cap_style=\"1\"/>"@)
}

/// `<area_symbol inner_color="C"/>`
pub open spec fn simple_area_def(color: usize) -> Seq<u8> {
    utf8("<area_symbol inner_color=\""@) + decimal(color as int) + utf8("\"/>"@)
}

/// `<point_symbol inner_radius="R" inner_color="C"/>`
pub open spec fn simple_point_def(color: usize, radius: u32) -> Seq<u8> {
    utf8("<point_symbol inner_radius=\""@) + decimal(radius as int) + utf8("\" inner_color=\""@)
        + decimal(color as int) + utf8("\"/>"@)
}

/// A text symbol of size `S` in color `C`.
pub open spec fn simple_text_def(size: u32, color: usize) -> Seq<u8> {
    utf8("<text_symbol icon_text=\"A\"><font family=\"Sans Serif\" size=\""@) + decimal(
        size as int,
    ) + utf8("\"/><text color=\""@) + decimal(color as int) + utf8("\"/></text_symbol>"@)
}

/// The symbols of an edited map, in file order.
#[derive(Debug, Clone)]
pub struct SymbolSet {
    symbols: Vec<Symbol>,
    id: String,
}

impl View for SymbolSet {
    type V = Seq<Symbol>;

    closed spec fn view(&self) -> Seq<Symbol> {
        self.symbols@
    }
}

impl SymbolSet {
    /// The symbol set's name.
    pub closed spec fn spec_id(&self) -> Seq<char> {
        self.id@
    }

    /// A symbol set from its name and symbols.
    pub fn new(id: String, symbols: Vec<Symbol>) -> (r: SymbolSet)
        ensures
            r.spec_id() == id@,
            r@ == symbols@,
    {
        SymbolSet { symbols, id }
    }

    /// Get the symbol set name/id
    pub fn get_symbol_set_id(&self) -> (r: &str)
        ensures
            r@ == self.spec_id(),
    {
        self.id.as_str()
    }

    /// The symbol at position `id`, if there is one.
    pub fn get_symbol_by_id(&self, id: usize) -> (r: Option<&Symbol>)
        ensures
            id < self@.len() ==> r == Some(&self@[id as int]),
            id >= self@.len() ==> r is None,
    {
        if self.num_symbols() <= id {
            None
        } else {
            Some(&self.symbols[id])
        }
    }

    /// The first symbol with code `code`, if there is one.
    pub fn get_symbol_by_code(&self, code: SymbolCode) -> (r: Option<&Symbol>)
        ensures
            r is None ==> forall|i: int| 0 <= i < self@.len() ==> self@[i].spec_code() != code,
            r matches Some(s) ==> exists|i: int|
                0 <= i < self@.len() && *s == self@[i] && s.spec_code() == code && forall|j: int|
                    0 <= j < i ==> self@[j].spec_code() != code,
    {
        let mut i: usize = 0;
        while i < self.symbols.len()
            invariant
                i <= self@.len(),
                forall|j: int| 0 <= j < i ==> self@[j].spec_code() != code,
            decreases self.symbols.len() - i,
        {
            if self.symbols[i].get_code() == code {
                return Some(&self.symbols[i]);
            }
            i = i + 1;
        }
        None
    }

    /// The first symbol named `name`, if there is one.
    pub fn get_symbol_by_name(&self, name: &str) -> (r: Option<&Symbol>)
        ensures
            r is None ==> forall|i: int| 0 <= i < self@.len() ==> self@[i].spec_name() != name@,
            r matches Some(s) ==> exists|i: int|
                0 <= i < self@.len() && *s == self@[i] && s.spec_name() == name@ && forall|j: int|
                    0 <= j < i ==> self@[j].spec_name() != name@,
    {
        let wanted = name.to_owned();
        let mut i: usize = 0;
        while i < self.symbols.len()
            invariant
                i <= self@.len(),
                wanted@ == name@,
                forall|j: int| 0 <= j < i ==> self@[j].spec_name() != name@,
            decreases self.symbols.len() - i,
        {
            if self.symbols[i].name == wanted {
                return Some(&self.symbols[i]);
            }
            i = i + 1;
        }
        None
    }

    /// Access the symbols through an iterator
    pub fn iter(&self) -> (r: std::slice::Iter<'_, Symbol>)
        ensures
            r.remaining() == self@.as_ref(),
    {
        self.symbols.as_slice().iter()
    }

    /// Get the number of symbol in the symbol set
    pub fn num_symbols(&self) -> (r: usize)
        ensures
            r == self@.len(),
    {
        self.symbols.len()
    }

    /// Add a simple line symbol to the symbol set
    pub fn push_simple_line_symbol(
        &mut self,
        symbol_code: SymbolCode,
        name: String,
        color_priority: usize,
        width: u32,
        description: String,
    )
        ensures
            final(self).spec_id() == old(self).spec_id(),
            final(self)@.len() == old(self)@.len() + 1,
            final(self)@.drop_last() == old(self)@,
            final(self)@.last().spec_symbol_type() == SymbolType::Line,
            final(self)@.last().spec_code() == symbol_code,
            final(self)@.last().spec_name() == name@,
            final(self)@.last().spec_description() == description@,
            final(self)@.last().spec_xml_def() == simple_line_def(color_priority, width),
    {
        let mut def: Vec<u8> = Vec::new();
        push_str(&mut def, "<line_symbol color=\"");
        push_unsigned(&mut def, color_priority as u64);
        push_str(&mut def, "\" line_width=\"");
        push_unsigned(&mut def, width as u64);
        push_str(&mut def, "\" join_style=\"2\" cap_style=\"1\"/>");
        assert(def@ =~= simple_line_def(color_priority, width));
        self.symbols.push(Symbol::new(SymbolType::Line, def, symbol_code, description, name));
        assert(self@.drop_last() =~= old(self)@);
    }

    /// Add a simple area symbol to the symbol set
    pub fn push_simple_area_symbol(
        &mut self,
        symbol_code: SymbolCode,
        name: String,
        color_priority: usize,
        description: String,
    )
        ensures
            final(self).spec_id() == old(self).spec_id(),
            final(self)@.len() == old(self)@.len() + 1,
            final(self)@.drop_last() == old(self)@,
            final(self)@.last().spec_symbol_type() == SymbolType::Area,
            final(self)@.last().spec_code() == symbol_code,
            final(self)@.last().spec_name() == name@,
            final(self)@.last().spec_description() == description@,
            final(self)@.last().spec_xml_def() == simple_area_def(color_priority),
    {
        let mut def: Vec<u8> = Vec::new();
        push_str(&mut def, "<area_symbol inner_color=\"");
        push_unsigned(&mut def, color_priority as u64);
        push_str(&mut def, "\"/>");
        assert(def@ =~= simple_area_def(color_priority));
        self.symbols.push(Symbol::new(SymbolType::Area, def, symbol_code, description, name));
        assert(self@.drop_last() =~= old(self)@);
    }

    /// Add a simple point symbol to the symbol set
    pub fn push_simple_point_symbol(
        &mut self,
        symbol_code: SymbolCode,
        name: String,
        color_priority: usize,
        radius: u32,
        description: String,
    )
        ensures
            final(self).spec_id() == old(self).spec_id(),
            final(self)@.len() == old(self)@.len() + 1,
            final(self)@.drop_last() == old(self)@,
            final(self)@.last().spec_symbol_type() == SymbolType::Point,
            final(self)@.last().spec_code() == symbol_code,
            final(self)@.last().spec_name() == name@,
            final(self)@.last().spec_description() == description@,
            final(self)@.last().spec_xml_def() == simple_point_def(color_priority, radius),
    {
        let mut def: Vec<u8> = Vec::new();
        push_str(&mut def, "<point_symbol inner_radius=\"");
        push_unsigned(&mut def, radius as u64);
        push_str(&mut def, "\" inner_color=\"");
        push_unsigned(&mut def, color_priority as u64);
        push_str(&mut def, "\"/>");
        assert(def@ =~= simple_point_def(color_priority, radius));
        self.symbols.push(Symbol::new(SymbolType::Point, def, symbol_code, description, name));
        assert(self@.drop_last() =~= old(self)@);
    }

    /// Add a simple text symbol to the symbol set
    pub fn push_simple_text_symbol(
        &mut self,
        symbol_code: SymbolCode,
        name: String,
        size: u32,
        color_priority: usize,
        description: String,
    )
        ensures
            final(self).spec_id() == old(self).spec_id(),
            final(self)@.len() == old(self)@.len() + 1,
            final(self)@.drop_last() == old(self)@,
            final(self)@.last().spec_symbol_type() == SymbolType::Text,
            final(self)@.last().spec_code() == symbol_code,
            final(self)@.last().spec_name() == name@,
            final(self)@.last().spec_description() == description@,
            final(self)@.last().spec_xml_def() == simple_text_def(size, color_priority),
    {
        let mut def: Vec<u8> = Vec::new();
        push_str(&mut def, "<text_symbol icon_text=\"A\"><font family=\"Sans Serif\" size=\"");
        push_unsigned(&mut def, size as u64);
        push_str(&mut def, "\"/><text color=\"");
        push_unsigned(&mut def, color_priority as u64);
        push_str(&mut def, "\"/></text_symbol>");
        assert(def@ =~= simple_text_def(size, color_priority));
        self.symbols.push(Symbol::new(SymbolType::Text, def, symbol_code, description, name));
        assert(self@.drop_last() =~= old(self)@);
    }

    /// The `<symbols>` element: its count and id, then each symbol's
    /// definition in order.
    pub fn to_xml(&self) -> (r: Vec<u8>)
        ensures
            r@ == utf8("<symbols count=\""@) + decimal(self@.len() as int) + utf8("\" id=\""@)
                + utf8(self.spec_id()) + utf8("\">\n"@) + defs_xml(self@) + utf8("</symbols>\n"@),
    {
        let mut out: Vec<u8> = Vec::new();
        push_str(&mut out, "<symbols count=\"");
        push_unsigned(&mut out, self.symbols.len() as u64);
        push_str(&mut out, "\" id=\"");
        push_str(&mut out, self.id.as_str());
        push_str(&mut out, "\">\n");
        let ghost start = out@;
        let mut i: usize = 0;
        while i < self.symbols.len()
            invariant
                i <= self@.len(),
                out@ == start + defs_xml(self@.subrange(0, i as int)),
            decreases self.symbols.len() - i,
        {
            push_bytes(&mut out, self.symbols[i].to_xml());
            proof {
                let pre = self@.subrange(0, i + 1);
                assert(pre.drop_last() =~= self@.subrange(0, i as int));
            }
            i = i + 1;
        }
        assert(self@.subrange(0, self@.len() as int) =~= self@);
        push_str(&mut out, "</symbols>\n");
        out
    }
}

} // verus!
