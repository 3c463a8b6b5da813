//! Objects of an edited map: what an `<object>` element is read into, and
//! how it is written back.
use vstd::prelude::*;

use crate::coords::push_vertex;
use crate::object::{coords_block_xml, edited_object_xml, CoordsBlock};
use crate::parse::{parse_coords, vertices_text, Vertex};
use crate::symbol_set::{SymbolSet, SymbolType};
use crate::tag::{keys_unique, tags_insert, Tags};
use crate::text::utf8;
use crate::EditorError;

verus! {

/// The kind an object's element gives it, or none when it gives none.
pub open spec fn spec_object_kind(
    type_attr: Seq<u8>,
    symbol: Option<usize>,
    symbols: Seq<crate::symbol_set::Symbol>,
) -> Option<SymbolType> {
    if symbol is None {
        None
    } else if type_attr == seq![48u8] {
        Some(SymbolType::Point)
    } else if type_attr == seq![52u8] {
        Some(SymbolType::Text)
    } else if type_attr == seq![49u8] && symbol->0 < symbols.len() {
        Some(symbols[symbol->0 as int].spec_symbol_type())
    } else {
        None
    }
}

/// The kind of an object from its `type` attribute and its symbol index:
/// `0` is a point, `4` a text, and `1` a line or an area as its symbol in
/// the symbol set says. The symbol index must be there, and for `1` it must
/// name a symbol of the set.
pub fn object_kind(type_attr: &[u8], symbol: Option<usize>, symbols: &SymbolSet) -> (r: Result<
    SymbolType,
    EditorError,
>)
    ensures
        r is Ok <==> symbol is Some && (type_attr@ == seq![48u8] || type_attr@ == seq![52u8] || (
        type_attr@ == seq![49u8] && symbol->0 < symbols@.len())),
        r matches Ok(t) ==> t == (if type_attr@ == seq![48u8] {
            SymbolType::Point
        } else if type_attr@ == seq![52u8] {
            SymbolType::Text
        } else {
            symbols@[symbol->0 as int].spec_symbol_type()
        }),
        r matches Err(e) ==> e is InvalidFormat,
        r matches Ok(t) ==> spec_object_kind(type_attr@, symbol, symbols@) == Some(t),
        r is Err ==> spec_object_kind(type_attr@, symbol, symbols@) is None,
{
    let index = match symbol {
        Some(i) => i,
        None => {
            return Err(EditorError::InvalidFormat("Could not parse object".to_owned()));
        },
    };
    if type_attr.len() != 1 {
        return Err(EditorError::InvalidFormat("Could not parse object".to_owned()));
    }
    let t = type_attr[0];
    if t == 48u8 {
        assert(type_attr@ =~= seq![48u8]);
        Ok(SymbolType::Point)
    } else if t == 52u8 {
        assert(type_attr@ =~= seq![52u8]);
        Ok(SymbolType::Text)
    } else if t == 49u8 {
        assert(type_attr@ =~= seq![49u8]);
        match symbols.get_symbol_by_id(index) {
            Some(s) => Ok(s.get_symbol_type()),
            None => Err(EditorError::InvalidFormat("Unknown symbol detected for object".to_owned())),
        }
    } else {
        Err(EditorError::InvalidFormat("Could not parse object".to_owned()))
    }
}

/// The tags read from `<t>` elements, in order: a tag counts only when it
/// has both a key and a text, and a later key replaces an earlier one.
pub open spec fn tags_of_pairs(ps: Seq<(Option<String>, Option<String>)>) -> Seq<
    (Seq<char>, Seq<char>),
>
    decreases ps.len(),
{
    if ps.len() == 0 {
        seq![]
    } else {
        let prev = tags_of_pairs(ps.drop_last());
        match ps.last() {
            (Some(k), Some(v)) => tags_insert(prev, k@, v@),
            _ => prev,
        }
    }
}

/// Reads the tags of an object from its `<t>` elements, each as the key
/// and the text found in it.
pub fn tags_from_pairs(pairs: Vec<(Option<String>, Option<String>)>) -> (r: Tags)
    ensures
        r.wf(),
        r@ == tags_of_pairs(pairs@),
{
    let ghost ps = pairs@;
    let mut tags = Tags::new();
    let mut pairs = pairs;
    let mut rest: Vec<(Option<String>, Option<String>)> = Vec::new();
    while pairs.len() > 0
        invariant
            pairs@.len() + rest@.len() == ps.len(),
            forall|k: int| 0 <= k < pairs@.len() ==> #[trigger] pairs@[k] == ps[k],
            forall|k: int|
                0 <= k < rest@.len() ==> #[trigger] rest@[k] == ps[ps.len() - 1 - k],
        decreases pairs.len(),
    {
        let p = pairs.pop().unwrap();
        rest.push(p);
    }
    let n = rest.len();
    assert(tags@ =~= tags_of_pairs(ps.subrange(0, 0)));
    while rest.len() > 0
        invariant
            rest@.len() <= n,
            n == ps.len(),
            forall|k: int|
                0 <= k < rest@.len() ==> #[trigger] rest@[k] == ps[ps.len() - 1 - k],
            tags.wf(),
            tags@ == tags_of_pairs(ps.subrange(0, n - rest@.len())),
        decreases rest.len(),
    {
        let ghost done = n - rest@.len();
        let p = rest.pop().unwrap();
        proof {
            let pre = ps.subrange(0, done + 1);
            assert(pre.drop_last() =~= ps.subrange(0, done));
            assert(pre.last() == p);
        }
        match p {
            (Some(k), Some(v)) => {
                tags.add_tag(k, v);
            },
            _ => {},
        }
    }
    assert(ps.subrange(0, n as int) =~= ps);
    tags
}

/// The run of a sequence of vertices and its count.
pub fn serialize_vertices(vs: &Vec<Vertex>) -> (r: Vec<u8>)
    ensures
        r@ == vertices_text(vs@),
{
    let mut out: Vec<u8> = Vec::new();
    let mut i: usize = 0;
    while i < vs.len()
        invariant
            i <= vs@.len(),
            out@ == vertices_text(vs@.subrange(0, i as int)),
        decreases vs.len() - i,
    {
        push_vertex(&mut out, vs[i].coord, vs[i].flags);
        proof {
            let pre = vs@.subrange(0, i + 1);
            assert(pre.drop_last() =~= vs@.subrange(0, i as int));
            assert(pre.last() == vs@[i as int]);
        }
        i = i + 1;
    }
    assert(vs@.subrange(0, vs.len() as int) =~= vs@);
    out
}

/// An object of an edited map.
#[derive(Debug, Clone)]
pub struct EditedObject {
    /// The index of the object's symbol in the symbol set.
    pub symbol_index: usize,
    /// The object's kind.
    pub kind: SymbolType,
    /// The special attributes of the opening tag, as read (rotation,
    /// alignment), each with its leading space.
    pub special: String,
    /// The object's tags.
    pub tags: Tags,
    /// The object's vertices.
    pub vertices: Vec<Vertex>,
    /// The `<coords>` element: as read until the vertices are changed.
    pub coords: CoordsBlock,
}

/// The `type` attribute an object of a kind is written with.
pub open spec fn type_value_of(kind: SymbolType) -> u8 {
    match kind {
        SymbolType::Point => 0,
        SymbolType::Text => 4,
        _ => 1,
    }
}

impl EditedObject {
    /// Reads an object from what its element holds: the `type` attribute,
    /// the symbol index, the special attributes, the tags, and the
    /// `<coords>` element with the run inside it. The coordinates must be
    /// there and follow the coordinate grammar; the element is kept as read.
    pub fn read(
        type_attr: &[u8],
        symbol: Option<usize>,
        symbols: &SymbolSet,
        special: String,
        tags: Tags,
        coords: Option<(Vec<u8>, Vec<u8>)>,
    ) -> (r: Result<EditedObject, EditorError>)
        ensures
            r is Ok <==> (spec_object_kind(type_attr@, symbol, symbols@) is Some && coords is Some
                && exists|
                vs: Seq<Vertex>,
            | vertices_text(vs) == (coords->0).1@),
            r matches Ok(o) ==> {
                &&& spec_object_kind(type_attr@, symbol, symbols@) == Some(o.kind)
                &&& o.symbol_index == symbol->0
                &&& o.special@ == special@
                &&& o.tags@ == tags@
                &&& vertices_text(o.vertices@) == (coords->0).1@
                &&& o.coords == CoordsBlock::Pristine((coords->0).0)
            },
            r matches Err(e) ==> (e is InvalidFormat || e is InvalidCoordinate),
    {
        let kind = object_kind(type_attr, symbol, symbols)?;
        let (raw, run) = match coords {
            Some(c) => c,
            None => {
                return Err(EditorError::InvalidFormat("Invalid object geometry".to_owned()));
            },
        };
        let vertices = parse_coords(run.as_slice())?;
        Ok(EditedObject {
            symbol_index: symbol.unwrap(),
            kind,
            special,
            tags,
            vertices,
            coords: CoordsBlock::Pristine(raw),
        })
    }

    /// The `type` attribute the object is written with.
    pub fn type_value(&self) -> (r: u8)
        ensures
            r == type_value_of(self.kind),
    {
        match self.kind {
            SymbolType::Point => 0,
            SymbolType::Text => 4,
            _ => 1,
        }
    }

    /// Replaces the object's vertices; its coordinates are then written
    /// from them.
    pub fn set_vertices(&mut self, vs: Vec<Vertex>)
        ensures
            final(self).vertices@ == vs@,
            final(self).coords matches CoordsBlock::Dirty { run, count } && run@ == vertices_text(
                vs@,
            ) && count == vs@.len(),
            final(self).symbol_index == old(self).symbol_index,
            final(self).kind == old(self).kind,
            final(self).special@ == old(self).special@,
            final(self).tags@ == old(self).tags@,
    {
        let run = serialize_vertices(&vs);
        self.coords = CoordsBlock::Dirty { run, count: vs.len() };
        self.vertices = vs;
    }

    /// The object's element: as read where nothing was changed, with the
    /// coordinates written anew once the vertices were set.
    pub fn to_xml(&self) -> (r: Vec<u8>)
        ensures
            r@ == utf8("<object type=\""@) + crate::decimal::decimal(type_value_of(self.kind) as int)
                + utf8("\" symbol=\""@) + crate::decimal::decimal(self.symbol_index as int) + utf8(
                "\""@,
            ) + utf8(self.special@) + utf8(">"@) + crate::tag::tags_xml(self.tags@)
                + coords_block_xml(self.coords) + utf8("</object>\n"@),
    {
        edited_object_xml(
            self.type_value(),
            self.symbol_index,
            self.special.as_str(),
            &self.tags,
            &self.coords,
        )
    }
}

} // verus!
