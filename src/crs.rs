//! Projected coordinate reference systems and their `<projected_crs>`
//! element.
use vstd::prelude::*;

use crate::decimal::{decimal, digit_run_len, digits_value, is_digit, push_unsigned};
use crate::parse::parse_number;
use crate::text::{bytes_equal, push_bytes, push_str, utf8};
use crate::EditorError;

verus! {

/// The CRS of a geo-referenced map.
#[derive(Debug, Clone)]
pub enum CrsType {
    /// No geo-referencing: the map is in local space.
    Local,
    /// An EPSG code.
    EPSG(u16),
    /// A PROJ.4 string.
    PROJ4(String),
    /// A Gauss-Krueger zone on the Potsdam datum.
    GaussKrueger(u8),
    /// A UTM zone; negative zones are south of the equator.
    UTM(i8),
}

/// The bytes of `+init=epsg:`, which introduces an EPSG code in a PROJ.4
/// string.
pub open spec fn epsg_marker() -> Seq<u8> {
    seq![43u8, 105u8, 110u8, 105u8, 116u8, 61u8, 101u8, 112u8, 115u8, 103u8, 58u8]
}

/// Whether the marker starts at byte `i` of `b`.
pub open spec fn marker_at(b: Seq<u8>, i: int) -> bool {
    0 <= i && i + 11 <= b.len() && b.subrange(i, i + 11) == epsg_marker()
}

/// The EPSG code that a PROJ.4 string names: the digits right after the
/// first `+init=epsg:`, when they make a code from 1024 to 32767.
pub open spec fn epsg_of_proj(b: Seq<u8>) -> Option<u16> {
    if exists|i: int| marker_at(b, i) {
        let i = choose|i: int| marker_at(b, i) && forall|j: int| 0 <= j < i ==> !marker_at(b, j);
        let rest = b.subrange(i + 11, b.len() as int);
        let v = digits_value(rest.subrange(0, digit_run_len(rest) as int));
        if 1024 <= v <= 32767 {
            Some(v as u16)
        } else {
            None
        }
    } else {
        None
    }
}

/// The PROJ.4 string of a Gauss-Krueger zone.
pub open spec fn gauss_krueger_proj(zone: u8) -> Seq<u8> {
    utf8("+proj=tmerc +lat_0=0 +lon_0="@) + decimal(3 * zone) + utf8(" +k=1.000000 +x_0="@)
        + decimal(500000 + zone * 1000000) + utf8(
        " +y_0=0 +ellps=bessel +datum=potsdam +units=m +no_defs"@,
    )
}

/// The magnitude of a UTM zone.
pub open spec fn zone_abs(zone: i8) -> int {
    if zone < 0 {
        -zone
    } else {
        zone as int
    }
}

/// The PROJ.4 string of a UTM zone.
pub open spec fn utm_proj(zone: i8) -> Seq<u8> {
    utf8("+proj=utm +datum=WGS84 +zone="@) + decimal(zone_abs(zone))
}

/// The PROJ.4 string of an EPSG code.
pub open spec fn epsg_proj(code: u16) -> Seq<u8> {
    utf8("+init=epsg:"@) + decimal(code as int)
}

/// `<spec language="PROJ.4">spec</spec><parameter>parameter</parameter>`
pub open spec fn spec_and_parameter(spec: Seq<u8>, parameter: Seq<u8>) -> Seq<u8> {
    utf8("<spec language=\"PROJ.4\">"@) + spec + utf8("</spec><parameter>"@) + parameter + utf8(
        "</parameter>"@,
    )
}

impl CrsType {
    /// The EPSG code of the CRS, given directly or inside a PROJ.4 string.
    pub open spec fn spec_epsg_code(&self) -> Option<u16> {
        match self {
            CrsType::EPSG(c) => Some(*c),
            CrsType::PROJ4(s) => epsg_of_proj(utf8(s@)),
            _ => None,
        }
    }

    /// The `id` attribute of the CRS's `<projected_crs>` element.
    pub open spec fn spec_id(&self) -> Seq<u8> {
        match self {
            CrsType::Local => utf8("Local"@),
            CrsType::EPSG(_) => utf8("EPSG"@),
            CrsType::PROJ4(_) => utf8("PROJ.4"@),
            CrsType::GaussKrueger(_) => utf8("Gauss-Krueger, datum: Potsdam"@),
            CrsType::UTM(_) => utf8("UTM"@),
        }
    }

    /// The text of the CRS's `<parameter>` element: the code, the PROJ.4
    /// string, the zone, or the UTM zone with `N` or `S`.
    pub open spec fn spec_parameter(&self) -> Seq<u8> {
        match self {
            CrsType::Local => seq![],
            CrsType::EPSG(c) => decimal(*c as int),
            CrsType::PROJ4(s) => utf8(s@),
            CrsType::GaussKrueger(z) => decimal(*z as int),
            CrsType::UTM(z) => decimal(zone_abs(*z)) + if *z < 0 {
                seq![32u8, 83u8]
            } else {
                seq![32u8, 78u8]
            },
        }
    }

    /// Two CRSs are the same: the same kind, code and string.
    pub open spec fn same_as(&self, other: &CrsType) -> bool {
        match (self, other) {
            (CrsType::Local, CrsType::Local) => true,
            (CrsType::EPSG(a), CrsType::EPSG(b)) => a == b,
            (CrsType::PROJ4(a), CrsType::PROJ4(b)) => a@ == b@,
            (CrsType::GaussKrueger(a), CrsType::GaussKrueger(b)) => a == b,
            (CrsType::UTM(a), CrsType::UTM(b)) => a == b,
            _ => false,
        }
    }

    /// Reads a CRS from the `id` attribute and the `<parameter>` text of a
    /// `<projected_crs>` element. An unknown id is a map in local space; a
    /// known id needs the parameter that writing such a CRS gives.
    pub fn from_id_and_parameter(id: &str, parameter: &str) -> (r: Result<CrsType, EditorError>)
        ensures
            r matches Ok(c) ==> (c is Local && (forall|d: CrsType|
                !(d is Local) ==> #[trigger] d.spec_id() != utf8(id@))) || (!(c is Local)
                && c.spec_id() == utf8(id@) && c.spec_parameter() == utf8(parameter@)),
            r matches Err(e) ==> e is InvalidFormat,
            (forall|d: CrsType| !(d is Local) ==> #[trigger] d.spec_id() != utf8(id@)) ==> (r matches Ok(
                c,
            ) && c is Local),
            forall|c: CrsType|
                !(c is Local) && #[trigger] c.spec_id() == utf8(id@) && c.spec_parameter() == utf8(
                    parameter@,
                ) ==> (r matches Ok(d) && d.same_as(&c)),
    {
        let idb = id.as_bytes();
        let pb = parameter.as_bytes();
        let n = pb.len();
        let epsg = "EPSG".as_bytes();
        let gk = "Gauss-Krueger, datum: Potsdam".as_bytes();
        let utm = "UTM".as_bytes();
        let proj = "PROJ.4".as_bytes();
        if bytes_equal(idb, epsg) {
            assert(CrsType::EPSG(0).spec_id() == utf8(id@));
            match parse_number(pb, 0, 0, 65535) {
                Some((v, q)) => {
                    if q == n {
                        proof {
                            assert(pb@.subrange(0, q as int) =~= pb@);
                            assert forall|c: CrsType|
                                !(c is Local) && #[trigger] c.spec_id() == utf8(id@)
                                    && c.spec_parameter() == utf8(parameter@) implies CrsType::EPSG(
                                v as u16,
                            ).same_as(&c) by {
                                lemma_ids_differ();
                                if let CrsType::EPSG(code) = c {
                                    assert(pb@.subrange(0, decimal(code as int).len() as int)
                                        =~= pb@);
                                }
                            }
                        }
                        return Ok(CrsType::EPSG(v as u16));
                    }
                },
                None => {},
            }
            proof {
                assert forall|c: CrsType|
                    !(c is Local) && #[trigger] c.spec_id() == utf8(id@) && c.spec_parameter()
                        == utf8(parameter@) implies false by {
                    lemma_ids_differ();
                    if let CrsType::EPSG(code) = c {
                        assert(pb@.subrange(0, decimal(code as int).len() as int) =~= pb@);
                    }
                }
            }
            Err(EditorError::InvalidFormat("Could not parse georeferencing".to_owned()))
        } else if bytes_equal(idb, gk) {
            assert(CrsType::GaussKrueger(0).spec_id() == utf8(id@));
            match parse_number(pb, 0, 0, 255) {
                Some((v, q)) => {
                    if q == n {
                        proof {
                            assert(pb@.subrange(0, q as int) =~= pb@);
                            assert forall|c: CrsType|
                                !(c is Local) && #[trigger] c.spec_id() == utf8(id@)
                                    && c.spec_parameter() == utf8(parameter@)
                                    implies CrsType::GaussKrueger(v as u8).same_as(&c) by {
                                lemma_ids_differ();
                                if let CrsType::GaussKrueger(zz) = c {
                                    assert(pb@.subrange(0, decimal(zz as int).len() as int) =~= pb@);
                                }
                            }
                        }
                        return Ok(CrsType::GaussKrueger(v as u8));
                    }
                },
                None => {},
            }
            proof {
                assert forall|c: CrsType|
                    !(c is Local) && #[trigger] c.spec_id() == utf8(id@) && c.spec_parameter()
                        == utf8(parameter@) implies false by {
                    lemma_ids_differ();
                    if let CrsType::GaussKrueger(z) = c {
                        assert(pb@.subrange(0, decimal(z as int).len() as int) =~= pb@);
                    }
                }
            }
            Err(EditorError::InvalidFormat("Could not parse georeferencing".to_owned()))
        } else if bytes_equal(idb, utm) {
            assert(CrsType::UTM(0).spec_id() == utf8(id@));
            if n >= 2 && pb[n - 2] == 32u8 && (pb[n - 1] == 78u8 || pb[n - 1] == 83u8) {
                let south = pb[n - 1] == 83u8;
                match parse_number(pb, 0, 0, 128) {
                    Some((v, q)) => {
                        if q == n - 2 && ((south && v >= 1) || (!south && v <= 127)) {
                            let z: i8 = if south {
                                (0 - v) as i8
                            } else {
                                v as i8
                            };
                            proof {
                                assert(pb@ =~= pb@.subrange(0, q as int) + if south {
                                    seq![32u8, 83u8]
                                } else {
                                    seq![32u8, 78u8]
                                });
                                assert forall|c: CrsType|
                                    !(c is Local) && #[trigger] c.spec_id() == utf8(id@)
                                        && c.spec_parameter() == utf8(parameter@)
                                        implies CrsType::UTM(z).same_as(&c) by {
                                    lemma_ids_differ();
                                    if let CrsType::UTM(zz) = c {
                                        let d = decimal(zone_abs(zz));
                                        assert(pb@.subrange(0, d.len() as int) =~= d);
                                        assert(pb@[d.len() as int] == 32u8);
                                        assert(pb@[d.len() as int + 1] == if zz < 0 {
                                            83u8
                                        } else {
                                            78u8
                                        });
                                    }
                                }
                            }
                            return Ok(CrsType::UTM(z));
                        }
                    },
                    None => {},
                }
            }
            proof {
                assert forall|c: CrsType|
                    !(c is Local) && #[trigger] c.spec_id() == utf8(id@) && c.spec_parameter()
                        == utf8(parameter@) implies false by {
                    lemma_ids_differ();
                    if let CrsType::UTM(z) = c {
                        let d = decimal(zone_abs(z));
                        assert(pb@.subrange(0, d.len() as int) =~= d);
                        assert(pb@[d.len() as int] == 32u8);
                    }
                }
            }
            Err(EditorError::InvalidFormat("Could not parse georeferencing".to_owned()))
        } else if bytes_equal(idb, proj) {
            let s = parameter.to_owned();
            assert(CrsType::PROJ4(s).spec_id() == utf8(id@));
            proof {
                assert forall|c: CrsType|
                    !(c is Local) && #[trigger] c.spec_id() == utf8(id@) && c.spec_parameter()
                        == utf8(parameter@) implies CrsType::PROJ4(s).same_as(&c) by {
                    lemma_ids_differ();
                    if let CrsType::PROJ4(t) = c {
                        vstd::utf8::encode_utf8_decode_utf8(t@);
                        vstd::utf8::encode_utf8_decode_utf8(parameter@);
                    }
                }
            }
            Ok(CrsType::PROJ4(s))
        } else {
            proof {
                lemma_ids_differ();
            }
            Ok(CrsType::Local)
        }
    }

    /// The PROJ.4 string of the CRS, as UTF-8 bytes; none when local.
    pub open spec fn spec_proj_string(&self) -> Option<Seq<u8>> {
        match self {
            CrsType::Local => None,
            CrsType::EPSG(c) => Some(epsg_proj(*c)),
            CrsType::PROJ4(s) => Some(utf8(s@)),
            CrsType::GaussKrueger(z) => Some(gauss_krueger_proj(*z)),
            CrsType::UTM(z) => Some(utm_proj(*z)),
        }
    }

    /// The opening `<projected_crs>` element with the CRS's spec and
    /// parameter.
    pub open spec fn spec_xml(&self) -> Seq<u8> {
        match self {
            CrsType::Local => utf8("<projected_crs id=\"Local\">"@),
            CrsType::EPSG(c) => utf8("<projected_crs id=\"EPSG\">"@) + spec_and_parameter(
                epsg_proj(*c),
                decimal(*c as int),
            ),
            CrsType::PROJ4(s) => utf8("<projected_crs id=\"PROJ.4\">"@) + spec_and_parameter(
                utf8(s@),
                utf8(s@),
            ),
            CrsType::GaussKrueger(z) => utf8(
                "<projected_crs id=\"Gauss-Krueger, datum: Potsdam\">"@,
            ) + spec_and_parameter(gauss_krueger_proj(*z), decimal(*z as int)),
            CrsType::UTM(z) => utf8("<projected_crs id=\"UTM\">"@) + if *z < 0 {
                spec_and_parameter(utm_proj(*z) + utf8(" +south"@), self.spec_parameter())
            } else {
                spec_and_parameter(utm_proj(*z), self.spec_parameter())
            },
        }
    }

    /// The EPSG code of the CRS, given directly or inside a PROJ.4 string.
    pub fn get_epsg_code(&self) -> (r: Option<u16>)
        ensures
            r == self.spec_epsg_code(),
    {
        match self {
            CrsType::EPSG(c) => Some(*c),
            CrsType::PROJ4(s) => epsg_code_in(s.as_str().as_bytes()),
            _ => None,
        }
    }

    /// The PROJ.4 string of the CRS, as UTF-8 bytes; none when local.
    pub fn get_proj_string(&self) -> (r: Option<Vec<u8>>)
        ensures
            r matches Some(v) ==> self.spec_proj_string() == Some(v@),
            r is None ==> self.spec_proj_string() is None,
    {
        match self {
            CrsType::Local => None,
            _ => {
                let mut out: Vec<u8> = Vec::new();
                self.push_proj(&mut out);
                Some(out)
            },
        }
    }

    /// Appends the PROJ.4 string of a CRS that is not local.
    fn push_proj(&self, out: &mut Vec<u8>)
        requires
            !(*self is Local),
        ensures
            self.spec_proj_string() matches Some(p) && final(out)@ == old(out)@ + p,
    {
        match self {
            CrsType::Local => {},
            CrsType::EPSG(c) => {
                push_str(out, "+init=epsg:");
                push_unsigned(out, *c as u64);
                assert(final(out)@ =~= old(out)@ + epsg_proj(*c));
            },
            CrsType::PROJ4(s) => {
                push_str(out, s.as_str());
            },
            CrsType::GaussKrueger(z) => {
                push_str(out, "+proj=tmerc +lat_0=0 +lon_0=");
                push_unsigned(out, 3 * (*z as u64));
                push_str(out, " +k=1.000000 +x_0=");
                push_unsigned(out, 500000 + (*z as u64) * 1000000);
                push_str(out, " +y_0=0 +ellps=bessel +datum=potsdam +units=m +no_defs");
                assert(final(out)@ =~= old(out)@ + gauss_krueger_proj(*z));
            },
            CrsType::UTM(z) => {
                push_str(out, "+proj=utm +datum=WGS84 +zone=");
                push_unsigned(out, zone_magnitude(*z));
                assert(final(out)@ =~= old(out)@ + utm_proj(*z));
            },
        }
    }

    /// The opening `<projected_crs>` element with the CRS's spec and
    /// parameter.
    pub fn to_xml(&self) -> (r: Vec<u8>)
        ensures
            r@ == self.spec_xml(),
    {
        let mut out: Vec<u8> = Vec::new();
        match self {
            CrsType::Local => {
                push_str(&mut out, "<projected_crs id=\"Local\">");
                assert(out@ =~= self.spec_xml());
            },
            CrsType::EPSG(c) => {
                push_str(&mut out, "<projected_crs id=\"EPSG\">");
                push_str(&mut out, "<spec language=\"PROJ.4\">");
                self.push_proj(&mut out);
                push_str(&mut out, "</spec><parameter>");
                push_unsigned(&mut out, *c as u64);
                push_str(&mut out, "</parameter>");
                assert(out@ =~= self.spec_xml());
            },
            CrsType::PROJ4(s) => {
                push_str(&mut out, "<projected_crs id=\"PROJ.4\">");
                push_str(&mut out, "<spec language=\"PROJ.4\">");
                push_str(&mut out, s.as_str());
                push_str(&mut out, "</spec><parameter>");
                push_str(&mut out, s.as_str());
                push_str(&mut out, "</parameter>");
                assert(out@ =~= self.spec_xml());
            },
            CrsType::GaussKrueger(z) => {
                push_str(&mut out, "<projected_crs id=\"Gauss-Krueger, datum: Potsdam\">");
                push_str(&mut out, "<spec language=\"PROJ.4\">");
                self.push_proj(&mut out);
                push_str(&mut out, "</spec><parameter>");
                push_unsigned(&mut out, *z as u64);
                push_str(&mut out, "</parameter>");
                assert(out@ =~= self.spec_xml());
            },
            CrsType::UTM(z) => {
                push_str(&mut out, "<projected_crs id=\"UTM\">");
                push_str(&mut out, "<spec language=\"PROJ.4\">");
                self.push_proj(&mut out);
                if *z < 0 {
                    push_str(&mut out, " +south");
                }
                push_str(&mut out, "</spec><parameter>");
                push_unsigned(&mut out, zone_magnitude(*z));
                out.push(32u8);
                if *z < 0 {
                    out.push(83u8);
                } else {
                    out.push(78u8);
                }
                push_str(&mut out, "</parameter>");
                assert(out@ =~= self.spec_xml());
            },
        }
        out
    }
}

/// The magnitude of a UTM zone.
fn zone_magnitude(z: i8) -> (r: u64)
    ensures
        r == zone_abs(z),
{
    if z < 0 {
        (0i16 - z as i16) as u64
    } else {
        z as u64
    }
}

/// The EPSG code that a PROJ.4 string names, when it names one.
fn epsg_code_in(b: &[u8]) -> (r: Option<u16>)
    ensures
        r == epsg_of_proj(b@),
{
    let ghost s = b@;
    let n = b.len();
    if n < 11 {
        return None;
    }
    let mut i: usize = 0;
    while i <= n - 11 && !marker_matches(b, i)
        invariant
            n == s.len(),
            n >= 11,
            s == b@,
            i <= n - 10,
            forall|j: int| 0 <= j < i ==> !marker_at(s, j),
        decreases n - i,
    {
        i = i + 1;
    }
    if i > n - 11 {
        proof {
            assert forall|j: int| !marker_at(s, j) by {
                if 0 <= j && j + 11 <= s.len() {
                    assert(j < i);
                }
            }
        }
        return None;
    }
    proof {
        let c = choose|c: int| marker_at(s, c) && forall|j: int| 0 <= j < c ==> !marker_at(s, j);
        assert(marker_at(s, i as int) && forall|j: int| 0 <= j < i ==> !marker_at(s, j));
        if c < i {
        } else if c > i {
        }
        assert(c == i);
    }
    let ghost rest = s.subrange(i + 11, s.len() as int);
    let mut j: usize = i + 11;
    let mut acc: u32 = 0;
    while j < n && b[j] >= 48 && b[j] <= 57
        invariant
            i + 11 <= j <= n,
            n == s.len(),
            s == b@,
            rest == s.subrange(i + 11, n as int),
            forall|t: int| i + 11 <= t < j ==> is_digit(s[t]),
            acc == capped(digits_value(s.subrange(i + 11, j as int))),
        decreases n - j,
    {
        proof {
            let d = s.subrange(i + 11, j + 1);
            assert(d.drop_last() =~= s.subrange(i + 11, j as int));
            assert(d.last() == s[j as int]);
        }
        let next: u32 = acc * 10 + (b[j] - 48) as u32;
        acc = if next > 100000 {
            100000
        } else {
            next
        };
        j = j + 1;
    }
    proof {
        lemma_digit_run(rest, (j - i - 11) as int);
        assert(rest.subrange(0, (j - i - 11) as int) =~= s.subrange(i + 11, j as int));
    }
    if acc >= 1024 && acc <= 32767 {
        Some(acc as u16)
    } else {
        None
    }
}

/// Whether the marker starts at byte `i` of `b`.
fn marker_matches(b: &[u8], i: usize) -> (r: bool)
    requires
        i + 11 <= b@.len(),
    ensures
        r == marker_at(b@, i as int),
{
    let marker: Vec<u8> = vec![43u8, 105u8, 110u8, 105u8, 116u8, 61u8, 101u8, 112u8, 115u8, 103u8, 58u8];
    assert(marker@ == epsg_marker());
    let mut k: usize = 0;
    while k < 11 && b[i + k] == marker[k]
        invariant
            k <= 11,
            i + 11 <= b@.len(),
            i + 11 <= b.len(),
            marker@ == epsg_marker(),
            forall|t: int| 0 <= t < k ==> b@[i + t] == marker@[t],
        decreases 11 - k,
    {
        k = k + 1;
    }
    if k == 11 {
        assert(b@.subrange(i as int, i + 11) =~= epsg_marker());
        true
    } else {
        assert(b@.subrange(i as int, i + 11)[k as int] == b@[i + k]);
        false
    }
}

/// A value, or 100000 when it is larger.
spec fn capped(v: nat) -> nat {
    if v > 100000 {
        100000
    } else {
        v
    }
}

/// The digit run of `b` is its first `k` bytes, when they are digits and
/// the next byte, if any, is not.
proof fn lemma_digit_run(b: Seq<u8>, k: int)
    requires
        0 <= k <= b.len(),
        forall|t: int| 0 <= t < k ==> is_digit(b[t]),
        k == b.len() || !is_digit(b[k]),
    ensures
        digit_run_len(b) == k,
    decreases k,
{
    if k > 0 {
        lemma_digit_run(b.drop_first(), k - 1);
    }
}

/// The ids of the kinds of CRS differ from each other.
proof fn lemma_ids_differ()
    ensures
        utf8("EPSG"@) != utf8("PROJ.4"@),
        utf8("EPSG"@) != utf8("UTM"@),
        utf8("EPSG"@) != utf8("Gauss-Krueger, datum: Potsdam"@),
        utf8("PROJ.4"@) != utf8("UTM"@),
        utf8("PROJ.4"@) != utf8("Gauss-Krueger, datum: Potsdam"@),
        utf8("UTM"@) != utf8("Gauss-Krueger, datum: Potsdam"@),
{
    reveal_strlit("EPSG");
    reveal_strlit("PROJ.4");
    reveal_strlit("UTM");
    reveal_strlit("Gauss-Krueger, datum: Potsdam");
    vstd::utf8::encode_utf8_decode_utf8("EPSG"@);
    vstd::utf8::encode_utf8_decode_utf8("PROJ.4"@);
    vstd::utf8::encode_utf8_decode_utf8("UTM"@);
    vstd::utf8::encode_utf8_decode_utf8("Gauss-Krueger, datum: Potsdam"@);
    assert("EPSG"@.len() != "PROJ.4"@.len());
    assert("EPSG"@.len() != "UTM"@.len());
    assert("EPSG"@.len() != "Gauss-Krueger, datum: Potsdam"@.len());
    assert("PROJ.4"@.len() != "UTM"@.len());
    assert("PROJ.4"@.len() != "Gauss-Krueger, datum: Potsdam"@.len());
    assert("UTM"@.len() != "Gauss-Krueger, datum: Potsdam"@.len());
}

} // verus!
