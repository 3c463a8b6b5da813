//! The `<object>` element of each kind of map object.
//!
//! Coordinates come in already transformed to map units; rotations come in
//! as the decimal text of the angle to write, with the map's grivation
//! already added.
use vstd::prelude::*;

use crate::coords::{
    lemma_hole_vertex_count, polyline_text, push_vertex, rings_count, rings_text, vertex_text,
    MapCoord,
};
use crate::decimal::{decimal, push_unsigned};
use crate::symbol::{AreaSymbol, LineSymbol, PointSymbol, TextSymbol};
use crate::tag::{tags_xml, Tags};
use crate::text::{push_bytes, push_str, utf8};

verus! {

/// The `type` attribute of a point object.
pub const POINT_TYPE: u8 = 0;

/// The `type` attribute of a line or area object.
pub const PATH_TYPE: u8 = 1;

/// The `type` attribute of a text object.
pub const TEXT_TYPE: u8 = 4;

/// `<coords count="N">run</coords>`
pub open spec fn coords_xml(run: Seq<u8>, count: nat) -> Seq<u8> {
    utf8("<coords count=\""@) + decimal(count as int) + utf8("\">"@) + run + utf8("</coords>"@)
}

/// A whole object element: the opening tag with its type, symbol id and
/// special attributes, the tags, the coordinates, what follows them, and the
/// closing tag.
pub open spec fn object_xml(
    type_value: u8,
    symbol_id: u8,
    special: Seq<u8>,
    tags: Seq<(Seq<char>, Seq<char>)>,
    run: Seq<u8>,
    count: nat,
    tail: Seq<u8>,
) -> Seq<u8> {
    utf8("<object type=\""@) + decimal(type_value as int) + utf8("\" symbol=\""@) + decimal(
        symbol_id as int,
    ) + utf8("\""@) + special + utf8(">"@) + tags_xml(tags) + coords_xml(run, count) + tail
        + utf8("</object>\n"@)
}

/// The special attribute of a point object: its rotation.
pub open spec fn rotation_attr(rotation: Seq<char>) -> Seq<u8> {
    utf8(" rotation=\""@) + utf8(rotation) + utf8("\""@)
}

/// The special attributes of a text object: its alignment.
pub open spec fn text_align_attrs() -> Seq<u8> {
    utf8(" h_align=\"1\" v_align=\"2\""@)
}

/// What follows the coordinates of a text object: the text itself.
pub open spec fn text_element(text: Seq<char>) -> Seq<u8> {
    utf8("<text>"@) + utf8(text) + utf8("</text>"@)
}

/// What follows the coordinates of an area object: the pattern rotation,
/// for symbols whose pattern can be rotated, and nothing for the others.
pub open spec fn pattern_element(symbol: AreaSymbol, rotation: Seq<char>) -> Seq<u8> {
    if symbol.spec_is_rotatable() {
        utf8("<pattern rotation=\""@) + utf8(rotation) + utf8(
            "\"><coord x=\"0\" y=\"0\"/></pattern>"@,
        )
    } else {
        seq![]
    }
}

/// Writes an object element around a coordinate run.
fn write_object(
    type_value: u8,
    symbol_id: u8,
    special: &Vec<u8>,
    tags: &Tags,
    run: &Vec<u8>,
    count: usize,
    tail: &Vec<u8>,
) -> (r: Vec<u8>)
    ensures
        r@ == object_xml(type_value, symbol_id, special@, tags@, run@, count as nat, tail@),
{
    let mut out: Vec<u8> = Vec::new();
    push_str(&mut out, "<object type=\"");
    push_unsigned(&mut out, type_value as u64);
    push_str(&mut out, "\" symbol=\"");
    push_unsigned(&mut out, symbol_id as u64);
    push_str(&mut out, "\"");
    push_bytes(&mut out, special.as_slice());
    push_str(&mut out, ">");
    tags.push_xml(&mut out);
    push_str(&mut out, "<coords count=\"");
    push_unsigned(&mut out, count as u64);
    push_str(&mut out, "\">");
    push_bytes(&mut out, run.as_slice());
    push_str(&mut out, "</coords>");
    push_bytes(&mut out, tail.as_slice());
    push_str(&mut out, "</object>\n");
    assert(out@ =~= object_xml(type_value, symbol_id, special@, tags@, run@, count as nat, tail@));
    out
}

/// The element of a point object at `coord`, rotated by `rotation`.
pub fn point_object_xml(symbol: PointSymbol, rotation: &str, tags: &Tags, coord: MapCoord) -> (r:
    Vec<u8>)
    ensures
        r@ == object_xml(
            POINT_TYPE,
            symbol.spec_id(),
            rotation_attr(rotation@),
            tags@,
            vertex_text(coord, 0),
            1,
            seq![],
        ),
{
    let mut special: Vec<u8> = Vec::new();
    push_str(&mut special, " rotation=\"");
    push_str(&mut special, rotation);
    push_str(&mut special, "\"");
    assert(special@ =~= rotation_attr(rotation@));
    let mut run: Vec<u8> = Vec::new();
    push_vertex(&mut run, coord, 0);
    assert(run@ =~= vertex_text(coord, 0));
    let tail: Vec<u8> = Vec::new();
    write_object(POINT_TYPE, symbol.id(), &special, tags, &run, 1, &tail)
}

/// The element of a text object anchored at `coord`.
pub fn text_object_xml(symbol: TextSymbol, tags: &Tags, coord: MapCoord, text: &str) -> (r: Vec<
    u8,
>)
    ensures
        r@ == object_xml(
            TEXT_TYPE,
            symbol.spec_id(),
            text_align_attrs(),
            tags@,
            vertex_text(coord, 0),
            1,
            text_element(text@),
        ),
{
    let mut special: Vec<u8> = Vec::new();
    push_str(&mut special, " h_align=\"1\" v_align=\"2\"");
    assert(special@ =~= text_align_attrs());
    let mut run: Vec<u8> = Vec::new();
    push_vertex(&mut run, coord, 0);
    assert(run@ =~= vertex_text(coord, 0));
    let mut tail: Vec<u8> = Vec::new();
    push_str(&mut tail, "<text>");
    push_str(&mut tail, text);
    push_str(&mut tail, "</text>");
    assert(tail@ =~= text_element(text@));
    write_object(TEXT_TYPE, symbol.id(), &special, tags, &run, 1, &tail)
}

/// The element of a line object around its serialized coordinate run.
pub fn line_object_xml(symbol: LineSymbol, tags: &Tags, run: &Vec<u8>, count: usize) -> (r: Vec<
    u8,
>)
    ensures
        r@ == object_xml(PATH_TYPE, symbol.spec_id(), seq![], tags@, run@, count as nat, seq![]),
{
    let special: Vec<u8> = Vec::new();
    let tail: Vec<u8> = Vec::new();
    write_object(PATH_TYPE, symbol.id(), &special, tags, run, count, &tail)
}

/// The element of an area object around its serialized coordinate run; the
/// pattern rotation is written only for symbols whose pattern can be rotated.
pub fn area_object_xml(
    symbol: AreaSymbol,
    tags: &Tags,
    run: &Vec<u8>,
    count: usize,
    pattern_rotation: &str,
) -> (r: Vec<u8>)
    ensures
        r@ == object_xml(
            PATH_TYPE,
            symbol.spec_id(),
            seq![],
            tags@,
            run@,
            count as nat,
            pattern_element(symbol, pattern_rotation@),
        ),
{
    let special: Vec<u8> = Vec::new();
    let mut tail: Vec<u8> = Vec::new();
    if symbol.is_rotatable() {
        push_str(&mut tail, "<pattern rotation=\"");
        push_str(&mut tail, pattern_rotation);
        push_str(&mut tail, "\"><coord x=\"0\" y=\"0\"/></pattern>");
    }
    assert(tail@ =~= pattern_element(symbol, pattern_rotation@));
    write_object(PATH_TYPE, symbol.id(), &special, tags, run, count, &tail)
}

/// The coordinates of an object of an edited map: as they were read, when
/// the geometry was not touched, or a new run.
#[derive(Debug, Clone)]
pub enum CoordsBlock {
    /// The `<coords>` element as read, written back byte for byte.
    Pristine(Vec<u8>),
    /// A new run and its vertex count.
    Dirty { run: Vec<u8>, count: usize },
}

/// The bytes a coordinates block writes.
pub open spec fn coords_block_xml(c: CoordsBlock) -> Seq<u8> {
    match c {
        CoordsBlock::Pristine(raw) => raw@,
        CoordsBlock::Dirty { run, count } => coords_xml(run@, count as nat),
    }
}

/// The element of an object of an edited map: its type, the index of its
/// symbol in the symbol set, its special attributes, its tags, and its
/// coordinates as read or as newly written.
pub fn edited_object_xml(
    type_value: u8,
    symbol_index: usize,
    special: &str,
    tags: &Tags,
    coords: &CoordsBlock,
) -> (r: Vec<u8>)
    ensures
        r@ == utf8("<object type=\""@) + decimal(type_value as int) + utf8("\" symbol=\""@)
            + decimal(symbol_index as int) + utf8("\""@) + utf8(special@) + utf8(">"@) + tags_xml(
            tags@,
        ) + coords_block_xml(*coords) + utf8("</object>\n"@),
{
    let mut out: Vec<u8> = Vec::new();
    push_str(&mut out, "<object type=\"");
    push_unsigned(&mut out, type_value as u64);
    push_str(&mut out, "\" symbol=\"");
    push_unsigned(&mut out, symbol_index as u64);
    push_str(&mut out, "\"");
    push_str(&mut out, special);
    push_str(&mut out, ">");
    tags.push_xml(&mut out);
    match coords {
        CoordsBlock::Pristine(raw) => {
            push_bytes(&mut out, raw.as_slice());
        },
        CoordsBlock::Dirty { run, count } => {
            push_str(&mut out, "<coords count=\"");
            push_unsigned(&mut out, *count as u64);
            push_str(&mut out, "\">");
            push_bytes(&mut out, run.as_slice());
            push_str(&mut out, "</coords>");
        },
    }
    push_str(&mut out, "</object>\n");
    assert(out@ =~= utf8("<object type=\""@) + decimal(type_value as int) + utf8(
        "\" symbol=\""@,
    ) + decimal(symbol_index as int) + utf8("\""@) + utf8(special@) + utf8(">"@) + tags_xml(tags@)
        + coords_block_xml(*coords) + utf8("</object>\n"@));
    out
}

/// The `<coords>` element of an area with an exterior ring and two holes
/// counts the vertices of all three rings, and holds the exterior's run,
/// then the first hole's, then the second's.
pub proof fn lemma_area_coords_two_holes(
    exterior: Seq<MapCoord>,
    hole1: Seq<MapCoord>,
    hole2: Seq<MapCoord>,
)
    ensures
        coords_xml(
            rings_text(seq![exterior, hole1, hole2]),
            rings_count(seq![exterior, hole1, hole2]),
        ) == utf8("<coords count=\""@) + decimal((exterior.len() + hole1.len() + hole2.len()) as int)
            + utf8("\">"@) + polyline_text(exterior, true) + polyline_text(hole1, true)
            + polyline_text(hole2, true) + utf8("</coords>"@),
{
    lemma_hole_vertex_count(exterior, hole1, hole2);
    assert(coords_xml(
        rings_text(seq![exterior, hole1, hole2]),
        rings_count(seq![exterior, hole1, hole2]),
    ) =~= utf8("<coords count=\""@) + decimal((exterior.len() + hole1.len() + hole2.len()) as int)
        + utf8("\">"@) + polyline_text(exterior, true) + polyline_text(hole1, true)
        + polyline_text(hole2, true) + utf8("</coords>"@));
}

} // verus!
