//! Map-unit coordinates and the token grammar of a `<coords>` run.
//!
//! Each vertex is written as `x y;`, or as `x y f;` when it carries the
//! flag `f`. A vertex that starts a Bezier curve has flag 1 and is followed
//! by its two handles; the final vertex of a closed ring has flag 18.
use vstd::prelude::*;

use crate::decimal::{decimal, push_signed, push_unsigned};
use crate::{OmapError, OmapResult};

verus! {

/// The largest magnitude of a map-unit coordinate.
pub const MAX_MAP_UNIT: i64 = 2147483647;

/// Flag of a vertex that starts a Bezier curve.
pub const CURVE_START_FLAG: u8 = 1;

/// Flag of the closing vertex of a closed ring.
pub const CLOSE_POINT_FLAG: u8 = 18;

/// A coordinate in map units (1/1000 mm on paper).
#[derive(Debug, Clone, Copy, PartialEq, Eq, Structural)]
pub struct MapCoord {
    pub x: i32,
    pub y: i32,
}

/// The two control handles of a curved segment.
#[derive(Debug, Clone, Copy, PartialEq, Eq, Structural)]
pub struct Handles {
    pub first: MapCoord,
    pub second: MapCoord,
}

/// One cubic Bezier segment, or a straight run when `handles` is `None`.
/// Its end is the start of the next segment of the same sequence.
#[derive(Debug, Clone, Copy, PartialEq, Eq, Structural)]
pub struct BezierSegment {
    pub start: MapCoord,
    pub handles: Option<Handles>,
    pub end: MapCoord,
}

/// A rounded, transformed value that a map unit can hold.
pub open spec fn in_map_range(v: int) -> bool {
    -MAX_MAP_UNIT <= v <= MAX_MAP_UNIT
}

impl MapCoord {
    /// Makes a map coordinate from rounded, transformed values, or fails with
    /// `MapCoordinateOverflow` when a magnitude exceeds `i32::MAX`.
    pub fn from_map_units(x: i64, y: i64) -> (r: OmapResult<MapCoord>)
        ensures
            r is Ok <==> in_map_range(x as int) && in_map_range(y as int),
            r matches Ok(c) ==> c.x == x && c.y == y,
            r matches Err(e) ==> e == OmapError::MapCoordinateOverflow,
    {
        if x > MAX_MAP_UNIT || x < -MAX_MAP_UNIT || y > MAX_MAP_UNIT || y < -MAX_MAP_UNIT {
            Err(OmapError::MapCoordinateOverflow)
        } else {
            Ok(MapCoord { x: x as i32, y: y as i32 })
        }
    }
}

/// `x y` of a coordinate.
pub open spec fn coord_text(c: MapCoord) -> Seq<u8> {
    decimal(c.x as int) + seq![32u8] + decimal(c.y as int)
}

/// One vertex token: `x y;` without a flag, `x y f;` with flag `f`.
pub open spec fn vertex_text(c: MapCoord, flag: nat) -> Seq<u8> {
    if flag == 0 {
        coord_text(c) + seq![59u8]
    } else {
        coord_text(c) + seq![32u8] + decimal(flag as int) + seq![59u8]
    }
}

/// The flag of a ring's final vertex.
pub open spec fn end_flag(closed: bool) -> nat {
    if closed {
        CLOSE_POINT_FLAG as nat
    } else {
        0
    }
}

/// Vertices without flags, one after the other.
pub open spec fn plain_vertices(cs: Seq<MapCoord>) -> Seq<u8>
    decreases cs.len(),
{
    if cs.len() == 0 {
        seq![]
    } else {
        plain_vertices(cs.drop_last()) + vertex_text(cs.last(), 0)
    }
}

/// The run of a polyline: every vertex plain, but the final one of a closed
/// ring, which carries the closing flag.
pub open spec fn polyline_text(cs: Seq<MapCoord>, closed: bool) -> Seq<u8> {
    plain_vertices(cs.drop_last()) + vertex_text(cs.last(), end_flag(closed))
}

/// What a segment contributes before its end: the start, flagged as a curve
/// start and followed by the handles when it is curved.
pub open spec fn segment_head(s: BezierSegment) -> Seq<u8> {
    match s.handles {
        Some(h) => vertex_text(s.start, CURVE_START_FLAG as nat) + vertex_text(h.first, 0)
            + vertex_text(h.second, 0),
        None => vertex_text(s.start, 0),
    }
}

/// Vertices a segment contributes before its end.
pub open spec fn segment_points(s: BezierSegment) -> nat {
    if s.handles is Some {
        3
    } else {
        1
    }
}

/// The heads of a sequence of segments, one after the other.
pub open spec fn segment_heads(ss: Seq<BezierSegment>) -> Seq<u8>
    decreases ss.len(),
{
    if ss.len() == 0 {
        seq![]
    } else {
        segment_heads(ss.drop_last()) + segment_head(ss.last())
    }
}

/// Vertices of the heads of a sequence of segments.
pub open spec fn heads_points(ss: Seq<BezierSegment>) -> nat
    decreases ss.len(),
{
    if ss.len() == 0 {
        0
    } else {
        heads_points(ss.drop_last()) + segment_points(ss.last())
    }
}

/// The run of a Bezier sequence: the heads of all segments, then the end of
/// the last one, flagged as closing when the ring is closed.
pub open spec fn bezier_text(ss: Seq<BezierSegment>, closed: bool) -> Seq<u8> {
    segment_heads(ss) + vertex_text(ss.last().end, end_flag(closed))
}

/// Vertices of the run of a Bezier sequence.
pub open spec fn bezier_count(ss: Seq<BezierSegment>) -> nat {
    heads_points(ss) + 1
}

/// Appends `x y` to `out`.
fn push_coord(out: &mut Vec<u8>, c: MapCoord)
    ensures
        final(out)@ == old(out)@ + coord_text(c),
{
    push_signed(out, c.x as i64);
    out.push(32u8);
    push_signed(out, c.y as i64);
    assert(final(out)@ =~= old(out)@ + coord_text(c));
}

/// Appends one vertex token to `out`.
pub fn push_vertex(out: &mut Vec<u8>, c: MapCoord, flag: u8)
    ensures
        final(out)@ == old(out)@ + vertex_text(c, flag as nat),
{
    push_coord(out, c);
    if flag != 0 {
        out.push(32u8);
        push_unsigned(out, flag as u64);
    }
    out.push(59u8);
    assert(final(out)@ =~= old(out)@ + vertex_text(c, flag as nat));
}

/// Serializes a polyline: the bytes of the run and its vertex count.
/// The final vertex carries the closing flag exactly when `closed` holds.
pub fn serialize_polyline(coords: &Vec<MapCoord>, closed: bool) -> (r: (Vec<u8>, usize))
    requires
        coords.len() >= 1,
    ensures
        r.0@ == polyline_text(coords@, closed),
        r.1 == coords.len(),
{
    let n = coords.len();
    let mut out: Vec<u8> = Vec::new();
    let mut i: usize = 0;
    while i < n - 1
        invariant
            n == coords.len(),
            n >= 1,
            i <= n - 1,
            out@ == plain_vertices(coords@.subrange(0, i as int)),
        decreases n - 1 - i,
    {
        push_vertex(&mut out, coords[i], 0);
        proof {
            let s = coords@.subrange(0, i + 1);
            assert(s.drop_last() =~= coords@.subrange(0, i as int));
        }
        i = i + 1;
    }
    assert(coords@.drop_last() =~= coords@.subrange(0, (n - 1) as int));
    let flag: u8 = if closed {
        CLOSE_POINT_FLAG
    } else {
        0
    };
    push_vertex(&mut out, coords[n - 1], flag);
    (out, n)
}

/// Appends the head of one segment to `out`.
fn push_segment_head(out: &mut Vec<u8>, s: &BezierSegment)
    ensures
        final(out)@ == old(out)@ + segment_head(*s),
{
    match s.handles {
        Some(h) => {
            push_vertex(out, s.start, CURVE_START_FLAG);
            push_vertex(out, h.first, 0);
            push_vertex(out, h.second, 0);
            assert(final(out)@ =~= old(out)@ + segment_head(*s));
        },
        None => {
            push_vertex(out, s.start, 0);
        },
    }
}

/// Serializes a sequence of Bezier segments: the bytes of the run and its
/// vertex count. The final end point carries the closing flag exactly when
/// `closed` holds.
pub fn serialize_bezier(segments: &Vec<BezierSegment>, closed: bool) -> (r: (Vec<u8>, usize))
    requires
        segments.len() >= 1,
        segments.len() <= usize::MAX / 4,
    ensures
        r.0@ == bezier_text(segments@, closed),
        r.1 == bezier_count(segments@),
{
    let n = segments.len();
    let mut out: Vec<u8> = Vec::new();
    let mut count: usize = 0;
    let mut i: usize = 0;
    while i < n
        invariant
            n == segments.len(),
            n <= usize::MAX / 4,
            i <= n,
            out@ == segment_heads(segments@.subrange(0, i as int)),
            count == heads_points(segments@.subrange(0, i as int)),
            count <= 3 * i,
        decreases n - i,
    {
        push_segment_head(&mut out, &segments[i]);
        proof {
            let s = segments@.subrange(0, i + 1);
            assert(s.drop_last() =~= segments@.subrange(0, i as int));
        }
        if segments[i].handles.is_some() {
            count = count + 3;
        } else {
            count = count + 1;
        }
        i = i + 1;
    }
    assert(segments@.subrange(0, n as int) =~= segments@);
    let flag: u8 = if closed {
        CLOSE_POINT_FLAG
    } else {
        0
    };
    push_vertex(&mut out, segments[n - 1].end, flag);
    (out, count + 1)
}

/// Runs of closed rings, one after the other, with no separator between them.
pub open spec fn rings_text(rs: Seq<Seq<MapCoord>>) -> Seq<u8>
    decreases rs.len(),
{
    if rs.len() == 0 {
        seq![]
    } else {
        rings_text(rs.drop_last()) + polyline_text(rs.last(), true)
    }
}

/// Vertices of all rings together.
pub open spec fn rings_count(rs: Seq<Seq<MapCoord>>) -> nat
    decreases rs.len(),
{
    if rs.len() == 0 {
        0
    } else {
        rings_count(rs.drop_last()) + rs.last().len()
    }
}

/// The rings of an area: its exterior, then its holes in order.
pub open spec fn area_rings(exterior: Seq<MapCoord>, holes: Seq<Vec<MapCoord>>) -> Seq<
    Seq<MapCoord>,
> {
    seq![exterior] + holes.map_values(|h: Vec<MapCoord>| h@)
}

/// Serializes an area as polylines: the exterior ring, then each hole, all
/// closed, with the combined vertex count.
pub fn serialize_area_polyline(exterior: &Vec<MapCoord>, holes: &Vec<Vec<MapCoord>>) -> (r: (
    Vec<u8>,
    usize,
))
    requires
        exterior.len() >= 1,
        forall|i: int| 0 <= i < holes.len() ==> #[trigger] holes[i].len() >= 1,
        rings_count(area_rings(exterior@, holes@)) <= usize::MAX,
    ensures
        r.0@ == rings_text(area_rings(exterior@, holes@)),
        r.1 == rings_count(area_rings(exterior@, holes@)),
{
    let ghost rings = area_rings(exterior@, holes@);
    let (mut out, mut count) = serialize_polyline(exterior, true);
    proof {
        let first = rings.subrange(0, 1);
        assert(first.drop_last() =~= Seq::<Seq<MapCoord>>::empty());
        assert(first.last() == exterior@);
        assert(rings_count(first.drop_last()) == 0);
        assert(rings_text(first.drop_last()) == Seq::<u8>::empty());
        assert(rings_text(first) =~= polyline_text(exterior@, true));
        lemma_rings_count_prefix(rings, 1);
    }
    let mut i: usize = 0;
    while i < holes.len()
        invariant
            rings == area_rings(exterior@, holes@),
            rings.len() == holes.len() + 1,
            forall|k: int| 0 <= k < holes.len() ==> #[trigger] holes[k].len() >= 1,
            rings_count(rings) <= usize::MAX,
            i <= holes.len(),
            out@ == rings_text(rings.subrange(0, i + 1)),
            count == rings_count(rings.subrange(0, i + 1)),
        decreases holes.len() - i,
    {
        let (bytes, n) = serialize_polyline(&holes[i], true);
        proof {
            let pre = rings.subrange(0, i + 2);
            assert(pre.drop_last() =~= rings.subrange(0, i + 1));
            assert(pre.last() == holes[i as int]@);
            lemma_rings_count_prefix(rings, i + 2);
        }
        let mut bytes = bytes;
        out.append(&mut bytes);
        count = count + n;
        i = i + 1;
    }
    assert(rings.subrange(0, holes.len() + 1) =~= rings);
    (out, count)
}

/// A prefix of a list of rings has no more vertices than the whole list.
proof fn lemma_rings_count_prefix(rs: Seq<Seq<MapCoord>>, k: int)
    requires
        0 <= k <= rs.len(),
    ensures
        rings_count(rs.subrange(0, k)) <= rings_count(rs),
    decreases rs.len(),
{
    if k < rs.len() {
        assert(rs.drop_last() =~= rs.subrange(0, rs.len() - 1));
        assert(rs.drop_last().subrange(0, k) =~= rs.subrange(0, k));
        lemma_rings_count_prefix(rs.drop_last(), k);
    } else {
        assert(rs.subrange(0, k) =~= rs);
    }
}

/// An area with an exterior ring and two holes reports the sum of the three
/// rings' vertex counts, and writes the holes' runs right after the
/// exterior's, in ring order.
pub proof fn lemma_hole_vertex_count(
    exterior: Seq<MapCoord>,
    hole1: Seq<MapCoord>,
    hole2: Seq<MapCoord>,
)
    ensures
        rings_count(seq![exterior, hole1, hole2]) == exterior.len() + hole1.len() + hole2.len(),
        rings_text(seq![exterior, hole1, hole2]) == polyline_text(exterior, true)
            + polyline_text(hole1, true) + polyline_text(hole2, true),
{
    let rs3 = seq![exterior, hole1, hole2];
    let rs2 = seq![exterior, hole1];
    let rs1 = seq![exterior];
    let rs0 = Seq::<Seq<MapCoord>>::empty();
    assert(rs3.drop_last() =~= rs2);
    assert(rs2.drop_last() =~= rs1);
    assert(rs1.drop_last() =~= rs0);
    assert(rings_count(rs0) == 0);
    assert(rings_text(rs0) == Seq::<u8>::empty());
    assert(rings_count(rs1) == exterior.len());
    assert(rings_text(rs1) =~= polyline_text(exterior, true));
    assert(rings_count(rs2) == exterior.len() + hole1.len());
    assert(rings_text(rs2) == polyline_text(exterior, true) + polyline_text(hole1, true));
    assert(rings_text(rs3) =~= polyline_text(exterior, true) + polyline_text(hole1, true)
        + polyline_text(hole2, true));
}

/// The run of a closed polyline is the run of the same polyline left open,
/// with flag 18 put on its final vertex; left open, the final vertex carries
/// no flag.
pub proof fn lemma_closing_flag(cs: Seq<MapCoord>)
    requires
        cs.len() >= 1,
    ensures
        polyline_text(cs, false) == plain_vertices(cs.drop_last()) + coord_text(cs.last()) + seq![
            59u8,
        ],
        polyline_text(cs, true) == polyline_text(cs, false).drop_last() + seq![32u8, 49u8, 56u8, 59u8],
{
    crate::decimal::lemma_decimal_18();
    assert(polyline_text(cs, false) =~= plain_vertices(cs.drop_last()) + coord_text(cs.last())
        + seq![59u8]);
    assert(polyline_text(cs, true) =~= polyline_text(cs, false).drop_last() + seq![
        32u8,
        49u8,
        56u8,
        59u8,
    ]);
}

/// The same holds of a Bezier run: closed, its final end point carries flag
/// 18; open, no flag.
pub proof fn lemma_bezier_closing_flag(ss: Seq<BezierSegment>)
    requires
        ss.len() >= 1,
    ensures
        bezier_text(ss, false) == segment_heads(ss) + coord_text(ss.last().end) + seq![59u8],
        bezier_text(ss, true) == bezier_text(ss, false).drop_last() + seq![32u8, 49u8, 56u8, 59u8],
{
    crate::decimal::lemma_decimal_18();
    assert(bezier_text(ss, false) =~= segment_heads(ss) + coord_text(ss.last().end) + seq![59u8]);
    assert(bezier_text(ss, true) =~= bezier_text(ss, false).drop_last() + seq![
        32u8,
        49u8,
        56u8,
        59u8,
    ]);
}

/// Bezier runs of closed rings, one after the other.
pub open spec fn bezier_rings_text(rs: Seq<Seq<BezierSegment>>) -> Seq<u8>
    decreases rs.len(),
{
    if rs.len() == 0 {
        seq![]
    } else {
        bezier_rings_text(rs.drop_last()) + bezier_text(rs.last(), true)
    }
}

/// Vertices of the Bezier runs of all rings together.
pub open spec fn bezier_rings_count(rs: Seq<Seq<BezierSegment>>) -> nat
    decreases rs.len(),
{
    if rs.len() == 0 {
        0
    } else {
        bezier_rings_count(rs.drop_last()) + bezier_count(rs.last())
    }
}

/// The fitted rings of an area: its exterior, then its holes in order.
pub open spec fn bezier_area_rings(
    exterior: Seq<BezierSegment>,
    holes: Seq<Vec<BezierSegment>>,
) -> Seq<Seq<BezierSegment>> {
    seq![exterior] + holes.map_values(|h: Vec<BezierSegment>| h@)
}

/// A prefix of a list of fitted rings has no more vertices than the whole.
proof fn lemma_bezier_rings_count_prefix(rs: Seq<Seq<BezierSegment>>, k: int)
    requires
        0 <= k <= rs.len(),
    ensures
        bezier_rings_count(rs.subrange(0, k)) <= bezier_rings_count(rs),
    decreases rs.len(),
{
    if k < rs.len() {
        assert(rs.drop_last() =~= rs.subrange(0, rs.len() - 1));
        assert(rs.drop_last().subrange(0, k) =~= rs.subrange(0, k));
        lemma_bezier_rings_count_prefix(rs.drop_last(), k);
    } else {
        assert(rs.subrange(0, k) =~= rs);
    }
}

/// Serializes a fitted area: the exterior's Bezier run, then each hole's,
/// all closed, with the combined vertex count.
pub fn serialize_area_bezier(
    exterior: &Vec<BezierSegment>,
    holes: &Vec<Vec<BezierSegment>>,
) -> (r: (Vec<u8>, usize))
    requires
        1 <= exterior.len() <= usize::MAX / 4,
        forall|i: int|
            0 <= i < holes.len() ==> 1 <= #[trigger] holes[i].len() <= usize::MAX / 4,
        bezier_rings_count(bezier_area_rings(exterior@, holes@)) <= usize::MAX,
    ensures
        r.0@ == bezier_rings_text(bezier_area_rings(exterior@, holes@)),
        r.1 == bezier_rings_count(bezier_area_rings(exterior@, holes@)),
{
    let ghost rings = bezier_area_rings(exterior@, holes@);
    let (mut out, mut count) = serialize_bezier(exterior, true);
    proof {
        let first = rings.subrange(0, 1);
        assert(first.drop_last() =~= Seq::<Seq<BezierSegment>>::empty());
        assert(first.last() == exterior@);
        assert(bezier_rings_count(first.drop_last()) == 0);
        assert(bezier_rings_text(first.drop_last()) == Seq::<u8>::empty());
        assert(bezier_rings_text(first) =~= bezier_text(exterior@, true));
        lemma_bezier_rings_count_prefix(rings, 1);
    }
    let mut i: usize = 0;
    while i < holes.len()
        invariant
            rings == bezier_area_rings(exterior@, holes@),
            rings.len() == holes.len() + 1,
            forall|k: int|
                0 <= k < holes.len() ==> 1 <= #[trigger] holes[k].len() <= usize::MAX / 4,
            bezier_rings_count(rings) <= usize::MAX,
            i <= holes.len(),
            out@ == bezier_rings_text(rings.subrange(0, i + 1)),
            count == bezier_rings_count(rings.subrange(0, i + 1)),
        decreases holes.len() - i,
    {
        let (bytes, n) = serialize_bezier(&holes[i], true);
        proof {
            let pre = rings.subrange(0, i + 2);
            assert(pre.drop_last() =~= rings.subrange(0, i + 1));
            assert(pre.last() == holes[i as int]@);
            lemma_bezier_rings_count_prefix(rings, i + 2);
        }
        let mut bytes = bytes;
        out.append(&mut bytes);
        count = count + n;
        i = i + 1;
    }
    assert(rings.subrange(0, holes.len() + 1) =~= rings);
    (out, count)
}

} // verus!
