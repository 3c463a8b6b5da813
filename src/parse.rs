//! Reading a `<coords>` run back into vertices.
//!
//! A run is accepted exactly when it is the run that the serializer writes
//! for some vertices: numbers in plain decimal, without a plus sign or a
//! superfluous zero, single spaces between the numbers of a vertex, and a
//! `;` after each vertex. Flags run from 1 to 255; a vertex without flags
//! writes none.
use vstd::prelude::*;

use crate::coords::{
    bezier_text, coord_text, plain_vertices, polyline_text, segment_head, segment_heads,
    vertex_text, BezierSegment, Handles, MapCoord, CLOSE_POINT_FLAG, CURVE_START_FLAG,
};
use crate::decimal::{
    canonical_digits, decimal, digits_of, digits_value, is_digit, lemma_canonical_digits,
    lemma_digits_of,
};
use crate::EditorError;

verus! {

/// One vertex of a run: its coordinate and its flags (0 for none).
#[derive(Debug, Clone, Copy, PartialEq, Eq, Structural)]
pub struct Vertex {
    pub coord: MapCoord,
    pub flags: u8,
}

/// The run of a sequence of vertices.
pub open spec fn vertices_text(vs: Seq<Vertex>) -> Seq<u8>
    decreases vs.len(),
{
    if vs.len() == 0 {
        seq![]
    } else {
        vertices_text(vs.drop_last()) + vertex_text(vs.last().coord, vs.last().flags as nat)
    }
}

/// `t` stands in `b` from position `p` on.
pub open spec fn stands_at(b: Seq<u8>, p: int, t: Seq<u8>) -> bool {
    0 <= p && p + t.len() <= b.len() && b.subrange(p, p + t.len()) == t
}

/// No digit follows position `q` of `b`.
pub open spec fn ends_number(b: Seq<u8>, q: int) -> bool {
    q == b.len() || (0 <= q < b.len() && !is_digit(b[q]))
}

/// A value, or the cap when it is larger.
spec fn capped(v: nat) -> nat {
    if v > 100000000000 {
        100000000000
    } else {
        v
    }
}

/// Reads a number in plain decimal at `p`, from `lo` to `hi`; a minus sign
/// only where `lo` is negative.
pub fn parse_number(b: &[u8], p: usize, lo: i64, hi: i64) -> (r: Option<(i64, usize)>)
    requires
        p <= b@.len(),
        -2147483648 <= lo <= hi <= 2147483647,
    ensures
        r matches Some(res) ==> {
            &&& lo <= res.0 <= hi
            &&& stands_at(b@, p as int, decimal(res.0 as int))
            &&& res.1 == p + decimal(res.0 as int).len()
            &&& ends_number(b@, res.1 as int)
        },
        forall|v: int|
            lo <= v <= hi && stands_at(b@, p as int, #[trigger] decimal(v)) && ends_number(
                b@,
                p + decimal(v).len(),
            ) ==> r == Some((v as i64, (p + decimal(v).len()) as usize)),
{
    let n = b.len();
    if p >= n {
        proof {
            assert forall|v: int|
                lo <= v <= hi && stands_at(b@, p as int, #[trigger] decimal(v)) implies false by {
                lemma_decimal_nonempty(v);
            }
        }
        return None;
    }
    let neg = b[p] == 45u8;
    let s: usize = if neg {
        p + 1
    } else {
        p
    };
    let mut j: usize = s;
    let mut acc: u64 = 0;
    while j < n && b[j] >= 48u8 && b[j] <= 57u8
        invariant
            s <= j <= n,
            n == b@.len(),
            forall|t: int| s <= t < j ==> is_digit(#[trigger] b@[t]),
            acc == capped(digits_value(b@.subrange(s as int, j as int))),
        decreases n - j,
    {
        proof {
            let d = b@.subrange(s as int, j + 1);
            assert(d.drop_last() =~= b@.subrange(s as int, j as int));
            assert(d.last() == b@[j as int]);
        }
        let next: u64 = acc * 10 + (b[j] - 48u8) as u64;
        acc = if next > 100000000000 {
            100000000000
        } else {
            next
        };
        j = j + 1;
    }
    let ghost d = b@.subrange(s as int, j as int);
    let ok = (!neg || lo < 0) && j > s && (j - s == 1 || b[s] != 48u8) && acc <= 2147483648 && !(
    neg && acc == 0);
    let v: i64 = if !ok {
        0
    } else if neg {
        0 - (acc as i64)
    } else {
        acc as i64
    };
    let ok = ok && lo <= v && v <= hi;
    proof {
        if ok {
            assert(canonical_digits(d));
            lemma_canonical_digits(d);
            if neg {
                assert(decimal(v as int) =~= seq![45u8] + d);
                assert(b@.subrange(p as int, j as int) =~= seq![45u8] + d);
            } else {
                assert(b@.subrange(p as int, j as int) =~= d);
            }
        }
        assert forall|w: int|
            lo <= w <= hi && stands_at(b@, p as int, #[trigger] decimal(w)) && ends_number(
                b@,
                p + decimal(w).len(),
            ) implies ok && v == w && j == p + decimal(w).len() by {
            let m: nat = if w < 0 {
                (-w) as nat
            } else {
                w as nat
            };
            let dw = digits_of(m);
            lemma_digits_of(m);
            let st: int = if w < 0 {
                p + 1
            } else {
                p as int
            };
            assert(decimal(w) == if w < 0 {
                seq![45u8] + dw
            } else {
                dw
            });
            assert(b@.subrange(p as int, p + decimal(w).len())[0] == b@[p as int]);
            if w < 0 {
                assert(b@[p as int] == 45u8);
            } else {
                assert(b@[p as int] == dw[0]);
                assert(is_digit(dw[0]));
            }
            assert(neg == (w < 0));
            assert(st == s);
            assert forall|t: int| s <= t < s + dw.len() implies b@[t] == dw[t - s] by {
                assert(b@.subrange(p as int, p + decimal(w).len())[t - p] == b@[t]);
            }
            if j < s + dw.len() {
                assert(is_digit(dw[j - s]));
            }
            if j > s + dw.len() {
                assert(is_digit(b@[s + dw.len()]));
            }
            assert(j == s + dw.len());
            assert(d =~= dw);
            assert(acc == m);
        }
    }
    if ok {
        Some((v, j))
    } else {
        None
    }
}

/// The text of a number is never empty.
proof fn lemma_decimal_nonempty(v: int)
    ensures
        decimal(v).len() >= 1,
{
    if v < 0 {
        lemma_digits_of((-v) as nat);
    } else {
        lemma_digits_of(v as nat);
    }
}

/// A text stands at `p` followed by another exactly when their
/// concatenation stands there.
pub proof fn lemma_stands_concat(b: Seq<u8>, p: int, a: Seq<u8>, c: Seq<u8>)
    ensures
        stands_at(b, p, a + c) <==> (stands_at(b, p, a) && stands_at(b, p + a.len(), c)),
{
    if stands_at(b, p, a + c) {
        let w = b.subrange(p, p + a.len() + c.len());
        assert forall|i: int| 0 <= i < a.len() implies b.subrange(p, p + a.len())[i] == a[i] by {
            assert(w[i] == b[p + i]);
            assert((a + c)[i] == a[i]);
        }
        assert(b.subrange(p, p + a.len()) =~= a);
        assert forall|i: int| 0 <= i < c.len() implies b.subrange(
            p + a.len(),
            p + a.len() + c.len(),
        )[i] == c[i] by {
            assert(w[a.len() + i] == b[p + a.len() + i]);
            assert((a + c)[a.len() + i] == c[i]);
        }
        assert(b.subrange(p + a.len(), p + a.len() + c.len()) =~= c);
    }
    if stands_at(b, p, a) && stands_at(b, p + a.len(), c) {
        assert(b.subrange(p, p + a.len() + c.len()) =~= a + c);
    }
}

/// One byte stands at `q`.
pub proof fn lemma_stands_byte(b: Seq<u8>, q: int, c: u8)
    ensures
        stands_at(b, q, seq![c]) <==> (0 <= q < b.len() && b[q] == c),
{
    if 0 <= q < b.len() && b[q] == c {
        assert(b.subrange(q, q + 1) =~= seq![c]);
    }
    if stands_at(b, q, seq![c]) {
        assert(b.subrange(q, q + 1)[0] == b[q]);
    }
}

/// The pieces of a vertex token that stands at `p`: each number stands
/// where it should, with no digit after it, and the separators between.
proof fn lemma_vertex_pieces(b: Seq<u8>, p: int, v: Vertex)
    requires
        stands_at(b, p, vertex_text(v.coord, v.flags as nat)),
    ensures
        ({
            let dx = decimal(v.coord.x as int);
            let dy = decimal(v.coord.y as int);
            let q1 = p + dx.len();
            let q2 = q1 + 1 + dy.len();
            let df = decimal(v.flags as int);
            let q3 = q2 + 1 + df.len();
            &&& stands_at(b, p, dx) && ends_number(b, q1)
            &&& q1 < b.len() && b[q1] == 32u8
            &&& stands_at(b, q1 + 1, dy) && ends_number(b, q2)
            &&& q2 < b.len()
            &&& v.flags == 0 ==> b[q2] == 59u8 && vertex_text(v.coord, v.flags as nat).len() == q2
                + 1 - p
            &&& v.flags != 0 ==> {
                &&& b[q2] == 32u8
                &&& stands_at(b, q2 + 1, df) && ends_number(b, q3)
                &&& q3 < b.len() && b[q3] == 59u8
                &&& vertex_text(v.coord, v.flags as nat).len() == q3 + 1 - p
            }
        }),
{
    let dx = decimal(v.coord.x as int);
    let dy = decimal(v.coord.y as int);
    let q1 = p + dx.len();
    let q2 = q1 + 1 + dy.len();
    let t = vertex_text(v.coord, v.flags as nat);
    if v.flags == 0 {
        assert(t == dx + seq![32u8] + dy + seq![59u8]);
        lemma_stands_concat(b, p, dx + seq![32u8] + dy, seq![59u8]);
    } else {
        assert(t == dx + seq![32u8] + dy + seq![32u8] + decimal(v.flags as int) + seq![59u8]);
        lemma_stands_concat(
            b,
            p,
            dx + seq![32u8] + dy + seq![32u8] + decimal(v.flags as int),
            seq![59u8],
        );
        lemma_stands_concat(b, p, dx + seq![32u8] + dy + seq![32u8], decimal(v.flags as int));
        lemma_stands_concat(b, p, dx + seq![32u8] + dy, seq![32u8]);
    }
    lemma_stands_concat(b, p, dx + seq![32u8], dy);
    lemma_stands_concat(b, p, dx, seq![32u8]);
    lemma_stands_byte(b, q1, 32u8);
    lemma_stands_byte(b, q2, if v.flags == 0 {
        59u8
    } else {
        32u8
    });
    if v.flags != 0 {
        let q3 = q2 + 1 + decimal(v.flags as int).len();
        lemma_stands_byte(b, q3, 59u8);
    }
}

/// Reads one vertex token at `p`.
fn parse_vertex(b: &[u8], p: usize) -> (r: Option<(Vertex, usize)>)
    requires
        p <= b@.len(),
    ensures
        r matches Some(res) ==> {
            &&& stands_at(b@, p as int, vertex_text(res.0.coord, res.0.flags as nat))
            &&& res.1 == p + vertex_text(res.0.coord, res.0.flags as nat).len()
        },
        forall|v: Vertex|
            stands_at(b@, p as int, #[trigger] vertex_text(v.coord, v.flags as nat)) ==> r == Some(
                (v, (p + vertex_text(v.coord, v.flags as nat).len()) as usize),
            ),
{
    let n = b.len();
    let mut result: Option<(Vertex, usize)> = None;
    let rx = parse_number(b, p, -2147483648, 2147483647);
    if let Some((x, q1)) = rx {
        if q1 < n && b[q1] == 32u8 {
            let ry = parse_number(b, q1 + 1, -2147483648, 2147483647);
            if let Some((y, q2)) = ry {
                let c = MapCoord { x: x as i32, y: y as i32 };
                if q2 < n && b[q2] == 59u8 {
                    result = Some((Vertex { coord: c, flags: 0 }, q2 + 1));
                    proof {
                        lemma_stands_byte(b@, q1 as int, 32u8);
                        lemma_stands_byte(b@, q2 as int, 59u8);
                        lemma_stands_concat(b@, p as int, decimal(x as int), seq![32u8]);
                        lemma_stands_concat(
                            b@,
                            p as int,
                            decimal(x as int) + seq![32u8],
                            decimal(y as int),
                        );
                        lemma_stands_concat(b@, p as int, coord_text(c), seq![59u8]);
                    }
                } else if q2 < n && b[q2] == 32u8 {
                    let rf = parse_number(b, q2 + 1, 1, 255);
                    if let Some((f, q3)) = rf {
                        if q3 < n && b[q3] == 59u8 {
                            result = Some((Vertex { coord: c, flags: f as u8 }, q3 + 1));
                            proof {
                                lemma_stands_byte(b@, q1 as int, 32u8);
                                lemma_stands_byte(b@, q2 as int, 32u8);
                                lemma_stands_byte(b@, q3 as int, 59u8);
                                lemma_stands_concat(b@, p as int, decimal(x as int), seq![32u8]);
                                lemma_stands_concat(
                                    b@,
                                    p as int,
                                    decimal(x as int) + seq![32u8],
                                    decimal(y as int),
                                );
                                lemma_stands_concat(b@, p as int, coord_text(c), seq![32u8]);
                                lemma_stands_concat(
                                    b@,
                                    p as int,
                                    coord_text(c) + seq![32u8],
                                    decimal(f as int),
                                );
                                lemma_stands_concat(
                                    b@,
                                    p as int,
                                    coord_text(c) + seq![32u8] + decimal(f as int),
                                    seq![59u8],
                                );
                            }
                        }
                    }
                }
            }
        }
    }
    proof {
        assert forall|v: Vertex|
            stands_at(b@, p as int, #[trigger] vertex_text(v.coord, v.flags as nat)) implies result
            == Some((v, (p + vertex_text(v.coord, v.flags as nat).len()) as usize)) by {
            lemma_vertex_pieces(b@, p as int, v);
        }
    }
    result
}

/// The run of a prefix of vertices, then the run of the rest, is the run of
/// them all.
proof fn lemma_vertices_split(vs: Seq<Vertex>, k: int)
    requires
        0 <= k <= vs.len(),
    ensures
        vertices_text(vs) == vertices_text(vs.subrange(0, k)) + vertices_text(
            vs.subrange(k, vs.len() as int),
        ),
    decreases vs.len(),
{
    if k == vs.len() {
        assert(vs.subrange(0, k) =~= vs);
        assert(vs.subrange(k, vs.len() as int) =~= Seq::<Vertex>::empty());
        assert(vertices_text(Seq::<Vertex>::empty()) =~= Seq::<u8>::empty());
    } else {
        lemma_vertices_split(vs.drop_last(), k);
        assert(vs.drop_last().subrange(0, k) =~= vs.subrange(0, k));
        let rest = vs.subrange(k, vs.len() as int);
        assert(rest.drop_last() =~= vs.drop_last().subrange(k, vs.len() - 1));
        assert(rest.last() == vs.last());
    }
}

/// Every vertex token ends with `;`, so it is never empty.
proof fn lemma_vertex_text_nonempty(c: MapCoord, f: nat)
    ensures
        vertex_text(c, f).len() >= 1,
{
}

/// Where the run of some vertices is `b`, and `out` is a proper prefix of
/// them whose run ends at `p`, the next vertex's token stands at `p`; and
/// when the run of `out` is all of `b`, `out` is no proper prefix.
proof fn lemma_next_vertex(b: Seq<u8>, out: Seq<Vertex>, vs: Seq<Vertex>, p: int)
    requires
        vertices_text(vs) == b,
        out.len() <= vs.len(),
        out == vs.subrange(0, out.len() as int),
        0 <= p <= b.len(),
        b.subrange(0, p) == vertices_text(out),
        out.len() < vs.len() || p < b.len(),
    ensures
        out.len() < vs.len(),
        p < b.len(),
        stands_at(b, p, vertex_text(vs[out.len() as int].coord, vs[out.len() as int].flags as nat)),
{
    let k = out.len() as int;
    if k == vs.len() {
        assert(vs.subrange(0, k) =~= vs);
    }
    lemma_vertices_split(vs, k);
    let rest = vs.subrange(k, vs.len() as int);
    lemma_vertices_split(rest, 1);
    assert(rest.subrange(0, 1).drop_last() =~= Seq::<Vertex>::empty());
    assert(rest.subrange(0, 1).last() == vs[k]);
    let t = vertex_text(vs[k].coord, vs[k].flags as nat);
    assert(vertices_text(Seq::<Vertex>::empty()) == Seq::<u8>::empty());
    assert(vertices_text(rest.subrange(0, 1)) =~= t);
    lemma_vertex_text_nonempty(vs[k].coord, vs[k].flags as nat);
    let tail = vertices_text(rest.subrange(1, rest.len() as int));
    assert(b == vertices_text(out) + t + tail);
    assert(b.subrange(p, p + t.len()) =~= t);
}

/// Reads a whole `<coords>` run into its vertices. It succeeds exactly on
/// the runs that serializing some vertices gives, and gives those vertices
/// back.
pub fn parse_coords(b: &[u8]) -> (r: Result<Vec<Vertex>, EditorError>)
    ensures
        r matches Ok(vs) ==> vertices_text(vs@) == b@,
        r matches Err(e) ==> e is InvalidCoordinate,
        forall|vs: Seq<Vertex>| #[trigger] vertices_text(vs) == b@ ==> (r matches Ok(out) && out@ == vs),
{
    let n = b.len();
    let mut out: Vec<Vertex> = Vec::new();
    let mut p: usize = 0;
    assert(b@.subrange(0, 0) =~= vertices_text(out@));
    while p < n
        invariant
            n == b@.len(),
            p <= n,
            b@.subrange(0, p as int) == vertices_text(out@),
            forall|vs: Seq<Vertex>| #[trigger]
                vertices_text(vs) == b@ ==> out@.len() <= vs.len() && out@ == vs.subrange(
                    0,
                    out@.len() as int,
                ),
        decreases n - p,
    {
        let step = parse_vertex(b, p);
        proof {
            assert forall|vs: Seq<Vertex>| #[trigger]
                vertices_text(vs) == b@ implies out@.len() < vs.len() && stands_at(
                b@,
                p as int,
                vertex_text(vs[out@.len() as int].coord, vs[out@.len() as int].flags as nat),
            ) by {
                lemma_next_vertex(b@, out@, vs, p as int);
            }
        }
        match step {
            Some((v, q)) => {
                proof {
                    lemma_vertex_text_nonempty(v.coord, v.flags as nat);
                    let pre = out@.push(v);
                    assert(pre.drop_last() =~= out@);
                    assert(b@.subrange(0, q as int) =~= b@.subrange(0, p as int) + b@.subrange(
                        p as int,
                        q as int,
                    ));
                    assert forall|vs: Seq<Vertex>| #[trigger]
                        vertices_text(vs) == b@ implies pre.len() <= vs.len() && pre
                        == vs.subrange(0, pre.len() as int) by {
                        assert(vs.subrange(0, pre.len() as int) =~= vs.subrange(
                            0,
                            out@.len() as int,
                        ).push(vs[out@.len() as int]));
                    }
                }
                out.push(v);
                p = q;
            },
            None => {
                return Err(EditorError::InvalidCoordinate("Malformed coordinate run".to_owned()));
            },
        }
    }
    proof {
        assert(b@.subrange(0, n as int) =~= b@);
        assert forall|vs: Seq<Vertex>| #[trigger] vertices_text(vs) == b@ implies out@ == vs by {
            let k = out@.len() as int;
            if k < vs.len() {
                lemma_next_vertex(b@, out@, vs, n as int);
            }
            assert(vs.subrange(0, k) =~= vs);
        }
    }
    Ok(out)
}

/// Plain vertices of coordinates, without flags.
pub open spec fn plain_vertex_seq(cs: Seq<MapCoord>) -> Seq<Vertex> {
    cs.map_values(|c: MapCoord| Vertex { coord: c, flags: 0 })
}

/// The vertices of a polyline: all plain, but the final one of a closed
/// ring, which carries the closing flag.
pub open spec fn polyline_vertices(cs: Seq<MapCoord>, closed: bool) -> Seq<Vertex> {
    plain_vertex_seq(cs.drop_last()).push(
        Vertex { coord: cs.last(), flags: if closed {
            CLOSE_POINT_FLAG
        } else {
            0
        } },
    )
}

/// The run of a polyline is the run of its vertices, so reading it back
/// with `parse_coords` gives the coordinates in order, with flag 18 on the
/// final one exactly when the ring is closed.
pub proof fn lemma_polyline_round_trip(cs: Seq<MapCoord>, closed: bool)
    requires
        cs.len() >= 1,
    ensures
        vertices_text(polyline_vertices(cs, closed)) == polyline_text(cs, closed),
        polyline_vertices(cs, closed).len() == cs.len(),
        forall|i: int|
            0 <= i < cs.len() - 1 ==> #[trigger] polyline_vertices(cs, closed)[i].flags == 0,
        polyline_vertices(cs, closed).last().flags == if closed {
            18u8
        } else {
            0u8
        },
{
    lemma_plain_vertices(cs.drop_last());
    let vs = polyline_vertices(cs, closed);
    assert(vs.drop_last() =~= plain_vertex_seq(cs.drop_last()));
}

/// Plain coordinates and their vertices without flags have the same run.
proof fn lemma_plain_vertices(cs: Seq<MapCoord>)
    ensures
        vertices_text(plain_vertex_seq(cs)) == plain_vertices(cs),
    decreases cs.len(),
{
    if cs.len() > 0 {
        lemma_plain_vertices(cs.drop_last());
        assert(plain_vertex_seq(cs).drop_last() =~= plain_vertex_seq(cs.drop_last()));
    } else {
        assert(plain_vertex_seq(cs) =~= Seq::<Vertex>::empty());
    }
}

/// The vertices a segment contributes before its end.
pub open spec fn head_vertices(s: BezierSegment) -> Seq<Vertex> {
    match s.handles {
        Some(h) => seq![
            Vertex { coord: s.start, flags: CURVE_START_FLAG },
            Vertex { coord: h.first, flags: 0 },
            Vertex { coord: h.second, flags: 0 },
        ],
        None => seq![Vertex { coord: s.start, flags: 0 }],
    }
}

/// The head vertices of a sequence of segments, one after the other.
pub open spec fn heads_vertex_seq(ss: Seq<BezierSegment>) -> Seq<Vertex>
    decreases ss.len(),
{
    if ss.len() == 0 {
        seq![]
    } else {
        heads_vertex_seq(ss.drop_last()) + head_vertices(ss.last())
    }
}

/// The vertices of a Bezier run: the heads of all segments, then the end
/// of the last one, flagged as closing when the ring is closed.
pub open spec fn bezier_vertices(ss: Seq<BezierSegment>, closed: bool) -> Seq<Vertex> {
    heads_vertex_seq(ss).push(
        Vertex { coord: ss.last().end, flags: if closed {
            CLOSE_POINT_FLAG
        } else {
            0
        } },
    )
}

/// Each segment ends where the next one starts.
pub open spec fn chained(ss: Seq<BezierSegment>) -> bool {
    forall|i: int| 0 <= i < ss.len() - 1 ==> #[trigger] ss[i].end == ss[i + 1].start
}

/// Whether `ss`, closed or not, is a Bezier sequence whose run has the
/// vertices `vs`.
pub open spec fn decodes_to(vs: Seq<Vertex>, ss: Seq<BezierSegment>, closed: bool) -> bool {
    ss.len() >= 1 && chained(ss) && bezier_vertices(ss, closed) == vs
}

/// The run of a Bezier sequence is the run of its vertices, so reading it
/// back with `parse_coords` and `decode_bezier` gives the sequence back.
pub proof fn lemma_bezier_round_trip(ss: Seq<BezierSegment>, closed: bool)
    requires
        ss.len() >= 1,
    ensures
        vertices_text(bezier_vertices(ss, closed)) == bezier_text(ss, closed),
        forall|i: int|
            0 <= i < bezier_vertices(ss, closed).len() - 1 ==> #[trigger] bezier_vertices(
                ss,
                closed,
            )[i].flags <= 1,
        bezier_vertices(ss, closed).last().flags == if closed {
            18u8
        } else {
            0u8
        },
{
    lemma_heads_flags(ss);
    lemma_heads_text(ss);
    let vs = bezier_vertices(ss, closed);
    assert(vs.drop_last() =~= heads_vertex_seq(ss));
}

/// Head vertices carry no flag but the curve start.
proof fn lemma_heads_flags(ss: Seq<BezierSegment>)
    ensures
        forall|i: int| 0 <= i < heads_vertex_seq(ss).len() ==> #[trigger] heads_vertex_seq(ss)[i].flags <= 1,
    decreases ss.len(),
{
    if ss.len() > 0 {
        lemma_heads_flags(ss.drop_last());
        let pre = heads_vertex_seq(ss.drop_last());
        let h = head_vertices(ss.last());
        assert forall|i: int| 0 <= i < heads_vertex_seq(ss).len() implies #[trigger] heads_vertex_seq(ss)[i].flags <= 1 by {
            if i >= pre.len() {
                assert(heads_vertex_seq(ss)[i] == h[i - pre.len()]);
            } else {
                assert(heads_vertex_seq(ss)[i] == pre[i]);
            }
        }
    }
}

/// Head vertices and segment heads have the same run.
proof fn lemma_heads_text(ss: Seq<BezierSegment>)
    ensures
        vertices_text(heads_vertex_seq(ss)) == segment_heads(ss),
    decreases ss.len(),
{
    if ss.len() > 0 {
        lemma_heads_text(ss.drop_last());
        let pre = heads_vertex_seq(ss.drop_last());
        let h = head_vertices(ss.last());
        lemma_vertices_split(pre + h, pre.len() as int);
        assert((pre + h).subrange(0, pre.len() as int) =~= pre);
        assert((pre + h).subrange(pre.len() as int, (pre + h).len() as int) =~= h);
        let s = ss.last();
        assert(vertices_text(Seq::<Vertex>::empty()) == Seq::<u8>::empty());
        if s.handles is Some {
            let h1 = seq![h[0]];
            let h2 = seq![h[0], h[1]];
            assert(h1.drop_last() =~= Seq::<Vertex>::empty());
            assert(h2.drop_last() =~= h1);
            assert(h.drop_last() =~= h2);
            assert(vertices_text(h1) =~= vertex_text(h[0].coord, h[0].flags as nat));
            assert(vertices_text(h2) =~= vertex_text(h[0].coord, h[0].flags as nat) + vertex_text(
                h[1].coord,
                h[1].flags as nat,
            ));
            assert(vertices_text(h) =~= segment_head(s));
        } else {
            assert(h.drop_last() =~= Seq::<Vertex>::empty());
            assert(vertices_text(h) =~= segment_head(s));
        }
    } else {
        assert(heads_vertex_seq(ss) =~= Seq::<Vertex>::empty());
    }
}

/// The head vertices of a prefix of segments, then those of the rest, are
/// those of them all.
proof fn lemma_heads_split(ss: Seq<BezierSegment>, k: int)
    requires
        0 <= k <= ss.len(),
    ensures
        heads_vertex_seq(ss) == heads_vertex_seq(ss.subrange(0, k)) + heads_vertex_seq(
            ss.subrange(k, ss.len() as int),
        ),
    decreases ss.len(),
{
    if k == ss.len() {
        assert(ss.subrange(0, k) =~= ss);
        assert(ss.subrange(k, ss.len() as int) =~= Seq::<BezierSegment>::empty());
        assert(heads_vertex_seq(ss) + heads_vertex_seq(Seq::<BezierSegment>::empty())
            =~= heads_vertex_seq(ss));
    } else {
        lemma_heads_split(ss.drop_last(), k);
        assert(ss.drop_last().subrange(0, k) =~= ss.subrange(0, k));
        let rest = ss.subrange(k, ss.len() as int);
        assert(rest.drop_last() =~= ss.drop_last().subrange(k, ss.len() - 1));
        assert(rest.last() == ss.last());
    }
}

/// Where `ss` decodes to `vs` and its first `k` segments give the first
/// `i` vertices, segment `k`, if any, gives the vertices from `i` on.
proof fn lemma_next_segment(vs: Seq<Vertex>, ss: Seq<BezierSegment>, closed: bool, k: int, i: int)
    requires
        decodes_to(vs, ss, closed),
        0 <= k <= ss.len(),
        i == heads_vertex_seq(ss.subrange(0, k)).len(),
    ensures
        k == ss.len() <==> i == vs.len() - 1,
        k < ss.len() ==> {
            let h = head_vertices(ss[k]);
            &&& i + h.len() <= vs.len() - 1
            &&& vs.subrange(i, i + h.len()) == h
            &&& (k + 1 < ss.len() ==> vs[i + h.len()].coord == ss[k].end)
            &&& (k + 1 == ss.len() ==> i + h.len() == vs.len() - 1 && vs[i + h.len()].coord
                == ss[k].end)
        },
{
    lemma_heads_split(ss, k);
    let rest = ss.subrange(k, ss.len() as int);
    let heads = heads_vertex_seq(ss);
    assert(vs.drop_last() =~= heads);
    if k < ss.len() {
        lemma_heads_split(rest, 1);
        assert(rest.subrange(0, 1).drop_last() =~= Seq::<BezierSegment>::empty());
        assert(rest.subrange(0, 1).last() == ss[k]);
        let h = head_vertices(ss[k]);
        assert(heads_vertex_seq(Seq::<BezierSegment>::empty()) == Seq::<Vertex>::empty());
        assert(heads_vertex_seq(rest.subrange(0, 1)) =~= h);
        let later = rest.subrange(1, rest.len() as int);
        assert(heads == heads_vertex_seq(ss.subrange(0, k)) + h + heads_vertex_seq(later));
        assert(vs.subrange(i, i + h.len()) =~= h);
        if k + 1 < ss.len() {
            assert(later.len() >= 1);
            assert(later[0] == ss[k + 1]);
            lemma_heads_split(later, 1);
            assert(later.subrange(0, 1).drop_last() =~= Seq::<BezierSegment>::empty());
            assert(later.subrange(0, 1).last() == later[0]);
            let h2 = head_vertices(later[0]);
            assert(heads_vertex_seq(later.subrange(0, 1)) =~= h2);
            assert(heads_vertex_seq(later) == h2 + heads_vertex_seq(later.subrange(1, later.len() as int)));
            assert(heads_vertex_seq(later)[0] == h2[0]);
            assert(vs[i + h.len()] == heads[i + h.len()]);
            assert(ss[k].end == ss[k + 1].start);
        } else {
            assert(later =~= Seq::<BezierSegment>::empty());
            assert(ss.last() == ss[k]);
        }
    } else {
        assert(rest =~= Seq::<BezierSegment>::empty());
        assert(ss.subrange(0, k) =~= ss);
    }
}

/// Reads the vertices of a Bezier run back into its segments, and whether
/// the ring is closed. It succeeds exactly on the vertices of some chained
/// Bezier sequence, and gives that sequence back.
pub fn decode_bezier(vs: &Vec<Vertex>) -> (r: Option<(Vec<BezierSegment>, bool)>)
    ensures
        r matches Some(res) ==> decodes_to(vs@, res.0@, res.1),
        forall|ss: Seq<BezierSegment>, closed: bool|
            #[trigger] decodes_to(vs@, ss, closed) ==> (r matches Some(res) && res.0@ == ss && res.1
                == closed),
{
    let n = vs.len();
    if n < 2 {
        proof {
            assert forall|ss: Seq<BezierSegment>, closed: bool|
                #[trigger] decodes_to(vs@, ss, closed) implies false by {
                lemma_next_segment(vs@, ss, closed, 0, 0);
                assert(ss.subrange(0, 0) =~= Seq::<BezierSegment>::empty());
            }
        }
        return None;
    }
    let mut segs: Vec<BezierSegment> = Vec::new();
    let mut i: usize = 0;
    let mut ok = true;
    proof {
        assert(vs@.subrange(0, 0) =~= heads_vertex_seq(segs@));
        assert forall|ss: Seq<BezierSegment>, closed: bool|
            #[trigger] decodes_to(vs@, ss, closed) implies segs@ == ss.subrange(0, 0) by {
            assert(ss.subrange(0, 0) =~= Seq::<BezierSegment>::empty());
        }
    }
    while i < n - 1 && ok
        invariant
            n == vs@.len(),
            n >= 2,
            i <= n - 1,
            ok ==> vs@.subrange(0, i as int) == heads_vertex_seq(segs@),
            ok ==> chained(segs@),
            ok && segs@.len() > 0 ==> segs@.last().end == vs@[i as int].coord,
            ok && i > 0 ==> segs@.len() > 0,
            forall|ss: Seq<BezierSegment>, closed: bool|
                #[trigger] decodes_to(vs@, ss, closed) ==> ok && segs@.len() <= ss.len() && segs@
                    == ss.subrange(0, segs@.len() as int),
        decreases n - i + (if ok {
            1int
        } else {
            0int
        }),
    {
        let ghost k = segs@.len() as int;
        let ghost old_segs = segs@;
        let ghost old_i = i as int;
        proof {
            assert forall|ss: Seq<BezierSegment>, closed: bool|
                #[trigger] decodes_to(vs@, ss, closed) implies k < ss.len() && old_i
                + head_vertices(ss[k]).len() <= n - 1 && vs@.subrange(
                old_i,
                old_i + head_vertices(ss[k]).len(),
            ) == head_vertices(ss[k]) && vs@[old_i + head_vertices(ss[k]).len()].coord
                == ss[k].end by {
                lemma_next_segment(vs@, ss, closed, k, old_i);
            }
        }
        let v = vs[i];
        if v.flags == 1 && n - 1 - i >= 3 && vs[i + 1].flags == 0 && vs[i + 2].flags == 0 {
            let seg = BezierSegment {
                start: v.coord,
                handles: Some(Handles { first: vs[i + 1].coord, second: vs[i + 2].coord }),
                end: vs[i + 3].coord,
            };
            segs.push(seg);
            proof {
                assert(segs@.drop_last() =~= old_segs);
                assert(head_vertices(seg) =~= vs@.subrange(i as int, i + 3));
                assert(vs@.subrange(0, i + 3) =~= vs@.subrange(0, i as int) + vs@.subrange(
                    i as int,
                    i + 3,
                ));
            }
            i = i + 3;
        } else if v.flags == 0 {
            let seg = BezierSegment { start: v.coord, handles: None, end: vs[i + 1].coord };
            segs.push(seg);
            proof {
                assert(segs@.drop_last() =~= old_segs);
                assert(head_vertices(seg) =~= vs@.subrange(i as int, i + 1));
                assert(vs@.subrange(0, i + 1) =~= vs@.subrange(0, i as int) + vs@.subrange(
                    i as int,
                    i + 1,
                ));
            }
            i = i + 1;
        } else {
            ok = false;
        }
        proof {
            assert forall|ss: Seq<BezierSegment>, closed: bool|
                #[trigger] decodes_to(vs@, ss, closed) implies ok && segs@.len() <= ss.len()
                && segs@ == ss.subrange(0, segs@.len() as int) by {
                let h = head_vertices(ss[k]);
                assert(vs@.subrange(old_i, old_i + h.len())[0] == vs@[old_i]);
                assert(h[0] == vs@[old_i]);
                if ss[k].handles is Some {
                    assert(vs@.subrange(old_i, old_i + h.len())[1] == vs@[old_i + 1]);
                    assert(vs@.subrange(old_i, old_i + h.len())[2] == vs@[old_i + 2]);
                    assert(h[1] == vs@[old_i + 1]);
                    assert(h[2] == vs@[old_i + 2]);
                }
                assert(segs@.last() == ss[k]);
                assert(ss.subrange(0, k + 1) =~= ss.subrange(0, k).push(ss[k]));
                assert(segs@ =~= old_segs.push(ss[k]));
            }
        }
    }
    if !ok {
        return None;
    }
    let last = vs[n - 1];
    if last.flags != 0 && last.flags != 18 {
        proof {
            assert forall|ss: Seq<BezierSegment>, closed: bool|
                #[trigger] decodes_to(vs@, ss, closed) implies false by {
                assert(bezier_vertices(ss, closed).last() == vs@[n - 1]);
            }
        }
        return None;
    }
    let closed = last.flags == 18;
    proof {
        assert(vs@ =~= vs@.subrange(0, n - 1).push(vs@[n - 1]));
        assert(bezier_vertices(segs@, closed) =~= vs@);
        assert forall|ss: Seq<BezierSegment>, c: bool|
            #[trigger] decodes_to(vs@, ss, c) implies segs@ == ss && c == closed by {
            let k = segs@.len() as int;
            lemma_next_segment(vs@, ss, c, k, (n - 1) as int);
            assert(ss.subrange(0, k) =~= ss);
            assert(bezier_vertices(ss, c).last() == vs@[n - 1]);
        }
    }
    Some((segs, closed))
}

} // verus!
