use omap::coords::{
    serialize_area_bezier, serialize_area_polyline, serialize_bezier, serialize_polyline,
    BezierSegment, Handles,
};
use omap::decimal::{push_signed, push_unsigned};
use omap::parse::{decode_bezier, parse_coords, Vertex};
use omap::{MapCoord, OmapError};

fn mc(x: i32, y: i32) -> MapCoord {
    MapCoord { x, y }
}

fn text(b: Vec<u8>) -> String {
    String::from_utf8(b).unwrap()
}

#[test]
fn decimal_text_of_signed_and_unsigned_values() {
    let mut out = Vec::new();
    push_signed(&mut out, -1234);
    out.push(b' ');
    push_signed(&mut out, 0);
    out.push(b' ');
    push_signed(&mut out, i64::MIN);
    out.push(b' ');
    push_unsigned(&mut out, u64::MAX);
    assert_eq!(
        text(out),
        "-1234 0 -9223372036854775808 18446744073709551615"
    );
}

#[test]
fn overflow_boundary_is_exact() {
    let max = i32::MAX as i64;
    assert_eq!(MapCoord::from_map_units(max, -max), Ok(mc(i32::MAX, -i32::MAX)));
    assert_eq!(
        MapCoord::from_map_units(max + 1, 0),
        Err(OmapError::MapCoordinateOverflow)
    );
    assert_eq!(
        MapCoord::from_map_units(0, -max - 1),
        Err(OmapError::MapCoordinateOverflow)
    );
    assert_eq!(
        MapCoord::from_map_units(i64::MAX, 0),
        Err(OmapError::MapCoordinateOverflow)
    );
}

#[test]
fn polyline_open_has_no_flag() {
    let (bytes, n) = serialize_polyline(&vec![mc(0, 0), mc(1000, -2000), mc(-5, 7)], false);
    assert_eq!(text(bytes), "0 0;1000 -2000;-5 7;");
    assert_eq!(n, 3);
}

#[test]
fn polyline_closed_flags_last_vertex() {
    let ring = vec![mc(0, 0), mc(10, 0), mc(10, 10), mc(0, 0)];
    let (bytes, n) = serialize_polyline(&ring, true);
    assert_eq!(text(bytes), "0 0;10 0;10 10;0 0 18;");
    assert_eq!(n, 4);
}

#[test]
fn single_point_run() {
    let (bytes, n) = serialize_polyline(&vec![mc(0, 0)], false);
    assert_eq!(text(bytes), "0 0;");
    assert_eq!(n, 1);
}

#[test]
fn bezier_run_with_curve_and_straight_segments() {
    let segs = vec![
        BezierSegment {
            start: mc(0, 0),
            handles: Some(Handles { first: mc(1, 2), second: mc(3, 4) }),
            end: mc(5, 5),
        },
        BezierSegment { start: mc(5, 5), handles: None, end: mc(9, -9) },
    ];
    let (bytes, n) = serialize_bezier(&segs, false);
    assert_eq!(text(bytes), "0 0 1;1 2;3 4;5 5;9 -9;");
    assert_eq!(n, 5);
    let (bytes, n) = serialize_bezier(&segs, true);
    assert_eq!(text(bytes), "0 0 1;1 2;3 4;5 5;9 -9 18;");
    assert_eq!(n, 5);
}

#[test]
fn bezier_final_curved_segment_writes_its_end() {
    let segs = vec![BezierSegment {
        start: mc(0, 0),
        handles: Some(Handles { first: mc(1, 1), second: mc(2, 2) }),
        end: mc(0, 0),
    }];
    let (bytes, n) = serialize_bezier(&segs, true);
    assert_eq!(text(bytes), "0 0 1;1 1;2 2;0 0 18;");
    assert_eq!(n, 4);
}

#[test]
fn area_with_two_holes_counts_all_rings() {
    let exterior = vec![mc(0, 0), mc(100, 0), mc(100, 100), mc(0, 100), mc(0, 0)];
    let hole1 = vec![mc(10, 10), mc(20, 10), mc(20, 20), mc(10, 10)];
    let hole2 = vec![mc(50, 50), mc(60, 50), mc(50, 50)];
    let (bytes, n) = serialize_area_polyline(&exterior, &vec![hole1, hole2]);
    assert_eq!(n, 5 + 4 + 3);
    assert_eq!(
        text(bytes),
        "0 0;100 0;100 100;0 100;0 0 18;10 10;20 10;20 20;10 10 18;50 50;60 50;50 50 18;"
    );
}

#[test]
fn area_without_holes() {
    let exterior = vec![mc(0, 0), mc(1, 0), mc(0, 0)];
    let (bytes, n) = serialize_area_polyline(&exterior, &vec![]);
    assert_eq!(text(bytes), "0 0;1 0;0 0 18;");
    assert_eq!(n, 3);
}

#[test]
fn fitted_area_with_a_hole() {
    let ext = vec![
        BezierSegment { start: mc(0, 0), handles: None, end: mc(4, 0) },
        BezierSegment {
            start: mc(4, 0),
            handles: Some(Handles { first: mc(5, 1), second: mc(5, 3) }),
            end: mc(0, 0),
        },
    ];
    let hole = vec![BezierSegment { start: mc(1, 1), handles: None, end: mc(1, 1) }];
    let (bytes, n) = serialize_area_bezier(&ext, &vec![hole]);
    assert_eq!(text(bytes), "0 0;4 0 1;5 1;5 3;0 0 18;1 1;1 1 18;");
    assert_eq!(n, 5 + 2);
}

#[test]
fn parse_reads_back_serialized_run() {
    let ring = vec![mc(0, 0), mc(-10, 2147483647), mc(-2147483648, 3), mc(0, 0)];
    let (bytes, _) = serialize_polyline(&ring, true);
    let vs = parse_coords(&bytes).unwrap();
    assert_eq!(
        vs,
        vec![
            Vertex { coord: mc(0, 0), flags: 0 },
            Vertex { coord: mc(-10, 2147483647), flags: 0 },
            Vertex { coord: mc(-2147483648, 3), flags: 0 },
            Vertex { coord: mc(0, 0), flags: 18 },
        ]
    );
}

#[test]
fn parse_reads_curve_flags() {
    let vs = parse_coords(b"0 0 1;1 2;3 4;5 5;").unwrap();
    assert_eq!(vs.len(), 4);
    assert_eq!(vs[0], Vertex { coord: mc(0, 0), flags: 1 });
    assert_eq!(vs[3], Vertex { coord: mc(5, 5), flags: 0 });
}

#[test]
fn parse_of_empty_run_is_empty() {
    assert_eq!(parse_coords(b"").unwrap(), vec![]);
}

#[test]
fn parse_rejects_malformed_runs() {
    for bad in [
        &b"0 0"[..],
        b"01 0;",
        b"+1 0;",
        b"-0 0;",
        b"1  2;",
        b"1 2 0;",
        b"1 2 256;",
        b"2147483648 0;",
        b"1;",
        b"a b;",
        b"1 2;;",
    ] {
        assert!(parse_coords(bad).is_err(), "accepted {:?}", bad);
    }
}

#[test]
fn decode_bezier_reads_segments_back() {
    let segs = vec![
        BezierSegment {
            start: mc(0, 0),
            handles: Some(Handles { first: mc(1, 2), second: mc(3, 4) }),
            end: mc(5, 5),
        },
        BezierSegment { start: mc(5, 5), handles: None, end: mc(9, -9) },
    ];
    for closed in [false, true] {
        let (bytes, _) = serialize_bezier(&segs, closed);
        let vs = parse_coords(&bytes).unwrap();
        let (back, back_closed) = decode_bezier(&vs).unwrap();
        assert_eq!(back, segs);
        assert_eq!(back_closed, closed);
    }
}

#[test]
fn decode_bezier_of_a_polyline_gives_straight_segments() {
    let vs = parse_coords(b"0 0;1 1;2 0;").unwrap();
    let (segs, closed) = decode_bezier(&vs).unwrap();
    assert!(!closed);
    assert_eq!(
        segs,
        vec![
            BezierSegment { start: mc(0, 0), handles: None, end: mc(1, 1) },
            BezierSegment { start: mc(1, 1), handles: None, end: mc(2, 0) },
        ]
    );
}

#[test]
fn decode_bezier_rejects_broken_runs() {
    for bad in [&b"0 0;"[..], b"0 0 1;1 2;", b"0 0 1;1 2;3 4;", b"0 0 18;1 1;", b"0 0;1 1 5;", b"0 0 1;1 2 1;3 4;5 5;"] {
        let vs = parse_coords(bad).unwrap();
        assert!(decode_bezier(&vs).is_none(), "accepted {:?}", bad);
    }
}
