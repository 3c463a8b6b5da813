use omap::coords::serialize_polyline;
use omap::crs::CrsType;
use omap::document::{document, epsg_georeferencing_xml, local_georeferencing_xml, GeoRefText};
use omap::format_info::{Barrier, Encoding, OmapVersion, XmlVersion};
use omap::edited::{object_kind, tags_from_pairs, EditedObject};
use omap::parse::Vertex;
use omap::map_parts::{MapPart, MapParts};
use omap::object::{
    area_object_xml, edited_object_xml, line_object_xml, point_object_xml, text_object_xml,
    CoordsBlock,
};
use omap::store::ObjectStore;
use omap::symbol::change_symbol;
use omap::symbol_set::{Symbol as SetSymbol, SymbolCode, SymbolSet, SymbolType};
use omap::tag::{Tag, Tags};
use omap::text_align::{HorizontalAlign, VerticalAlign};
use omap::{
    AreaSymbol, EditorError, LineSymbol, MapCoord, OmapError, PointSymbol, Scale, Symbol,
    TextSymbol,
};

fn text(b: Vec<u8>) -> String {
    String::from_utf8(b).unwrap()
}

#[test]
fn symbol_ids_follow_the_catalog() {
    assert_eq!(AreaSymbol::BrokenGround.id(), 21);
    assert_eq!(AreaSymbol::OutOfBounds.id(), 167);
    assert_eq!(LineSymbol::Contour.id(), 0);
    assert_eq!(LineSymbol::SimpleOrienteeringCourse.id(), 166);
    assert_eq!(PointSymbol::ElongatedDotKnoll.id(), 18);
    assert_eq!(PointSymbol::OpenOrienteeringMapperLogo.id(), 168);
    assert_eq!(TextSymbol::ContourValue.id(), 5);
    assert_eq!(TextSymbol::ControlNumber.id(), 165);
    assert_eq!(Symbol::Point(PointSymbol::SpotHeight).id(), 163);
    assert_eq!(Symbol::from(TextSymbol::SpotHeight).id(), 164);
}

#[test]
fn rotatable_symbols() {
    assert!(AreaSymbol::RoughVineyard.is_rotatable());
    assert!(!AreaSymbol::Forest.is_rotatable());
    assert!(PointSymbol::Spring.is_rotatable());
    assert!(!PointSymbol::DotKnoll.is_rotatable());
    assert!(!LineSymbol::Contour.is_rotatable());
    assert!(!TextSymbol::SpotHeight.is_rotatable());
    assert!(Symbol::Area(AreaSymbol::Vineyard).is_rotatable());
}

#[test]
fn symbol_kinds() {
    let s = Symbol::Line(LineSymbol::Road);
    assert!(s.is_line_symbol());
    assert!(!s.is_area_symbol());
    assert!(Symbol::Area(AreaSymbol::Marsh).is_area_symbol());
    assert!(Symbol::Point(PointSymbol::Pit).is_point_symbol());
    assert!(Symbol::Text(TextSymbol::SpotHeight).is_text_symbol());
    assert!(Symbol::Line(LineSymbol::BasemapContour).is_not_bezier_symbol());
    assert!(!Symbol::Line(LineSymbol::Contour).is_not_bezier_symbol());
    assert!(Symbol::Area(AreaSymbol::Building).is_not_bezier_symbol());
    assert!(Symbol::Point(PointSymbol::Pit).is_not_bezier_symbol());
}

#[test]
fn draw_order_starts_with_rough_open_land() {
    let order: Vec<Symbol> = Symbol::iter_in_draw_order().collect();
    assert_eq!(order.len(), 23);
    assert_eq!(order[0], Symbol::Area(AreaSymbol::RoughOpenLand));
    assert_eq!(order[22], Symbol::Area(AreaSymbol::Building));
}

#[test]
fn change_symbol_keeps_the_geometry_kind() {
    let current = Symbol::Line(LineSymbol::Contour);
    assert_eq!(
        change_symbol(current, Symbol::Line(LineSymbol::IndexContour)),
        Ok(Symbol::Line(LineSymbol::IndexContour))
    );
    assert_eq!(
        change_symbol(current, Symbol::Area(AreaSymbol::Marsh)),
        Err(OmapError::MismatchingSymbolAndObject)
    );
}

#[test]
fn tags_replace_existing_keys() {
    let mut tags = Tags::new();
    assert_eq!(text(tags.to_xml()), "");
    tags.add_tag("Elevation".to_string(), "20.00".to_string());
    tags.add_tag("kind".to_string(), "a".to_string());
    tags.add_tag("Elevation".to_string(), "1234.50".to_string());
    assert_eq!(tags.len(), 2);
    assert_eq!(tags.get(&"Elevation".to_string()).unwrap(), "1234.50");
    assert!(tags.get(&"missing".to_string()).is_none());
    assert_eq!(
        text(tags.to_xml()),
        "<tags><t k=\"Elevation\">1234.50</t><t k=\"kind\">a</t></tags>"
    );
}

#[test]
fn single_tag_element() {
    let t = Tag::new("k".to_string(), "v".to_string());
    assert_eq!(text(t.to_xml()), "<t k=\"k\">v</t>");
}

#[test]
fn point_object_element_at_origin() {
    let xml = point_object_xml(PointSymbol::DotKnoll, "0", &Tags::new(), MapCoord { x: 0, y: 0 });
    assert_eq!(
        text(xml),
        "<object type=\"0\" symbol=\"17\" rotation=\"0\"><coords count=\"1\">0 0;</coords></object>\n"
    );
}

#[test]
fn rotation_text_is_written_as_given() {
    let a = point_object_xml(PointSymbol::Spring, "0.7853981633974483", &Tags::new(), MapCoord { x: 1, y: 2 });
    let b = point_object_xml(PointSymbol::Spring, "0.8853981633974483", &Tags::new(), MapCoord { x: 1, y: 2 });
    assert_ne!(a, b);
    assert!(text(b).contains("rotation=\"0.8853981633974483\""));
}

#[test]
fn text_object_element() {
    let mut tags = Tags::new();
    tags.add_tag("a".to_string(), "b".to_string());
    let xml = text_object_xml(TextSymbol::SpotHeight, &tags, MapCoord { x: 5, y: -6 }, "123");
    assert_eq!(
        text(xml),
        "<object type=\"4\" symbol=\"164\" h_align=\"1\" v_align=\"2\"><tags><t k=\"a\">b</t></tags><coords count=\"1\">5 -6;</coords><text>123</text></object>\n"
    );
}

#[test]
fn line_object_element() {
    let (run, n) = serialize_polyline(&vec![MapCoord { x: 0, y: 0 }, MapCoord { x: 3, y: 4 }], false);
    let xml = line_object_xml(LineSymbol::Contour, &Tags::new(), &run, n);
    assert_eq!(
        text(xml),
        "<object type=\"1\" symbol=\"0\"><coords count=\"2\">0 0;3 4;</coords></object>\n"
    );
}

#[test]
fn area_pattern_only_for_rotatable_symbols() {
    let run = b"0 0;1 0;0 0 18;".to_vec();
    let rot = area_object_xml(AreaSymbol::RoughVineyard, &Tags::new(), &run, 3, "0.5");
    assert_eq!(
        text(rot),
        "<object type=\"1\" symbol=\"100\"><coords count=\"3\">0 0;1 0;0 0 18;</coords><pattern rotation=\"0.5\"><coord x=\"0\" y=\"0\"/></pattern></object>\n"
    );
    let plain = area_object_xml(AreaSymbol::Forest, &Tags::new(), &run, 3, "0.5");
    assert_eq!(
        text(plain),
        "<object type=\"1\" symbol=\"83\"><coords count=\"3\">0 0;1 0;0 0 18;</coords></object>\n"
    );
}

#[test]
fn local_map_document_end_to_end() {
    let georef = local_georeferencing_xml(Scale::S15_000, "463562.5", "6833872.7");
    assert_eq!(
        text(georef.clone()),
        "<georeferencing scale=\"15000\"><projected_crs id=\"Local\"><ref_point x=\"463562.5\" y=\"6833872.7\"/></projected_crs></georeferencing>\n"
    );
    let obj = point_object_xml(PointSymbol::DotKnoll, "0", &Tags::new(), MapCoord { x: 0, y: 0 });
    let doc = text(document(&georef, b"<colors/>\n", &vec![obj]));
    assert!(doc.starts_with("<?xml version=\"1.0\" encoding=\"UTF-8\"?>\n<map xmlns=\"http://openorienteering.org/apps/mapper/xml/v2\" version=\"9\">\n<notes></notes>\n"));
    assert!(doc.contains("<projected_crs id=\"Local\">"));
    assert!(!doc.contains("<geographic_crs"));
    assert!(doc.contains("<objects count=\"1\">\n<object type=\"0\" symbol=\"17\" rotation=\"0\"><coords count=\"1\">0 0;</coords></object>\n</objects>"));
    assert!(doc.ends_with("</barrier>\n</map>"));
}

#[test]
fn epsg_georeferencing_block() {
    let g = GeoRefText {
        grid_scale_factor: "0.9996".to_string(),
        auxiliary_scale_factor: "1".to_string(),
        declination: "2.5".to_string(),
        grivation: "1.5".to_string(),
        ref_x: "1".to_string(),
        ref_y: "2".to_string(),
        lat: "61.6".to_string(),
        lon: "9.3".to_string(),
    };
    let xml = text(epsg_georeferencing_xml(Scale::S10_000, 25832, &g));
    assert_eq!(
        xml,
        "<georeferencing scale=\"10000\" grid_scale_factor=\"0.9996\" auxiliary_scale_factor=\"1\" declination=\"2.5\" grivation=\"1.5\"><projected_crs id=\"EPSG\"><spec language=\"PROJ.4\">+init=epsg:25832</spec><parameter>25832</parameter><ref_point x=\"1\" y=\"2\"/></projected_crs><geographic_crs id=\"Geographic coordinates\"><spec language=\"PROJ.4\">+proj=latlong +datum=WGS84</spec><ref_point_deg lat=\"61.6\" lon=\"9.3\"/></geographic_crs></georeferencing>\n"
    );
}

#[test]
fn scale_denominators() {
    assert_eq!(Scale::S10_000.denominator(), 10000);
    assert_eq!(Scale::S15_000.denominator(), 15000);
}

#[test]
fn epsg_code_from_crs() {
    assert_eq!(CrsType::EPSG(25832).get_epsg_code(), Some(25832));
    assert_eq!(CrsType::PROJ4("+init=epsg:3006 +units=m".to_string()).get_epsg_code(), Some(3006));
    assert_eq!(CrsType::PROJ4("+init=epsg:1000".to_string()).get_epsg_code(), None);
    assert_eq!(CrsType::PROJ4("+init=epsg:99999999999999".to_string()).get_epsg_code(), None);
    assert_eq!(CrsType::PROJ4("+proj=utm".to_string()).get_epsg_code(), None);
    assert_eq!(CrsType::UTM(32).get_epsg_code(), None);
    assert_eq!(CrsType::Local.get_epsg_code(), None);
}

#[test]
fn proj_strings_of_crs() {
    assert!(CrsType::Local.get_proj_string().is_none());
    assert_eq!(text(CrsType::EPSG(4326).get_proj_string().unwrap()), "+init=epsg:4326");
    assert_eq!(
        text(CrsType::GaussKrueger(3).get_proj_string().unwrap()),
        "+proj=tmerc +lat_0=0 +lon_0=9 +k=1.000000 +x_0=3500000 +y_0=0 +ellps=bessel +datum=potsdam +units=m +no_defs"
    );
    assert_eq!(text(CrsType::UTM(-33).get_proj_string().unwrap()), "+proj=utm +datum=WGS84 +zone=33");
    assert_eq!(text(CrsType::UTM(-128).get_proj_string().unwrap()), "+proj=utm +datum=WGS84 +zone=128");
    assert_eq!(text(CrsType::PROJ4("+proj=x".to_string()).get_proj_string().unwrap()), "+proj=x");
}

#[test]
fn projected_crs_elements() {
    assert_eq!(text(CrsType::Local.to_xml()), "<projected_crs id=\"Local\">");
    assert_eq!(
        text(CrsType::UTM(-33).to_xml()),
        "<projected_crs id=\"UTM\"><spec language=\"PROJ.4\">+proj=utm +datum=WGS84 +zone=33 +south</spec><parameter>33 S</parameter>"
    );
    assert_eq!(
        text(CrsType::UTM(32).to_xml()),
        "<projected_crs id=\"UTM\"><spec language=\"PROJ.4\">+proj=utm +datum=WGS84 +zone=32</spec><parameter>32 N</parameter>"
    );
    assert_eq!(
        text(CrsType::PROJ4("+proj=x".to_string()).to_xml()),
        "<projected_crs id=\"PROJ.4\"><spec language=\"PROJ.4\">+proj=x</spec><parameter>+proj=x</parameter>"
    );
    assert!(text(CrsType::GaussKrueger(2).to_xml()).ends_with("</spec><parameter>2</parameter>"));
}

fn sample_set() -> SymbolSet {
    let mut set = SymbolSet::new("ISOM".to_string(), vec![]);
    set.push_simple_line_symbol(SymbolCode::from([101, 0, 0]), "Contour".to_string(), 3, 140, "c".to_string());
    set.push_simple_area_symbol(SymbolCode::from([401, 0, 0]), "Open land".to_string(), 7, "o".to_string());
    set.push_simple_point_symbol(SymbolCode::from([109, 0, 0]), "Knoll".to_string(), 3, 250, "k".to_string());
    set.push_simple_text_symbol(SymbolCode::from([999, 1, 2]), "Label".to_string(), 4000, 0, "t".to_string());
    set
}

#[test]
fn symbol_set_lookups() {
    let set = sample_set();
    assert_eq!(set.num_symbols(), 4);
    assert_eq!(set.get_symbol_set_id(), "ISOM");
    assert_eq!(set.get_symbol_by_id(1).unwrap().get_name(), "Open land");
    assert!(set.get_symbol_by_id(4).is_none());
    let s = set.get_symbol_by_code(SymbolCode { major: 999, minor: 1, patch: 2 }).unwrap();
    assert_eq!(s.get_symbol_type(), SymbolType::Text);
    assert_eq!(s.get_description(), "t");
    assert!(set.get_symbol_by_code(SymbolCode::default()).is_none());
    assert_eq!(set.get_symbol_by_name("Knoll").unwrap().get_code().major, 109);
    assert!(set.get_symbol_by_name("knoll").is_none());
    assert_eq!(set.iter().count(), 4);
    assert_eq!(SymbolType::Area.value(), 4);
    assert_eq!(SymbolType::Combined.value(), 16);
}

#[test]
fn symbol_set_element() {
    let set = sample_set();
    assert_eq!(
        text(set.to_xml()),
        "<symbols count=\"4\" id=\"ISOM\">\n<line_symbol color=\"3\" line_width=\"140\" join_style=\"2\" cap_style=\"1\"/><area_symbol inner_color=\"7\"/><point_symbol inner_radius=\"250\" inner_color=\"3\"/><text_symbol icon_text=\"A\"><font family=\"Sans Serif\" size=\"4000\"/><text color=\"0\"/></text_symbol></symbols>\n"
    );
    let s = SetSymbol::new(SymbolType::Point, b"<x/>".to_vec(), SymbolCode::default(), String::new(), "n".to_string());
    assert_eq!(s.to_xml(), b"<x/>");
}

#[test]
fn format_info_elements() {
    assert_eq!(
        text(XmlVersion::default().to_xml()),
        "<?xml version=\"1.0\" encoding=\"UTF-8\"?>"
    );
    let v = XmlVersion::new("1.1".to_string(), Encoding::Utf8);
    assert_eq!(v.version(), "1.1");
    assert_eq!(v.encoding(), Encoding::Utf8);
    assert_eq!(
        text(OmapVersion::default().to_xml()),
        "<map xmlns=\"http://openorienteering.org/apps/mapper/xml/v2\" version=\"9\">"
    );
    assert!(OmapVersion::from_attributes(Some("x".to_string()), None).is_err());
    let o = OmapVersion::from_attributes(Some("x".to_string()), Some(8)).unwrap();
    assert_eq!(text(o.to_xml()), "<map xmlns=\"x\" version=\"8\">");
    let b = Barrier { version: 6, required: "0.6.0".to_string() };
    assert_eq!(text(b.to_xml()), "<barrier version=\"6\" required=\"0.6.0\">\n");
}

#[test]
fn encoding_names() {
    assert_eq!(Encoding::from_str("utf-8").unwrap(), Encoding::Utf8);
    assert_eq!(Encoding::from_str("Utf-8").unwrap(), Encoding::Utf8);
    assert_eq!(Encoding::Utf8.name(), "UTF-8");
    match Encoding::from_str("latin1") {
        Err(EditorError::UnsupportedEncoding(s)) => assert_eq!(s, "latin1"),
        other => panic!("unexpected {:?}", other),
    }
}

#[test]
fn text_alignment_values() {
    assert_eq!(HorizontalAlign::from_bytes(b"1"), Some(HorizontalAlign::AlignHCenter));
    assert_eq!(HorizontalAlign::from_bytes(b"3"), None);
    assert_eq!(VerticalAlign::from_bytes(b"3"), Some(VerticalAlign::AlignBottom));
    assert_eq!(VerticalAlign::from_bytes(b"10"), None);
    assert_eq!(HorizontalAlign::AlignRight.value(), 2);
    assert_eq!(VerticalAlign::AlignTop.value(), 1);
}

#[test]
fn store_groups_by_symbol_in_insertion_order() {
    let mut store: ObjectStore<u32> = ObjectStore::new();
    let contour = Symbol::Line(LineSymbol::Contour);
    let knoll = Symbol::Point(PointSymbol::DotKnoll);
    store.add_object(contour, 1);
    store.add_object(knoll, 2);
    store.add_object(contour, 3);
    store.reserve_capacity(Symbol::Area(AreaSymbol::Marsh), 10);
    store.add_object(knoll, 4);
    assert_eq!(store.len(), 4);
    assert_eq!(store.into_objects(), vec![1, 3, 2, 4]);
}

#[test]
fn store_takes_a_group_out() {
    let mut store: ObjectStore<&str> = ObjectStore::new();
    let road = Symbol::Line(LineSymbol::Road);
    let pit = Symbol::Point(PointSymbol::Pit);
    store.add_object(road, "a");
    store.add_object(pit, "b");
    store.add_object(road, "c");
    assert_eq!(store.keys(), vec![road, pit]);
    assert_eq!(store.take_group(road), vec!["a", "c"]);
    assert_eq!(store.len(), 1);
    assert!(store.take_group(Symbol::Area(AreaSymbol::Marsh)).is_empty());
    store.add_object(road, "d");
    assert_eq!(store.keys(), vec![road, pit]);
    assert_eq!(store.into_objects(), vec!["d", "b"]);
}

fn parts() -> MapParts<u32> {
    MapParts::new(vec![
        MapPart { name: "a".to_string(), objects: vec![1, 2] },
        MapPart { name: "b".to_string(), objects: vec![3] },
        MapPart { name: "c".to_string(), objects: vec![4, 5] },
    ])
}

#[test]
fn map_parts_merge_all() {
    let mut p = parts();
    p.merge_all_parts(Some("all".to_string()));
    assert_eq!(p.num_map_parts(), 1);
    let only = p.get_map_part_by_index(0).unwrap();
    assert_eq!(only.name, "all");
    assert_eq!(only.objects, vec![1, 2, 3, 4, 5]);
    let mut q = parts();
    q.merge_all_parts(None);
    assert_eq!(q.get_map_part_by_index(0).unwrap().name, "a");
}

#[test]
fn map_parts_merge_two_keeps_order() {
    let mut p = parts();
    assert!(p.merge_two_parts(2, 0).is_ok());
    assert_eq!(p.num_map_parts(), 2);
    assert_eq!(p.get_map_part_by_index(0).unwrap().name, "b");
    let c = p.get_map_part_by_name("c").unwrap();
    assert_eq!(c.objects, vec![4, 5, 1, 2]);
    assert!(matches!(p.merge_two_parts(1, 1), Err(EditorError::MapPartMergeError)));
    assert!(matches!(p.merge_two_parts(0, 5), Err(EditorError::MapPartMergeError)));
    assert!(p.get_map_part_by_name("a").is_none());
}

#[test]
fn map_parts_remove_and_iterate() {
    let mut p = parts();
    let removed = p.remove_map_part_by_index(1).unwrap();
    assert_eq!(removed.name, "b");
    assert!(p.remove_map_part_by_index(7).is_none());
    let names: Vec<&str> = p.iter().map(|x| x.name.as_str()).collect();
    assert_eq!(names, vec!["a", "c"]);
}

#[test]
fn crs_read_from_id_and_parameter() {
    let epsg = CrsType::from_id_and_parameter("EPSG", "25832").unwrap();
    assert_eq!(epsg.get_epsg_code(), Some(25832));
    assert!(matches!(CrsType::from_id_and_parameter("UTM", "33 S"), Ok(CrsType::UTM(-33))));
    assert!(matches!(CrsType::from_id_and_parameter("UTM", "32 N"), Ok(CrsType::UTM(32))));
    assert!(matches!(CrsType::from_id_and_parameter("UTM", "128 S"), Ok(CrsType::UTM(-128))));
    assert!(matches!(
        CrsType::from_id_and_parameter("Gauss-Krueger, datum: Potsdam", "3"),
        Ok(CrsType::GaussKrueger(3))
    ));
    match CrsType::from_id_and_parameter("PROJ.4", "+proj=x") {
        Ok(CrsType::PROJ4(s)) => assert_eq!(s, "+proj=x"),
        other => panic!("unexpected {:?}", other),
    }
    assert!(matches!(CrsType::from_id_and_parameter("Local", ""), Ok(CrsType::Local)));
    for (id, p) in [
        ("EPSG", "x"),
        ("EPSG", "70000"),
        ("EPSG", "025832"),
        ("UTM", "0 S"),
        ("UTM", "128 N"),
        ("UTM", "32"),
        ("UTM", "32 X"),
        ("Gauss-Krueger, datum: Potsdam", "256"),
    ] {
        assert!(
            matches!(CrsType::from_id_and_parameter(id, p), Err(EditorError::InvalidFormat(_))),
            "accepted {} {}",
            id,
            p
        );
    }
}

#[test]
fn symbol_code_and_type_attributes() {
    assert_eq!(SymbolCode::from_text("101"), Some(SymbolCode { major: 101, minor: 0, patch: 0 }));
    assert_eq!(SymbolCode::from_text("101.1"), Some(SymbolCode { major: 101, minor: 1, patch: 0 }));
    assert_eq!(SymbolCode::from_text("999.12.3"), Some(SymbolCode { major: 999, minor: 12, patch: 3 }));
    for bad in ["", "1.", ".1", "1..2", "1.2.3.4", "65536", "01", "a", "1 2"] {
        assert_eq!(SymbolCode::from_text(bad), None, "accepted {:?}", bad);
    }
    assert_eq!(SymbolType::from_attribute(b"1"), Some(SymbolType::Point));
    assert_eq!(SymbolType::from_attribute(b"8"), Some(SymbolType::Text));
    assert_eq!(SymbolType::from_attribute(b"16"), None);
    assert_eq!(SymbolType::from_attribute(b"3"), None);
}

#[test]
fn edited_object_keeps_untouched_coords() {
    let raw = b"<coords count=\"1\">07 8;</coords>".to_vec();
    let xml = edited_object_xml(0, 12, " rotation=\"0.5\"", &Tags::new(), &CoordsBlock::Pristine(raw));
    assert_eq!(
        text(xml),
        "<object type=\"0\" symbol=\"12\" rotation=\"0.5\"><coords count=\"1\">07 8;</coords></object>\n"
    );
    let dirty = CoordsBlock::Dirty { run: b"7 8;".to_vec(), count: 1 };
    let xml = edited_object_xml(1, 3, "", &Tags::new(), &dirty);
    assert_eq!(
        text(xml),
        "<object type=\"1\" symbol=\"3\"><coords count=\"1\">7 8;</coords></object>\n"
    );
}

fn edited_symbols() -> SymbolSet {
    let mut set = SymbolSet::new("s".to_string(), vec![]);
    set.push_simple_line_symbol(SymbolCode::from([101, 0, 0]), "Contour".to_string(), 0, 140, String::new());
    set.push_simple_area_symbol(SymbolCode::from([401, 0, 0]), "Open land".to_string(), 1, String::new());
    set
}

#[test]
fn object_kind_from_type_and_symbol() {
    let set = edited_symbols();
    assert_eq!(object_kind(b"0", Some(7), &set).unwrap(), SymbolType::Point);
    assert_eq!(object_kind(b"4", Some(7), &set).unwrap(), SymbolType::Text);
    assert_eq!(object_kind(b"1", Some(0), &set).unwrap(), SymbolType::Line);
    assert_eq!(object_kind(b"1", Some(1), &set).unwrap(), SymbolType::Area);
    assert!(matches!(object_kind(b"1", Some(2), &set), Err(EditorError::InvalidFormat(_))));
    assert!(matches!(object_kind(b"0", None, &set), Err(EditorError::InvalidFormat(_))));
    assert!(matches!(object_kind(b"2", Some(0), &set), Err(EditorError::InvalidFormat(_))));
}

#[test]
fn tags_read_from_pairs() {
    let tags = tags_from_pairs(vec![
        (Some("a".to_string()), Some("1".to_string())),
        (Some("b".to_string()), None),
        (None, Some("x".to_string())),
        (Some("a".to_string()), Some("2".to_string())),
        (Some("c".to_string()), Some("3".to_string())),
    ]);
    assert_eq!(text(tags.to_xml()), "<tags><t k=\"a\">2</t><t k=\"c\">3</t></tags>");
}

#[test]
fn edited_object_round_trip_and_change() {
    let set = edited_symbols();
    let raw = b"<coords count=\"2\">0 0;10 -5;</coords>".to_vec();
    let run = b"0 0;10 -5;".to_vec();
    let mut tags = Tags::new();
    tags.add_tag("k".to_string(), "v".to_string());
    let mut o = EditedObject::read(b"1", Some(0), &set, String::new(), tags, Some((raw, run))).unwrap();
    assert_eq!(o.kind, SymbolType::Line);
    assert_eq!(o.vertices.len(), 2);
    assert_eq!(
        text(o.to_xml()),
        "<object type=\"1\" symbol=\"0\"><tags><t k=\"k\">v</t></tags><coords count=\"2\">0 0;10 -5;</coords></object>\n"
    );
    o.set_vertices(vec![Vertex { coord: MapCoord { x: 1, y: 2 }, flags: 0 }]);
    assert_eq!(
        text(o.to_xml()),
        "<object type=\"1\" symbol=\"0\"><tags><t k=\"k\">v</t></tags><coords count=\"1\">1 2;</coords></object>\n"
    );
    assert!(matches!(
        EditedObject::read(b"0", Some(0), &set, String::new(), Tags::new(), None),
        Err(EditorError::InvalidFormat(_))
    ));
    assert!(matches!(
        EditedObject::read(b"0", Some(0), &set, String::new(), Tags::new(), Some((vec![], b"1 2".to_vec()))),
        Err(EditorError::InvalidCoordinate(_))
    ));
}
