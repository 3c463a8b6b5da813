//! The parts of a whole `.omap` document around its objects: the header
//! with the geo-referencing block, the object list and the trailer.
use vstd::prelude::*;

use crate::crs::CrsType;
use crate::decimal::{decimal, push_unsigned};
use crate::scale::Scale;
use crate::text::{push_bytes, push_str, utf8};

verus! {

/// The values of a geo-referencing block, as the decimal text to write.
#[derive(Debug, Clone)]
pub struct GeoRefText {
    /// The combined grid and elevation scale factor.
    pub grid_scale_factor: String,
    /// The elevation scale factor.
    pub auxiliary_scale_factor: String,
    /// Magnetic declination in degrees.
    pub declination: String,
    /// Grivation in degrees.
    pub grivation: String,
    /// Projected reference point.
    pub ref_x: String,
    pub ref_y: String,
    /// Geographic reference point in degrees.
    pub lat: String,
    pub lon: String,
}

/// `<ref_point x="X" y="Y"/></projected_crs>`
pub open spec fn ref_point_xml(x: Seq<char>, y: Seq<char>) -> Seq<u8> {
    utf8("<ref_point x=\""@) + utf8(x) + utf8("\" y=\""@) + utf8(y) + utf8("\"/></projected_crs>"@)
}

/// The geo-referencing block of a map in local space.
pub open spec fn local_georef_xml(scale: Scale, x: Seq<char>, y: Seq<char>) -> Seq<u8> {
    utf8("<georeferencing scale=\""@) + decimal(scale.spec_denominator() as int) + utf8("\">"@)
        + CrsType::Local.spec_xml() + ref_point_xml(x, y) + utf8("</georeferencing>\n"@)
}

/// The geo-referencing block of a map in an EPSG-coded CRS.
pub open spec fn epsg_georef_xml(scale: Scale, epsg: u16, g: GeoRefText) -> Seq<u8> {
    utf8("<georeferencing scale=\""@) + decimal(scale.spec_denominator() as int) + utf8(
        "\" grid_scale_factor=\""@,
    ) + utf8(g.grid_scale_factor@) + utf8("\" auxiliary_scale_factor=\""@) + utf8(
        g.auxiliary_scale_factor@,
    ) + utf8("\" declination=\""@) + utf8(g.declination@) + utf8("\" grivation=\""@) + utf8(
        g.grivation@,
    ) + utf8("\">"@) + CrsType::EPSG(epsg).spec_xml() + ref_point_xml(g.ref_x@, g.ref_y@) + utf8(
        "<geographic_crs id=\"Geographic coordinates\"><spec language=\"PROJ.4\">+proj=latlong +datum=WGS84</spec><ref_point_deg lat=\""@,
    ) + utf8(g.lat@) + utf8("\" lon=\""@) + utf8(g.lon@) + utf8(
        "\"/></geographic_crs></georeferencing>\n"@,
    )
}

/// The XML declaration, the map element and the empty notes.
pub open spec fn prologue_xml() -> Seq<u8> {
    utf8(
        "<?xml version=\"1.0\" encoding=\"UTF-8\"?>\n<map xmlns=\"http://openorienteering.org/apps/mapper/xml/v2\" version=\"9\">\n<notes></notes>\n"@,
    )
}

/// The opening of the one map part and its object list of `n` objects.
pub open spec fn objects_open_xml(n: nat) -> Seq<u8> {
    utf8("<parts count=\"1\" current=\"0\">\n<part name=\"map\"><objects count=\""@) + decimal(
        n as int,
    ) + utf8("\">\n"@)
}

/// The closing of the object list and of the map part.
pub open spec fn objects_close_xml() -> Seq<u8> {
    utf8("</objects></part>\n</parts>\n"@)
}

/// The fixed trailer: empty templates, the default view and the end of the
/// map.
pub open spec fn trailer_xml() -> Seq<u8> {
    utf8(
        "<templates count=\"0\" first_front_template=\"0\">\n<defaults use_meters_per_pixel=\"true\" meters_per_pixel=\"0\" dpi=\"0\" scale=\"0\"/></templates>\n<view>\n"@,
    ) + utf8(
        "<grid color=\"#646464\" display=\"0\" alignment=\"0\" additional_rotation=\"0\" unit=\"1\" h_spacing=\"500\" v_spacing=\"500\" h_offset=\"0\" v_offset=\"0\" snapping_enabled=\"true\"/>\n"@,
    ) + utf8(
        "<map_view zoom=\"1\" position_x=\"0\" position_y=\"0\"><map opacity=\"1\" visible=\"true\"/><templates count=\"0\"/></map_view>\n</view>\n</barrier>\n</map>"@,
    )
}

/// Object elements, one after the other.
pub open spec fn concat_all(parts: Seq<Seq<u8>>) -> Seq<u8>
    decreases parts.len(),
{
    if parts.len() == 0 {
        seq![]
    } else {
        concat_all(parts.drop_last()) + parts.last()
    }
}

/// A whole document: prologue, geo-referencing, the color and symbol
/// tables, the objects and the trailer.
pub open spec fn document_xml(georef: Seq<u8>, tables: Seq<u8>, objects: Seq<Seq<u8>>) -> Seq<u8> {
    prologue_xml() + georef + tables + objects_open_xml(objects.len()) + concat_all(objects)
        + objects_close_xml() + trailer_xml()
}

/// Appends `<ref_point x="X" y="Y"/></projected_crs>`.
fn push_ref_point(out: &mut Vec<u8>, x: &str, y: &str)
    ensures
        final(out)@ == old(out)@ + ref_point_xml(x@, y@),
{
    push_str(out, "<ref_point x=\"");
    push_str(out, x);
    push_str(out, "\" y=\"");
    push_str(out, y);
    push_str(out, "\"/></projected_crs>");
    assert(final(out)@ =~= old(out)@ + ref_point_xml(x@, y@));
}

/// The geo-referencing block of a map in local space, with its projected
/// reference point.
pub fn local_georeferencing_xml(scale: Scale, ref_x: &str, ref_y: &str) -> (r: Vec<u8>)
    ensures
        r@ == local_georef_xml(scale, ref_x@, ref_y@),
{
    let mut out: Vec<u8> = Vec::new();
    push_str(&mut out, "<georeferencing scale=\"");
    push_unsigned(&mut out, scale.denominator() as u64);
    push_str(&mut out, "\">");
    let crs = CrsType::Local.to_xml();
    push_bytes(&mut out, crs.as_slice());
    push_ref_point(&mut out, ref_x, ref_y);
    push_str(&mut out, "</georeferencing>\n");
    assert(out@ =~= local_georef_xml(scale, ref_x@, ref_y@));
    out
}

/// The geo-referencing block of a map in an EPSG-coded CRS, with its
/// projected and geographic reference points.
pub fn epsg_georeferencing_xml(scale: Scale, epsg: u16, g: &GeoRefText) -> (r: Vec<u8>)
    ensures
        r@ == epsg_georef_xml(scale, epsg, *g),
{
    let mut out: Vec<u8> = Vec::new();
    push_str(&mut out, "<georeferencing scale=\"");
    push_unsigned(&mut out, scale.denominator() as u64);
    push_str(&mut out, "\" grid_scale_factor=\"");
    push_str(&mut out, g.grid_scale_factor.as_str());
    push_str(&mut out, "\" auxiliary_scale_factor=\"");
    push_str(&mut out, g.auxiliary_scale_factor.as_str());
    push_str(&mut out, "\" declination=\"");
    push_str(&mut out, g.declination.as_str());
    push_str(&mut out, "\" grivation=\"");
    push_str(&mut out, g.grivation.as_str());
    push_str(&mut out, "\">");
    let crs = CrsType::EPSG(epsg).to_xml();
    push_bytes(&mut out, crs.as_slice());
    push_ref_point(&mut out, g.ref_x.as_str(), g.ref_y.as_str());
    push_str(
        &mut out,
        "<geographic_crs id=\"Geographic coordinates\"><spec language=\"PROJ.4\">+proj=latlong +datum=WGS84</spec><ref_point_deg lat=\"",
    );
    push_str(&mut out, g.lat.as_str());
    push_str(&mut out, "\" lon=\"");
    push_str(&mut out, g.lon.as_str());
    push_str(&mut out, "\"/></geographic_crs></georeferencing>\n");
    assert(out@ =~= epsg_georef_xml(scale, epsg, *g));
    out
}

/// The whole document around the given geo-referencing block, color and
/// symbol tables, and object elements, with the object count.
pub fn document(georef: &Vec<u8>, tables: &[u8], objects: &Vec<Vec<u8>>) -> (r: Vec<u8>)
    ensures
        r@ == document_xml(georef@, tables@, objects@.map_values(|o: Vec<u8>| o@)),
{
    let ghost parts = objects@.map_values(|o: Vec<u8>| o@);
    let mut out: Vec<u8> = Vec::new();
    push_str(
        &mut out,
        "<?xml version=\"1.0\" encoding=\"UTF-8\"?>\n<map xmlns=\"http://openorienteering.org/apps/mapper/xml/v2\" version=\"9\">\n<notes></notes>\n",
    );
    push_bytes(&mut out, georef.as_slice());
    push_bytes(&mut out, tables);
    push_str(&mut out, "<parts count=\"1\" current=\"0\">\n<part name=\"map\"><objects count=\"");
    push_unsigned(&mut out, objects.len() as u64);
    push_str(&mut out, "\">\n");
    let ghost start = out@;
    assert(start == prologue_xml() + georef@ + tables@ + objects_open_xml(parts.len()));
    let mut i: usize = 0;
    while i < objects.len()
        invariant
            i <= objects.len(),
            parts == objects@.map_values(|o: Vec<u8>| o@),
            out@ == start + concat_all(parts.subrange(0, i as int)),
        decreases objects.len() - i,
    {
        push_bytes(&mut out, objects[i].as_slice());
        proof {
            let pre = parts.subrange(0, i + 1);
            assert(pre.drop_last() =~= parts.subrange(0, i as int));
            assert(pre.last() == objects@[i as int]@);
        }
        i = i + 1;
    }
    assert(parts.subrange(0, objects.len() as int) =~= parts);
    push_str(&mut out, "</objects></part>\n</parts>\n");
    push_str(
        &mut out,
        "<templates count=\"0\" first_front_template=\"0\">\n<defaults use_meters_per_pixel=\"true\" meters_per_pixel=\"0\" dpi=\"0\" scale=\"0\"/></templates>\n<view>\n",
    );
    push_str(
        &mut out,
        "<grid color=\"#646464\" display=\"0\" alignment=\"0\" additional_rotation=\"0\" unit=\"1\" h_spacing=\"500\" v_spacing=\"500\" h_offset=\"0\" v_offset=\"0\" snapping_enabled=\"true\"/>\n",
    );
    push_str(
        &mut out,
        "<map_view zoom=\"1\" position_x=\"0\" position_y=\"0\"><map opacity=\"1\" visible=\"true\"/><templates count=\"0\"/></map_view>\n</view>\n</barrier>\n</map>",
    );
    assert(out@ =~= document_xml(georef@, tables@, parts));
    out
}

} // verus!
