//! The XML declaration, the `<map>` element and the `<barrier>` element of
//! an edited map.
use vstd::prelude::*;

use crate::decimal::{decimal, push_unsigned};
use crate::text::{bytes_equal, push_str, utf8};
use crate::EditorError;

verus! {

/// The text encoding of a map document.
#[derive(Debug, Clone, Copy, PartialEq, Eq, Structural)]
pub enum Encoding {
    Utf8,
}

/// The bytes of `UTF-8`.
pub open spec fn utf8_upper() -> Seq<u8> {
    seq![85u8, 84u8, 70u8, 45u8, 56u8]
}

/// The bytes of `utf-8`.
pub open spec fn utf8_lower() -> Seq<u8> {
    seq![117u8, 116u8, 102u8, 45u8, 56u8]
}

/// The bytes of `Utf-8`.
pub open spec fn utf8_capitalized() -> Seq<u8> {
    seq![85u8, 116u8, 102u8, 45u8, 56u8]
}

impl Encoding {
    /// The encoding's name as the XML declaration writes it.
    pub fn name(&self) -> (r: &'static str)
        ensures
            r@ == "UTF-8"@,
    {
        "UTF-8"
    }

    /// Reads an encoding name: `UTF-8`, `utf-8` or `Utf-8`.
    pub fn from_str(s: &str) -> (r: Result<Encoding, EditorError>)
        ensures
            r is Ok <==> (utf8(s@) == utf8_upper() || utf8(s@) == utf8_lower() || utf8(s@)
                == utf8_capitalized()),
            r matches Ok(e) ==> e == Encoding::Utf8,
            r matches Err(e) ==> e matches EditorError::UnsupportedEncoding(t) && t@ == s@,
    {
        let b = s.as_bytes();
        let upper: Vec<u8> = vec![85u8, 84u8, 70u8, 45u8, 56u8];
        let lower: Vec<u8> = vec![117u8, 116u8, 102u8, 45u8, 56u8];
        let capitalized: Vec<u8> = vec![85u8, 116u8, 102u8, 45u8, 56u8];
        assert(upper@ == utf8_upper());
        assert(lower@ == utf8_lower());
        assert(capitalized@ == utf8_capitalized());
        if bytes_equal(b, upper.as_slice()) || bytes_equal(b, lower.as_slice()) || bytes_equal(
            b,
            capitalized.as_slice(),
        ) {
            Ok(Encoding::Utf8)
        } else {
            Err(EditorError::UnsupportedEncoding(s.to_owned()))
        }
    }
}

/// The namespace of the map element of version 9 documents.
pub open spec fn default_xmlns() -> Seq<char> {
    "http://openorienteering.org/apps/mapper/xml/v2"@
}

/// The namespace and format version of a map document.
#[derive(Debug, Clone)]
pub struct OmapVersion {
    xmlns: String,
    version: u8,
}

impl OmapVersion {
    /// The namespace.
    pub closed spec fn spec_xmlns(&self) -> Seq<char> {
        self.xmlns@
    }

    /// The format version.
    pub closed spec fn spec_version(&self) -> u8 {
        self.version
    }

    /// The version read from the map element's attributes; both must be
    /// there.
    pub fn from_attributes(xmlns: Option<String>, version: Option<u8>) -> (r: Result<
        OmapVersion,
        EditorError,
    >)
        ensures
            r is Ok <==> xmlns is Some && version is Some,
            r matches Ok(v) ==> v.spec_xmlns() == xmlns->0@ && v.spec_version() == version->0,
            r matches Err(e) ==> e is InvalidFormat,
    {
        match (xmlns, version) {
            (Some(x), Some(v)) => Ok(OmapVersion { xmlns: x, version: v }),
            _ => Err(EditorError::InvalidFormat("Could not read Omap version".to_owned())),
        }
    }

    /// The current namespace and format version 9.
    pub fn default() -> (r: OmapVersion)
        ensures
            r.spec_xmlns() == default_xmlns(),
            r.spec_version() == 9,
    {
        OmapVersion {
            xmlns: "http://openorienteering.org/apps/mapper/xml/v2".to_owned(),
            version: 9,
        }
    }

    /// `<map xmlns="X" version="V">`
    pub fn to_xml(&self) -> (r: Vec<u8>)
        ensures
            r@ == utf8("<map xmlns=\""@) + utf8(self.spec_xmlns()) + utf8("\" version=\""@)
                + decimal(self.spec_version() as int) + utf8("\">"@),
    {
        let mut out: Vec<u8> = Vec::new();
        push_str(&mut out, "<map xmlns=\"");
        push_str(&mut out, self.xmlns.as_str());
        push_str(&mut out, "\" version=\"");
        push_unsigned(&mut out, self.version as u64);
        push_str(&mut out, "\">");
        out
    }
}

/// The XML declaration of a map document.
#[derive(Debug, Clone)]
pub struct XmlVersion {
    version: String,
    encoding: Encoding,
}

impl XmlVersion {
    /// The XML version.
    pub closed spec fn spec_version(&self) -> Seq<char> {
        self.version@
    }

    /// The encoding.
    pub closed spec fn spec_encoding(&self) -> Encoding {
        self.encoding
    }

    /// A declaration of XML version `version` in `encoding`.
    pub fn new(version: String, encoding: Encoding) -> (r: XmlVersion)
        ensures
            r.spec_version() == version@,
            r.spec_encoding() == encoding,
    {
        XmlVersion { version, encoding }
    }

    /// XML 1.0 in UTF-8.
    pub fn default() -> (r: XmlVersion)
        ensures
            r.spec_version() == "1.0"@,
            r.spec_encoding() == Encoding::Utf8,
    {
        XmlVersion { version: "1.0".to_owned(), encoding: Encoding::Utf8 }
    }

    /// `<?xml version="V" encoding="E"?>`
    pub fn to_xml(&self) -> (r: Vec<u8>)
        ensures
            r@ == utf8("<?xml version=\""@) + utf8(self.spec_version()) + utf8("\" encoding=\""@)
                + utf8("UTF-8"@) + utf8("\"?>"@),
    {
        let mut out: Vec<u8> = Vec::new();
        push_str(&mut out, "<?xml version=\"");
        push_str(&mut out, self.version.as_str());
        push_str(&mut out, "\" encoding=\"");
        push_str(&mut out, self.encoding.name());
        push_str(&mut out, "\"?>");
        out
    }

    /// The XML version.
    pub fn version(&self) -> (r: &str)
        ensures
            r@ == self.spec_version(),
    {
        self.version.as_str()
    }

    /// The encoding.
    pub fn encoding(&self) -> (r: Encoding)
        ensures
            r == self.spec_encoding(),
    {
        self.encoding
    }
}

/// The `<barrier>` element of a map document.
#[derive(Debug, Clone)]
pub struct Barrier {
    pub version: u8,
    pub required: String,
}

impl Barrier {
    /// `<barrier version="V" required="R">` and a line break.
    pub fn to_xml(&self) -> (r: Vec<u8>)
        ensures
            r@ == utf8("<barrier version=\""@) + decimal(self.version as int) + utf8(
                "\" required=\""@,
            ) + utf8(self.required@) + utf8("\">\n"@),
    {
        let mut out: Vec<u8> = Vec::new();
        push_str(&mut out, "<barrier version=\"");
        push_unsigned(&mut out, self.version as u64);
        push_str(&mut out, "\" required=\"");
        push_str(&mut out, self.required.as_str());
        push_str(&mut out, "\">\n");
        out
    }
}

} // verus!
