//! Writing and reading Open Orienteering Mapper `.omap` documents.
//!
//! The library holds the integer side of the format: map-unit coordinates,
//! the coordinate token grammar of `<coords>` runs, the symbol catalog, the
//! object elements and the geo-referencing blocks. Real-world coordinates are
//! turned into map units outside of it, and handed in as integers.
use vstd::prelude::*;

pub mod coords;
pub mod crs;
pub mod decimal;
pub mod document;
pub mod edited;
pub mod format_info;
pub mod map_parts;
pub mod object;
pub mod parse;
pub mod scale;
pub mod store;
pub mod symbol;
pub mod symbol_set;
pub mod tag;
pub mod text;
pub mod text_align;

pub use coords::MapCoord;
pub use scale::Scale;
pub use symbol::{AreaSymbol, LineSymbol, PointSymbol, Symbol, TextSymbol};

verus! {

/// Errors of the library.
#[derive(Debug, Clone, Copy, PartialEq, Eq, Structural)]
pub enum OmapError {
    /// A transformed coordinate does not fit the 32-bit map-unit range.
    MapCoordinateOverflow,
    /// A symbol of one geometry kind was given to an object of another.
    MismatchingSymbolAndObject,
    /// A CRS was given while geo-referencing is switched off.
    DisabledGeoReferencingFeature,
}

/// Errors of reading and re-writing an existing map.
#[derive(Debug, Clone)]
pub enum EditorError {
    /// The document does not have the expected structure.
    InvalidFormat(String),
    /// A coordinate run does not follow the coordinate grammar.
    InvalidCoordinate(String),
    /// The XML declaration names an encoding other than UTF-8.
    UnsupportedEncoding(String),
    /// Two map parts could not be merged.
    MapPartMergeError,
}

/// Result of the library.
pub type OmapResult<T> = Result<T, OmapError>;

} // verus!
