//! The compiled-in symbol catalog: each symbol's id in the symbol tables,
//! its geometry kind and whether it can be rotated.
use vstd::prelude::*;
use vstd::std_specs::iter::IteratorSpec;

verus! {

broadcast use vstd::std_specs::vec::axiom_spec_into_iter;

/// A symbol of the catalog, tagged with the geometry kind it draws.
#[derive(Debug, Clone, Copy, PartialEq, Eq, Structural, Hash, PartialOrd, Ord)]
pub enum Symbol {
    /// Symbols for area objects
    Area(AreaSymbol),
    /// Symbols for line objects
    Line(LineSymbol),
    /// Symbols for point objects
    Point(PointSymbol),
    /// Symbols for text objects
    Text(TextSymbol),
}

impl Symbol {
    /// Whether the symbol is a line symbol.
    pub fn is_line_symbol(&self) -> (r: bool)
        ensures
            r == (*self is Line),
    {
        matches!(self, Symbol::Line(_))
    }

    /// Whether the symbol is a point symbol.
    pub fn is_point_symbol(&self) -> (r: bool)
        ensures
            r == (*self is Point),
    {
        matches!(self, Symbol::Point(_))
    }

    /// Whether the symbol is an area symbol.
    pub fn is_area_symbol(&self) -> (r: bool)
        ensures
            r == (*self is Area),
    {
        matches!(self, Symbol::Area(_))
    }

    /// Whether the symbol is a text symbol.
    pub fn is_text_symbol(&self) -> (r: bool)
        ensures
            r == (*self is Text),
    {
        matches!(self, Symbol::Text(_))
    }

    /// The symbol's id in the compiled-in symbol tables.
    pub open spec fn spec_id(self) -> u8 {
        match self {
            Symbol::Area(a) => a.spec_id(),
            Symbol::Line(l) => l.spec_id(),
            Symbol::Point(p) => p.spec_id(),
            Symbol::Text(t) => t.spec_id(),
        }
    }

    /// The symbol's id in the compiled-in symbol tables.
    pub fn id(&self) -> (r: u8)
        ensures
            r == self.spec_id(),
    {
        match self {
            Symbol::Area(a) => a.id(),
            Symbol::Line(l) => l.id(),
            Symbol::Point(p) => p.id(),
            Symbol::Text(t) => t.id(),
        }
    }

    /// Whether the symbol, or its pattern, can be rotated.
    pub open spec fn spec_is_rotatable(self) -> bool {
        match self {
            Symbol::Area(a) => a.spec_is_rotatable(),
            Symbol::Line(l) => l.spec_is_rotatable(),
            Symbol::Point(p) => p.spec_is_rotatable(),
            Symbol::Text(t) => t.spec_is_rotatable(),
        }
    }

    /// Whether the symbol, or its pattern, can be rotated.
    pub fn is_rotatable(&self) -> (r: bool)
        ensures
            r == self.spec_is_rotatable(),
    {
        match self {
            Symbol::Area(a) => a.is_rotatable(),
            Symbol::Line(l) => l.is_rotatable(),
            Symbol::Point(p) => p.is_rotatable(),
            Symbol::Text(t) => t.is_rotatable(),
        }
    }

    /// Symbols whose objects are always written as polylines: basemap
    /// contours and buildings among the lines and areas, and every point and
    /// text symbol.
    pub open spec fn spec_is_not_bezier_symbol(self) -> bool {
        match self {
            Symbol::Line(l) => l == LineSymbol::BasemapContour || l == LineSymbol::NegBasemapContour,
            Symbol::Area(a) => a == AreaSymbol::CanopyWithOutline || a
                == AreaSymbol::CanopyWithoutOutline || a == AreaSymbol::Building || a
                == AreaSymbol::LargeBuildingWithOutline || a
                == AreaSymbol::LargeBuildingWithoutOutline,
            _ => true,
        }
    }

    /// Whether objects of the symbol are always written as polylines.
    pub fn is_not_bezier_symbol(&self) -> (r: bool)
        ensures
            r == self.spec_is_not_bezier_symbol(),
    {
        match self {
            Symbol::Line(l) => matches!(l, LineSymbol::BasemapContour | LineSymbol::NegBasemapContour),
            Symbol::Area(a) => matches!(
                a,
                AreaSymbol::CanopyWithOutline | AreaSymbol::CanopyWithoutOutline
                    | AreaSymbol::Building | AreaSymbol::LargeBuildingWithOutline
                    | AreaSymbol::LargeBuildingWithoutOutline
            ),
            _ => true,
        }
    }

    /// The symbols in the order they are drawn, from bottom to top.
    pub open spec fn draw_order() -> Seq<Symbol> {
        seq![
            Symbol::Area(AreaSymbol::RoughOpenLand),
            Symbol::Area(AreaSymbol::SandyGround),
            Symbol::Area(AreaSymbol::BareRock),
            Symbol::Area(AreaSymbol::LightGreen),
            Symbol::Area(AreaSymbol::MediumGreen),
            Symbol::Area(AreaSymbol::DarkGreen),
            Symbol::Area(AreaSymbol::Marsh),
            Symbol::Area(AreaSymbol::PavedAreaWithBoundary),
            Symbol::Line(LineSymbol::BasemapContour),
            Symbol::Line(LineSymbol::Contour),
            Symbol::Line(LineSymbol::IndexContour),
            Symbol::Line(LineSymbol::Formline),
            Symbol::Line(LineSymbol::NegBasemapContour),
            Symbol::Point(PointSymbol::SlopelineContour),
            Symbol::Point(PointSymbol::SlopelineFormline),
            Symbol::Point(PointSymbol::DotKnoll),
            Symbol::Point(PointSymbol::ElongatedDotKnoll),
            Symbol::Point(PointSymbol::UDepression),
            Symbol::Area(AreaSymbol::UncrossableWaterDominantWithBankLine),
            Symbol::Area(AreaSymbol::GiganticBoulder),
            Symbol::Point(PointSymbol::SmallBoulder),
            Symbol::Point(PointSymbol::LargeBoulder),
            Symbol::Area(AreaSymbol::Building),        ]
    }

    /// An iterator over the symbols in draw order (from bottom to top,
    /// assuming all symbols are a single color).
    pub fn iter_in_draw_order() -> (r: std::vec::IntoIter<Symbol>)
        ensures
            r.remaining() == Self::draw_order(),
    {
        let v: Vec<Symbol> = vec![
            Symbol::Area(AreaSymbol::RoughOpenLand),
            Symbol::Area(AreaSymbol::SandyGround),
            Symbol::Area(AreaSymbol::BareRock),
            Symbol::Area(AreaSymbol::LightGreen),
            Symbol::Area(AreaSymbol::MediumGreen),
            Symbol::Area(AreaSymbol::DarkGreen),
            Symbol::Area(AreaSymbol::Marsh),
            Symbol::Area(AreaSymbol::PavedAreaWithBoundary),
            Symbol::Line(LineSymbol::BasemapContour),
            Symbol::Line(LineSymbol::Contour),
            Symbol::Line(LineSymbol::IndexContour),
            Symbol::Line(LineSymbol::Formline),
            Symbol::Line(LineSymbol::NegBasemapContour),
            Symbol::Point(PointSymbol::SlopelineContour),
            Symbol::Point(PointSymbol::SlopelineFormline),
            Symbol::Point(PointSymbol::DotKnoll),
            Symbol::Point(PointSymbol::ElongatedDotKnoll),
            Symbol::Point(PointSymbol::UDepression),
            Symbol::Area(AreaSymbol::UncrossableWaterDominantWithBankLine),
            Symbol::Area(AreaSymbol::GiganticBoulder),
            Symbol::Point(PointSymbol::SmallBoulder),
            Symbol::Point(PointSymbol::LargeBoulder),
            Symbol::Area(AreaSymbol::Building),        ];
        assert(v@ == Self::draw_order());
        v.into_iter()
    }
}

/// Gives an object its new symbol: the symbol is accepted only when it is
/// of the same geometry kind as the object's current one, and refused with
/// `MismatchingSymbolAndObject` otherwise.
pub fn change_symbol(current: Symbol, new_symbol: Symbol) -> (r: crate::OmapResult<Symbol>)
    ensures
        r is Ok <==> same_kind(current, new_symbol),
        r matches Ok(s) ==> s == new_symbol,
        r matches Err(e) ==> e == crate::OmapError::MismatchingSymbolAndObject,
{
    match (current, new_symbol) {
        (Symbol::Area(_), Symbol::Area(_))
        | (Symbol::Line(_), Symbol::Line(_))
        | (Symbol::Point(_), Symbol::Point(_))
        | (Symbol::Text(_), Symbol::Text(_)) => Ok(new_symbol),
        _ => Err(crate::OmapError::MismatchingSymbolAndObject),
    }
}

/// Whether two symbols draw the same kind of geometry.
pub open spec fn same_kind(a: Symbol, b: Symbol) -> bool {
    (a is Area && b is Area) || (a is Line && b is Line) || (a is Point && b is Point) || (
    a is Text && b is Text)
}

impl From<AreaSymbol> for Symbol {
    fn from(value: AreaSymbol) -> (r: Symbol)
        ensures
            r == Symbol::Area(value),
    {
        Symbol::Area(value)
    }
}

impl vstd::std_specs::convert::FromSpecImpl<AreaSymbol> for Symbol {
    open spec fn obeys_from_spec() -> bool {
        true
    }

    open spec fn from_spec(v: AreaSymbol) -> Symbol {
        Symbol::Area(v)
    }
}

impl From<LineSymbol> for Symbol {
    fn from(value: LineSymbol) -> (r: Symbol)
        ensures
            r == Symbol::Line(value),
    {
        Symbol::Line(value)
    }
}

impl vstd::std_specs::convert::FromSpecImpl<LineSymbol> for Symbol {
    open spec fn obeys_from_spec() -> bool {
        true
    }

    open spec fn from_spec(v: LineSymbol) -> Symbol {
        Symbol::Line(v)
    }
}

impl From<PointSymbol> for Symbol {
    fn from(value: PointSymbol) -> (r: Symbol)
        ensures
            r == Symbol::Point(value),
    {
        Symbol::Point(value)
    }
}

impl vstd::std_specs::convert::FromSpecImpl<PointSymbol> for Symbol {
    open spec fn obeys_from_spec() -> bool {
        true
    }

    open spec fn from_spec(v: PointSymbol) -> Symbol {
        Symbol::Point(v)
    }
}

impl From<TextSymbol> for Symbol {
    fn from(value: TextSymbol) -> (r: Symbol)
        ensures
            r == Symbol::Text(value),
    {
        Symbol::Text(value)
    }
}

impl vstd::std_specs::convert::FromSpecImpl<TextSymbol> for Symbol {
    open spec fn obeys_from_spec() -> bool {
        true
    }

    open spec fn from_spec(v: TextSymbol) -> Symbol {
        Symbol::Text(v)
    }
}

/// Symbols of area objects.
#[derive(Debug, Clone, Copy, PartialEq, Eq, Structural, Hash, PartialOrd, Ord)]
pub enum AreaSymbol {
    BrokenGround,
    VeryBrokenGround,
    GiganticBoulder,
    BoulderField,
    DenseBoulderField,
    StonyGroundSlow,
    StonyGroundWalk,
    StonyGroundFight,
    SandyGround,
    BareRock,
    UncrossableWaterWithBankLine,
    UncrossableWaterWithoutBankLine,
    UncrossableWaterDominantWithBankLine,
    UncrossableWaterDominantWithoutBankLine,
    ShallowWaterWithSolidBankLine,
    ShallowWaterWithDashedBankLine,
    ShallowWaterWithoutBankLine,
    SmallShallowWater,
    UncrossableMarshWithBankLine,
    UncrossableMarshWithoutBankLine,
    Marsh,
    IndistinctMarsh,
    OpenLand,
    OpenLandScatteredTrees,
    OpenLandScatteredBushes,
    RoughOpenLand,
    RoughOpenLandScatteredTrees,
    RoughOpenLandScatteredBushes,
    Forest,
    LightGreen,
    LightGreenOneDirectionWhite,
    UnderGrowth,
    MediumGreen,
    MediumGreenOneDirectionWhite,
    MediumGreenOneDirectionLightGreen,
    DenseUnderGrowth,
    DarkGreen,
    DarkGreenOneDirectionWhite,
    DarkGreenOneDirectionLightGreen,
    DarkGreenOneDirectionMediumGreen,
    CultivatedLand,
    Orchard,
    RoughOrchard,
    Vineyard,
    RoughVineyard,
    PavedAreaWithBoundary,
    PavedAreaWithoutBoundary,
    PrivateArea,
    Building,
    LargeBuildingWithOutline,
    LargeBuildingWithoutOutline,
    CanopyWithOutline,
    CanopyWithoutOutline,
    MagneticNorthBlack,
    MagneticNorthBlue,
    OutOfBounds,
}

impl AreaSymbol {
    /// The symbol's id in the compiled-in symbol tables.
    pub open spec fn spec_id(self) -> u8 {
        match self {
            AreaSymbol::BrokenGround => 21,
            AreaSymbol::VeryBrokenGround => 23,
            AreaSymbol::GiganticBoulder => 38,
            AreaSymbol::BoulderField => 41,
            AreaSymbol::DenseBoulderField => 44,
            AreaSymbol::StonyGroundSlow => 45,
            AreaSymbol::StonyGroundWalk => 47,
            AreaSymbol::StonyGroundFight => 48,
            AreaSymbol::SandyGround => 49,
            AreaSymbol::BareRock => 50,
            AreaSymbol::UncrossableWaterWithBankLine => 52,
            AreaSymbol::UncrossableWaterWithoutBankLine => 53,
            AreaSymbol::UncrossableWaterDominantWithBankLine => 54,
            AreaSymbol::UncrossableWaterDominantWithoutBankLine => 55,
            AreaSymbol::ShallowWaterWithSolidBankLine => 57,
            AreaSymbol::ShallowWaterWithDashedBankLine => 58,
            AreaSymbol::ShallowWaterWithoutBankLine => 59,
            AreaSymbol::SmallShallowWater => 62,
            AreaSymbol::UncrossableMarshWithBankLine => 67,
            AreaSymbol::UncrossableMarshWithoutBankLine => 68,
            AreaSymbol::Marsh => 69,
            AreaSymbol::IndistinctMarsh => 72,
            AreaSymbol::OpenLand => 77,
            AreaSymbol::OpenLandScatteredTrees => 78,
            AreaSymbol::OpenLandScatteredBushes => 79,
            AreaSymbol::RoughOpenLand => 80,
            AreaSymbol::RoughOpenLandScatteredTrees => 81,
            AreaSymbol::RoughOpenLandScatteredBushes => 82,
            AreaSymbol::Forest => 83,
            AreaSymbol::LightGreen => 84,
            AreaSymbol::LightGreenOneDirectionWhite => 85,
            AreaSymbol::UnderGrowth => 86,
            AreaSymbol::MediumGreen => 87,
            AreaSymbol::MediumGreenOneDirectionWhite => 88,
            AreaSymbol::MediumGreenOneDirectionLightGreen => 89,
            AreaSymbol::DenseUnderGrowth => 90,
            AreaSymbol::DarkGreen => 91,
            AreaSymbol::DarkGreenOneDirectionWhite => 92,
            AreaSymbol::DarkGreenOneDirectionLightGreen => 93,
            AreaSymbol::DarkGreenOneDirectionMediumGreen => 94,
            AreaSymbol::CultivatedLand => 96,
            AreaSymbol::Orchard => 97,
            AreaSymbol::RoughOrchard => 98,
            AreaSymbol::Vineyard => 99,
            AreaSymbol::RoughVineyard => 100,
            AreaSymbol::PavedAreaWithBoundary => 107,
            AreaSymbol::PavedAreaWithoutBoundary => 108,
            AreaSymbol::PrivateArea => 139,
            AreaSymbol::Building => 141,
            AreaSymbol::LargeBuildingWithOutline => 143,
            AreaSymbol::LargeBuildingWithoutOutline => 144,
            AreaSymbol::CanopyWithOutline => 146,
            AreaSymbol::CanopyWithoutOutline => 147,
            AreaSymbol::MagneticNorthBlack => 160,
            AreaSymbol::MagneticNorthBlue => 161,
            AreaSymbol::OutOfBounds => 167,
        }
    }

    /// The symbol's id in the compiled-in symbol tables.
    pub fn id(&self) -> (r: u8)
        ensures
            r == self.spec_id(),
    {
        match self {
            AreaSymbol::BrokenGround => 21,
            AreaSymbol::VeryBrokenGround => 23,
            AreaSymbol::GiganticBoulder => 38,
            AreaSymbol::BoulderField => 41,
            AreaSymbol::DenseBoulderField => 44,
            AreaSymbol::StonyGroundSlow => 45,
            AreaSymbol::StonyGroundWalk => 47,
            AreaSymbol::StonyGroundFight => 48,
            AreaSymbol::SandyGround => 49,
            AreaSymbol::BareRock => 50,
            AreaSymbol::UncrossableWaterWithBankLine => 52,
            AreaSymbol::UncrossableWaterWithoutBankLine => 53,
            AreaSymbol::UncrossableWaterDominantWithBankLine => 54,
            AreaSymbol::UncrossableWaterDominantWithoutBankLine => 55,
            AreaSymbol::ShallowWaterWithSolidBankLine => 57,
            AreaSymbol::ShallowWaterWithDashedBankLine => 58,
            AreaSymbol::ShallowWaterWithoutBankLine => 59,
            AreaSymbol::SmallShallowWater => 62,
            AreaSymbol::UncrossableMarshWithBankLine => 67,
            AreaSymbol::UncrossableMarshWithoutBankLine => 68,
            AreaSymbol::Marsh => 69,
            AreaSymbol::IndistinctMarsh => 72,
            AreaSymbol::OpenLand => 77,
            AreaSymbol::OpenLandScatteredTrees => 78,
            AreaSymbol::OpenLandScatteredBushes => 79,
            AreaSymbol::RoughOpenLand => 80,
            AreaSymbol::RoughOpenLandScatteredTrees => 81,
            AreaSymbol::RoughOpenLandScatteredBushes => 82,
            AreaSymbol::Forest => 83,
            AreaSymbol::LightGreen => 84,
            AreaSymbol::LightGreenOneDirectionWhite => 85,
            AreaSymbol::UnderGrowth => 86,
            AreaSymbol::MediumGreen => 87,
            AreaSymbol::MediumGreenOneDirectionWhite => 88,
            AreaSymbol::MediumGreenOneDirectionLightGreen => 89,
            AreaSymbol::DenseUnderGrowth => 90,
            AreaSymbol::DarkGreen => 91,
            AreaSymbol::DarkGreenOneDirectionWhite => 92,
            AreaSymbol::DarkGreenOneDirectionLightGreen => 93,
            AreaSymbol::DarkGreenOneDirectionMediumGreen => 94,
            AreaSymbol::CultivatedLand => 96,
            AreaSymbol::Orchard => 97,
            AreaSymbol::RoughOrchard => 98,
            AreaSymbol::Vineyard => 99,
            AreaSymbol::RoughVineyard => 100,
            AreaSymbol::PavedAreaWithBoundary => 107,
            AreaSymbol::PavedAreaWithoutBoundary => 108,
            AreaSymbol::PrivateArea => 139,
            AreaSymbol::Building => 141,
            AreaSymbol::LargeBuildingWithOutline => 143,
            AreaSymbol::LargeBuildingWithoutOutline => 144,
            AreaSymbol::CanopyWithOutline => 146,
            AreaSymbol::CanopyWithoutOutline => 147,
            AreaSymbol::MagneticNorthBlack => 160,
            AreaSymbol::MagneticNorthBlue => 161,
            AreaSymbol::OutOfBounds => 167,
        }
    }

    /// Whether the symbol, or its pattern, can be rotated.
    pub open spec fn spec_is_rotatable(self) -> bool {
        match self {
            AreaSymbol::DarkGreenOneDirectionMediumGreen
            | AreaSymbol::DarkGreenOneDirectionLightGreen
            | AreaSymbol::DarkGreenOneDirectionWhite
            | AreaSymbol::MediumGreenOneDirectionLightGreen
            | AreaSymbol::MediumGreenOneDirectionWhite
            | AreaSymbol::LightGreenOneDirectionWhite
            | AreaSymbol::RoughVineyard
            | AreaSymbol::Vineyard => true,
            _ => false,
        }
    }

    /// Whether the symbol, or its pattern, can be rotated.
    pub fn is_rotatable(&self) -> (r: bool)
        ensures
            r == self.spec_is_rotatable(),
    {
        match self {
            AreaSymbol::DarkGreenOneDirectionMediumGreen
            | AreaSymbol::DarkGreenOneDirectionLightGreen
            | AreaSymbol::DarkGreenOneDirectionWhite
            | AreaSymbol::MediumGreenOneDirectionLightGreen
            | AreaSymbol::MediumGreenOneDirectionWhite
            | AreaSymbol::LightGreenOneDirectionWhite
            | AreaSymbol::RoughVineyard
            | AreaSymbol::Vineyard => true,
            _ => false,
        }
    }
}

/// Symbols of line objects.
#[derive(Debug, Clone, Copy, PartialEq, Eq, Structural, Hash, PartialOrd, Ord)]
pub enum LineSymbol {
    Contour,
    BasemapContour,
    NegBasemapContour,
    IndexContour,
    Formline,
    EarthBank,
    EarthBankTopLine,
    EarthBankTagLine,
    EarthWall,
    RetainingEarthWall,
    RuinedEarthWall,
    ErosionGully,
    SmallErosionGully,
    ImpassableCliff,
    ImpassableCliffTopLine,
    ImpassableCliffTagLine,
    Cliff,
    CliffWithTags,
    Trench,
    BankLine,
    ShallowWaterOutline,
    ShallowWaterDashedOutline,
    CrossableWatercourse,
    SmallCrossableWatercourse,
    SeasonalWatercourse,
    NarrowMarsh,
    Hedge,
    DistinctCultivationBoundary,
    DistinctVegetationBoundary,
    PavedAreaBoundingLine,
    Road,
    RoadDualCarriageway,
    GravelRoad,
    VehicleTrack,
    Footpath,
    SmallFootpath,
    IndistinctFootpath,
    NarrowRide,
    NarrowRideEasyRunning,
    NarrowRideNormalRunning,
    NarrowRideSlowRunning,
    NarrowRideWalk,
    Railway,
    ImpassableRailway,
    SmallPowerline,
    Powerline,
    MajorPowerline,
    MajorPowerlineWithPylons,
    BridgeTunnel,
    Wall,
    RetainingWall,
    RuinedWall,
    ImpassableWall,
    Fence,
    RuinedFence,
    ImpassableFence,
    PrivateAreaBoundingLine,
    LargeBuildingOutline,
    CanopyOutline,
    Ruin,
    ProminentLinearFeature,
    ImpassableProminentLinearFeature,
    Stairway,
    SimpleOrienteeringCourse,
}

impl LineSymbol {
    /// The symbol's id in the compiled-in symbol tables.
    pub open spec fn spec_id(self) -> u8 {
        match self {
            LineSymbol::Contour => 0,
            LineSymbol::BasemapContour => 2,
            LineSymbol::NegBasemapContour => 3,
            LineSymbol::IndexContour => 4,
            LineSymbol::Formline => 6,
            LineSymbol::EarthBank => 8,
            LineSymbol::EarthBankTopLine => 10,
            LineSymbol::EarthBankTagLine => 11,
            LineSymbol::EarthWall => 12,
            LineSymbol::RetainingEarthWall => 13,
            LineSymbol::RuinedEarthWall => 14,
            LineSymbol::ErosionGully => 15,
            LineSymbol::SmallErosionGully => 16,
            LineSymbol::ImpassableCliff => 25,
            LineSymbol::ImpassableCliffTopLine => 27,
            LineSymbol::ImpassableCliffTagLine => 28,
            LineSymbol::Cliff => 29,
            LineSymbol::CliffWithTags => 31,
            LineSymbol::Trench => 51,
            LineSymbol::BankLine => 56,
            LineSymbol::ShallowWaterOutline => 60,
            LineSymbol::ShallowWaterDashedOutline => 61,
            LineSymbol::CrossableWatercourse => 64,
            LineSymbol::SmallCrossableWatercourse => 65,
            LineSymbol::SeasonalWatercourse => 66,
            LineSymbol::NarrowMarsh => 71,
            LineSymbol::Hedge => 95,
            LineSymbol::DistinctCultivationBoundary => 101,
            LineSymbol::DistinctVegetationBoundary => 102,
            LineSymbol::PavedAreaBoundingLine => 109,
            LineSymbol::Road => 110,
            LineSymbol::RoadDualCarriageway => 111,
            LineSymbol::GravelRoad => 112,
            LineSymbol::VehicleTrack => 113,
            LineSymbol::Footpath => 114,
            LineSymbol::SmallFootpath => 115,
            LineSymbol::IndistinctFootpath => 116,
            LineSymbol::NarrowRide => 117,
            LineSymbol::NarrowRideEasyRunning => 118,
            LineSymbol::NarrowRideNormalRunning => 119,
            LineSymbol::NarrowRideSlowRunning => 120,
            LineSymbol::NarrowRideWalk => 121,
            LineSymbol::Railway => 122,
            LineSymbol::ImpassableRailway => 123,
            LineSymbol::SmallPowerline => 124,
            LineSymbol::Powerline => 125,
            LineSymbol::MajorPowerline => 126,
            LineSymbol::MajorPowerlineWithPylons => 127,
            LineSymbol::BridgeTunnel => 128,
            LineSymbol::Wall => 131,
            LineSymbol::RetainingWall => 132,
            LineSymbol::RuinedWall => 133,
            LineSymbol::ImpassableWall => 134,
            LineSymbol::Fence => 135,
            LineSymbol::RuinedFence => 136,
            LineSymbol::ImpassableFence => 137,
            LineSymbol::PrivateAreaBoundingLine => 140,
            LineSymbol::LargeBuildingOutline => 145,
            LineSymbol::CanopyOutline => 148,
            LineSymbol::Ruin => 149,
            LineSymbol::ProminentLinearFeature => 155,
            LineSymbol::ImpassableProminentLinearFeature => 156,
            LineSymbol::Stairway => 159,
            LineSymbol::SimpleOrienteeringCourse => 166,
        }
    }

    /// The symbol's id in the compiled-in symbol tables.
    pub fn id(&self) -> (r: u8)
        ensures
            r == self.spec_id(),
    {
        match self {
            LineSymbol::Contour => 0,
            LineSymbol::BasemapContour => 2,
            LineSymbol::NegBasemapContour => 3,
            LineSymbol::IndexContour => 4,
            LineSymbol::Formline => 6,
            LineSymbol::EarthBank => 8,
            LineSymbol::EarthBankTopLine => 10,
            LineSymbol::EarthBankTagLine => 11,
            LineSymbol::EarthWall => 12,
            LineSymbol::RetainingEarthWall => 13,
            LineSymbol::RuinedEarthWall => 14,
            LineSymbol::ErosionGully => 15,
            LineSymbol::SmallErosionGully => 16,
            LineSymbol::ImpassableCliff => 25,
            LineSymbol::ImpassableCliffTopLine => 27,
            LineSymbol::ImpassableCliffTagLine => 28,
            LineSymbol::Cliff => 29,
            LineSymbol::CliffWithTags => 31,
            LineSymbol::Trench => 51,
            LineSymbol::BankLine => 56,
            LineSymbol::ShallowWaterOutline => 60,
            LineSymbol::ShallowWaterDashedOutline => 61,
            LineSymbol::CrossableWatercourse => 64,
            LineSymbol::SmallCrossableWatercourse => 65,
            LineSymbol::SeasonalWatercourse => 66,
            LineSymbol::NarrowMarsh => 71,
            LineSymbol::Hedge => 95,
            LineSymbol::DistinctCultivationBoundary => 101,
            LineSymbol::DistinctVegetationBoundary => 102,
            LineSymbol::PavedAreaBoundingLine => 109,
            LineSymbol::Road => 110,
            LineSymbol::RoadDualCarriageway => 111,
            LineSymbol::GravelRoad => 112,
            LineSymbol::VehicleTrack => 113,
            LineSymbol::Footpath => 114,
            LineSymbol::SmallFootpath => 115,
            LineSymbol::IndistinctFootpath => 116,
            LineSymbol::NarrowRide => 117,
            LineSymbol::NarrowRideEasyRunning => 118,
            LineSymbol::NarrowRideNormalRunning => 119,
            LineSymbol::NarrowRideSlowRunning => 120,
            LineSymbol::NarrowRideWalk => 121,
            LineSymbol::Railway => 122,
            LineSymbol::ImpassableRailway => 123,
            LineSymbol::SmallPowerline => 124,
            LineSymbol::Powerline => 125,
            LineSymbol::MajorPowerline => 126,
            LineSymbol::MajorPowerlineWithPylons => 127,
            LineSymbol::BridgeTunnel => 128,
            LineSymbol::Wall => 131,
            LineSymbol::RetainingWall => 132,
            LineSymbol::RuinedWall => 133,
            LineSymbol::ImpassableWall => 134,
            LineSymbol::Fence => 135,
            LineSymbol::RuinedFence => 136,
            LineSymbol::ImpassableFence => 137,
            LineSymbol::PrivateAreaBoundingLine => 140,
            LineSymbol::LargeBuildingOutline => 145,
            LineSymbol::CanopyOutline => 148,
            LineSymbol::Ruin => 149,
            LineSymbol::ProminentLinearFeature => 155,
            LineSymbol::ImpassableProminentLinearFeature => 156,
            LineSymbol::Stairway => 159,
            LineSymbol::SimpleOrienteeringCourse => 166,
        }
    }

    /// Whether the symbol, or its pattern, can be rotated.
    pub open spec fn spec_is_rotatable(self) -> bool {
        false
    }

    /// Whether the symbol, or its pattern, can be rotated.
    pub fn is_rotatable(&self) -> (r: bool)
        ensures
            r == self.spec_is_rotatable(),
    {
        false
    }
}

/// Symbols of point objects.
#[derive(Debug, Clone, Copy, PartialEq, Eq, Structural, Hash, PartialOrd, Ord)]
pub enum PointSymbol {
    SlopelineContour,
    SlopelineFormline,
    MinimumEarthBank,
    DotKnoll,
    ElongatedDotKnoll,
    UDepression,
    Pit,
    BrokenGroundSingleDot,
    ProminentLandFeature,
    MinimumImpassableCliff,
    MinimumCliff,
    MinimumCliffWithTags,
    RockyPitCave,
    DangerousPit,
    SmallBoulder,
    MediumBoulder,
    LargeBoulder,
    BoulderCluster,
    LargeBoulderCluster,
    BoulderFieldSingleTriangle,
    BoulderFieldSingleTriangleLarge,
    StonyGroundSingleDot,
    Waterhole,
    MinimumMarsh,
    MinimumIndistinctMarsh,
    Well,
    Spring,
    ProminentWaterFeature,
    ProminentTree,
    ProminentBush,
    ProminentVegetationFeature,
    MinimumBridgeTunnel,
    Footbridge,
    FenceCrossingPoint,
    MinimumBuilding,
    MinimumRuin,
    HighTower,
    Tower,
    Cairn,
    FodderRack,
    ProminentManMadeFeatureO,
    ProminentManMadeFeatureX,
    RegistrationMark,
    SpotHeight,
    OpenOrienteeringMapperLogo,
}

impl PointSymbol {
    /// The symbol's id in the compiled-in symbol tables.
    pub open spec fn spec_id(self) -> u8 {
        match self {
            PointSymbol::SlopelineContour => 1,
            PointSymbol::SlopelineFormline => 7,
            PointSymbol::MinimumEarthBank => 9,
            PointSymbol::DotKnoll => 17,
            PointSymbol::ElongatedDotKnoll => 18,
            PointSymbol::UDepression => 19,
            PointSymbol::Pit => 20,
            PointSymbol::BrokenGroundSingleDot => 22,
            PointSymbol::ProminentLandFeature => 24,
            PointSymbol::MinimumImpassableCliff => 26,
            PointSymbol::MinimumCliff => 30,
            PointSymbol::MinimumCliffWithTags => 32,
            PointSymbol::RockyPitCave => 33,
            PointSymbol::DangerousPit => 34,
            PointSymbol::SmallBoulder => 35,
            PointSymbol::MediumBoulder => 36,
            PointSymbol::LargeBoulder => 37,
            PointSymbol::BoulderCluster => 39,
            PointSymbol::LargeBoulderCluster => 40,
            PointSymbol::BoulderFieldSingleTriangle => 42,
            PointSymbol::BoulderFieldSingleTriangleLarge => 43,
            PointSymbol::StonyGroundSingleDot => 46,
            PointSymbol::Waterhole => 63,
            PointSymbol::MinimumMarsh => 70,
            PointSymbol::MinimumIndistinctMarsh => 73,
            PointSymbol::Well => 74,
            PointSymbol::Spring => 75,
            PointSymbol::ProminentWaterFeature => 76,
            PointSymbol::ProminentTree => 104,
            PointSymbol::ProminentBush => 105,
            PointSymbol::ProminentVegetationFeature => 106,
            PointSymbol::MinimumBridgeTunnel => 129,
            PointSymbol::Footbridge => 130,
            PointSymbol::FenceCrossingPoint => 138,
            PointSymbol::MinimumBuilding => 142,
            PointSymbol::MinimumRuin => 150,
            PointSymbol::HighTower => 151,
            PointSymbol::Tower => 152,
            PointSymbol::Cairn => 153,
            PointSymbol::FodderRack => 154,
            PointSymbol::ProminentManMadeFeatureO => 157,
            PointSymbol::ProminentManMadeFeatureX => 158,
            PointSymbol::RegistrationMark => 162,
            PointSymbol::SpotHeight => 163,
            PointSymbol::OpenOrienteeringMapperLogo => 168,
        }
    }

    /// The symbol's id in the compiled-in symbol tables.
    pub fn id(&self) -> (r: u8)
        ensures
            r == self.spec_id(),
    {
        match self {
            PointSymbol::SlopelineContour => 1,
            PointSymbol::SlopelineFormline => 7,
            PointSymbol::MinimumEarthBank => 9,
            PointSymbol::DotKnoll => 17,
            PointSymbol::ElongatedDotKnoll => 18,
            PointSymbol::UDepression => 19,
            PointSymbol::Pit => 20,
            PointSymbol::BrokenGroundSingleDot => 22,
            PointSymbol::ProminentLandFeature => 24,
            PointSymbol::MinimumImpassableCliff => 26,
            PointSymbol::MinimumCliff => 30,
            PointSymbol::MinimumCliffWithTags => 32,
            PointSymbol::RockyPitCave => 33,
            PointSymbol::DangerousPit => 34,
            PointSymbol::SmallBoulder => 35,
            PointSymbol::MediumBoulder => 36,
            PointSymbol::LargeBoulder => 37,
            PointSymbol::BoulderCluster => 39,
            PointSymbol::LargeBoulderCluster => 40,
            PointSymbol::BoulderFieldSingleTriangle => 42,
            PointSymbol::BoulderFieldSingleTriangleLarge => 43,
            PointSymbol::StonyGroundSingleDot => 46,
            PointSymbol::Waterhole => 63,
            PointSymbol::MinimumMarsh => 70,
            PointSymbol::MinimumIndistinctMarsh => 73,
            PointSymbol::Well => 74,
            PointSymbol::Spring => 75,
            PointSymbol::ProminentWaterFeature => 76,
            PointSymbol::ProminentTree => 104,
            PointSymbol::ProminentBush => 105,
            PointSymbol::ProminentVegetationFeature => 106,
            PointSymbol::MinimumBridgeTunnel => 129,
            PointSymbol::Footbridge => 130,
            PointSymbol::FenceCrossingPoint => 138,
            PointSymbol::MinimumBuilding => 142,
            PointSymbol::MinimumRuin => 150,
            PointSymbol::HighTower => 151,
            PointSymbol::Tower => 152,
            PointSymbol::Cairn => 153,
            PointSymbol::FodderRack => 154,
            PointSymbol::ProminentManMadeFeatureO => 157,
            PointSymbol::ProminentManMadeFeatureX => 158,
            PointSymbol::RegistrationMark => 162,
            PointSymbol::SpotHeight => 163,
            PointSymbol::OpenOrienteeringMapperLogo => 168,
        }
    }

    /// Whether the symbol, or its pattern, can be rotated.
    pub open spec fn spec_is_rotatable(self) -> bool {
        match self {
            PointSymbol::BoulderFieldSingleTriangle
            | PointSymbol::BoulderFieldSingleTriangleLarge
            | PointSymbol::ElongatedDotKnoll
            | PointSymbol::FenceCrossingPoint
            | PointSymbol::Footbridge
            | PointSymbol::MinimumBridgeTunnel
            | PointSymbol::MinimumBuilding
            | PointSymbol::MinimumCliff
            | PointSymbol::MinimumCliffWithTags
            | PointSymbol::MinimumEarthBank
            | PointSymbol::MinimumImpassableCliff
            | PointSymbol::MinimumRuin
            | PointSymbol::RockyPitCave
            | PointSymbol::SlopelineContour
            | PointSymbol::SlopelineFormline
            | PointSymbol::Spring => true,
            _ => false,
        }
    }

    /// Whether the symbol, or its pattern, can be rotated.
    pub fn is_rotatable(&self) -> (r: bool)
        ensures
            r == self.spec_is_rotatable(),
    {
        match self {
            PointSymbol::BoulderFieldSingleTriangle
            | PointSymbol::BoulderFieldSingleTriangleLarge
            | PointSymbol::ElongatedDotKnoll
            | PointSymbol::FenceCrossingPoint
            | PointSymbol::Footbridge
            | PointSymbol::MinimumBridgeTunnel
            | PointSymbol::MinimumBuilding
            | PointSymbol::MinimumCliff
            | PointSymbol::MinimumCliffWithTags
            | PointSymbol::MinimumEarthBank
            | PointSymbol::MinimumImpassableCliff
            | PointSymbol::MinimumRuin
            | PointSymbol::RockyPitCave
            | PointSymbol::SlopelineContour
            | PointSymbol::SlopelineFormline
            | PointSymbol::Spring => true,
            _ => false,
        }
    }
}

/// Symbols of text objects.
#[derive(Debug, Clone, Copy, PartialEq, Eq, Structural, Hash, PartialOrd, Ord)]
pub enum TextSymbol {
    ContourValue,
    SpotHeight,
    ControlNumber,
}

impl TextSymbol {
    /// The symbol's id in the compiled-in symbol tables.
    pub open spec fn spec_id(self) -> u8 {
        match self {
            TextSymbol::ContourValue => 5,
            TextSymbol::SpotHeight => 164,
            TextSymbol::ControlNumber => 165,
        }
    }

    /// The symbol's id in the compiled-in symbol tables.
    pub fn id(&self) -> (r: u8)
        ensures
            r == self.spec_id(),
    {
        match self {
            TextSymbol::ContourValue => 5,
            TextSymbol::SpotHeight => 164,
            TextSymbol::ControlNumber => 165,
        }
    }

    /// Whether the symbol, or its pattern, can be rotated.
    pub open spec fn spec_is_rotatable(self) -> bool {
        false
    }

    /// Whether the symbol, or its pattern, can be rotated.
    pub fn is_rotatable(&self) -> (r: bool)
        ensures
            r == self.spec_is_rotatable(),
    {
        false
    }
}

} // verus!
