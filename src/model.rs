//! The typed feature graph of a city model. Each feature holds its base layer
//! (`Building` holds an `OccupiedSpace`, which holds a `Space`, which holds a
//! `CityObject`) and owns its children. Geometry values are egml's types,
//! carried through unread; the views record which geometry fields are present.
use egml::model::geometry::aggregates::MultiSurface;
use egml::model::geometry::primitives::Solid;
use egml::model::geometry::DirectPosition;
use vstd::prelude::*;

verus! {

#[verifier::external_type_specification]
#[verifier::external_body]
pub struct ExMultiSurface(MultiSurface);

#[verifier::external_type_specification]
#[verifier::external_body]
pub struct ExSolid(Solid);

#[verifier::external_type_specification]
#[verifier::external_body]
pub struct ExDirectPosition(DirectPosition);

/// Relies on egml's derived `Clone` for `MultiSurface`: the copy equals the value copied.
pub assume_specification[ <MultiSurface as Clone>::clone ](g: &MultiSurface) -> (r: MultiSurface)
    ensures
        r == *g,
;

/// Relies on egml's derived `Clone` for `Solid`: the copy equals the value copied.
pub assume_specification[ <Solid as Clone>::clone ](g: &Solid) -> (r: Solid)
    ensures
        r == *g,
;

/// Relies on egml's derived `Clone` for `DirectPosition`: the copy equals the value copied.
pub assume_specification[ <DirectPosition as Clone>::clone ](p: &DirectPosition) -> (r: DirectPosition)
    ensures
        r == *p,
;

/// A stable object identifier: a non-empty text.
#[derive(Clone, Debug)]
pub struct Id {
    value: String,
}

impl View for Id {
    type V = Seq<char>;

    closed spec fn view(&self) -> Seq<char> {
        self.value@
    }
}

impl Id {
    pub open spec fn wf(&self) -> bool {
        self@.len() > 0
    }

    /// An identifier with the given text; `None` for an empty text.
    pub fn try_from_string(value: String) -> (r: Option<Id>)
        ensures
            r matches Some(id) ==> id@ == value@ && id.wf(),
            r is None <==> value@.len() == 0,
    {
        if value.as_str().unicode_len() == 0 {
            None
        } else {
            Some(Id { value })
        }
    }

    /// An identifier with the given text; `None` for an empty text.
    pub fn try_from_str(value: &str) -> (r: Option<Id>)
        ensures
            r matches Some(id) ==> id@ == value@ && id.wf(),
            r is None <==> value@.len() == 0,
    {
        Id::try_from_string(value.to_owned())
    }

    /// The empty text, standing for no owner; not a valid identifier.
    pub fn unowned() -> (r: Id)
        ensures
            r@ == Seq::<char>::empty(),
    {
        Id { value: String::new() }
    }

    pub fn as_str(&self) -> (r: &str)
        ensures
            r@ == self@,
    {
        self.value.as_str()
    }

    /// A copy of this identifier.
    pub fn duplicate(&self) -> (r: Id)
        ensures
            r@ == self@,
    {
        Id { value: self.value.clone() }
    }
}

/// Identity of a feature: its identifier and its names.
#[derive(Clone, Debug)]
pub struct Gml {
    pub id: Id,
    pub name: Vec<String>,
}

pub struct GmlView {
    pub id: Seq<char>,
    pub name: Seq<Seq<char>>,
}

impl View for Gml {
    type V = GmlView;

    open spec fn view(&self) -> GmlView {
        GmlView { id: self.id@, name: self.name@.map_values(|s: String| s@) }
    }
}

impl Gml {
    /// A copy of this identity.
    pub fn duplicate(&self) -> (r: Gml)
        ensures
            r@ == self@,
    {
        let mut name: Vec<String> = Vec::new();
        let mut i: usize = 0;
        while i < self.name.len()
            invariant
                i <= self.name@.len(),
                name@ == self.name@.subrange(0, i as int),
            decreases self.name.len() - i,
        {
            name.push(self.name[i].clone());
            assert(name@ =~= self.name@.subrange(0, i + 1));
            i = i + 1;
        }
        assert(name@ =~= self.name@);
        Gml { id: self.id.duplicate(), name }
    }
}

#[derive(Clone, Debug)]
pub struct StringAttribute {
    pub name: String,
    pub value: String,
}

#[derive(Clone, Debug)]
pub struct IntAttribute {
    pub name: String,
    pub value: i64,
}

/// A floating-point attribute, held as the decimal text of its value.
#[derive(Clone, Debug)]
pub struct DoubleAttribute {
    pub name: String,
    pub value: String,
}

/// A named attribute of a feature.
#[derive(Clone, Debug)]
pub enum GenericAttribute {
    String(StringAttribute),
    Int(IntAttribute),
    Double(DoubleAttribute),
}

pub enum AttributeView {
    Text(Seq<char>, Seq<char>),
    Integer(Seq<char>, i64),
    Decimal(Seq<char>, Seq<char>),
}

impl View for GenericAttribute {
    type V = AttributeView;

    open spec fn view(&self) -> AttributeView {
        match self {
            GenericAttribute::String(a) => AttributeView::Text(a.name@, a.value@),
            GenericAttribute::Int(a) => AttributeView::Integer(a.name@, a.value),
            GenericAttribute::Double(a) => AttributeView::Decimal(a.name@, a.value@),
        }
    }
}

impl GenericAttribute {
    pub open spec fn spec_name(&self) -> Seq<char> {
        match self {
            GenericAttribute::String(a) => a.name@,
            GenericAttribute::Int(a) => a.name@,
            GenericAttribute::Double(a) => a.name@,
        }
    }

    pub fn name(&self) -> (r: &str)
        ensures
            r@ == self.spec_name(),
    {
        match self {
            GenericAttribute::String(a) => a.name.as_str(),
            GenericAttribute::Int(a) => a.name.as_str(),
            GenericAttribute::Double(a) => a.name.as_str(),
        }
    }

    pub fn as_string(&self) -> (r: Option<&StringAttribute>)
        ensures
            r matches Some(a) ==> *self == GenericAttribute::String(*a),
            r is None <==> !(self is String),
    {
        match self {
            GenericAttribute::String(a) => Some(a),
            _ => None,
        }
    }

    pub fn as_int(&self) -> (r: Option<&IntAttribute>)
        ensures
            r matches Some(a) ==> *self == GenericAttribute::Int(*a),
            r is None <==> !(self is Int),
    {
        match self {
            GenericAttribute::Int(a) => Some(a),
            _ => None,
        }
    }

    pub fn as_double(&self) -> (r: Option<&DoubleAttribute>)
        ensures
            r matches Some(a) ==> *self == GenericAttribute::Double(*a),
            r is None <==> !(self is Double),
    {
        match self {
            GenericAttribute::Double(a) => Some(a),
            _ => None,
        }
    }
}

/// Base of every feature: identity and generic attributes.
#[derive(Clone, Debug)]
pub struct CityObject {
    pub gml: Gml,
    pub generic_attributes: Vec<GenericAttribute>,
}

pub struct CityObjectView {
    pub gml: GmlView,
    pub generic_attributes: Seq<AttributeView>,
}

impl View for CityObject {
    type V = CityObjectView;

    open spec fn view(&self) -> CityObjectView {
        CityObjectView {
            gml: self.gml@,
            generic_attributes: self.generic_attributes@.map_values(|a: GenericAttribute| a@),
        }
    }
}

impl CityObject {
    pub fn new(gml: Gml, generic_attributes: Vec<GenericAttribute>) -> (r: Self)
        ensures
            r.gml == gml,
            r.generic_attributes == generic_attributes,
    {
        CityObject { gml, generic_attributes }
    }
}

/// A point with a (prototype) geometry resolved elsewhere.
#[derive(Clone, Debug)]
pub struct ImplicitGeometry {
    pub reference_point: DirectPosition,
}

impl ImplicitGeometry {
    /// A copy of this implicit geometry.
    pub fn duplicate(&self) -> (r: Self)
        ensures
            r == *self,
    {
        ImplicitGeometry { reference_point: self.reference_point.clone() }
    }

    pub fn new(reference_point: DirectPosition) -> (r: Self)
        ensures
            r.reference_point == reference_point,
    {
        ImplicitGeometry { reference_point }
    }
}

/// A city object with volume: solids at LoD 1 to 3, multi-surfaces at LoD 0, 2, 3.
#[derive(Clone, Debug)]
pub struct Space {
    pub city_object: CityObject,
    pub lod1_solid: Option<Solid>,
    pub lod2_solid: Option<Solid>,
    pub lod3_solid: Option<Solid>,
    pub lod0_multi_surface: Option<MultiSurface>,
    pub lod2_multi_surface: Option<MultiSurface>,
    pub lod3_multi_surface: Option<MultiSurface>,
}

pub struct SpaceView {
    pub city_object: CityObjectView,
    pub lod1_solid: bool,
    pub lod2_solid: bool,
    pub lod3_solid: bool,
    pub lod0_multi_surface: bool,
    pub lod2_multi_surface: bool,
    pub lod3_multi_surface: bool,
}

impl View for Space {
    type V = SpaceView;

    open spec fn view(&self) -> SpaceView {
        SpaceView {
            city_object: self.city_object@,
            lod1_solid: self.lod1_solid is Some,
            lod2_solid: self.lod2_solid is Some,
            lod3_solid: self.lod3_solid is Some,
            lod0_multi_surface: self.lod0_multi_surface is Some,
            lod2_multi_surface: self.lod2_multi_surface is Some,
            lod3_multi_surface: self.lod3_multi_surface is Some,
        }
    }
}

impl Space {
    pub fn new(city_object: CityObject) -> (r: Self)
        ensures
            r.city_object == city_object,
            r@ == (SpaceView {
                city_object: city_object@,
                lod1_solid: false,
                lod2_solid: false,
                lod3_solid: false,
                lod0_multi_surface: false,
                lod2_multi_surface: false,
                lod3_multi_surface: false,
            }),
    {
        Space {
            city_object,
            lod1_solid: None,
            lod2_solid: None,
            lod3_solid: None,
            lod0_multi_surface: None,
            lod2_multi_surface: None,
            lod3_multi_surface: None,
        }
    }
}

/// A space that may also be represented by implicit geometry at LoD 1 to 3.
#[derive(Clone, Debug)]
pub struct OccupiedSpace {
    pub space: Space,
    pub lod1_implicit_representation: Option<ImplicitGeometry>,
    pub lod2_implicit_representation: Option<ImplicitGeometry>,
    pub lod3_implicit_representation: Option<ImplicitGeometry>,
}

pub struct OccupiedSpaceView {
    pub space: SpaceView,
    pub lod1_implicit_representation: bool,
    pub lod2_implicit_representation: bool,
    pub lod3_implicit_representation: bool,
}

impl View for OccupiedSpace {
    type V = OccupiedSpaceView;

    open spec fn view(&self) -> OccupiedSpaceView {
        OccupiedSpaceView {
            space: self.space@,
            lod1_implicit_representation: self.lod1_implicit_representation is Some,
            lod2_implicit_representation: self.lod2_implicit_representation is Some,
            lod3_implicit_representation: self.lod3_implicit_representation is Some,
        }
    }
}

impl OccupiedSpace {
    pub fn new(space: Space) -> (r: Self)
        ensures
            r.space == space,
            r@ == (OccupiedSpaceView {
                space: space@,
                lod1_implicit_representation: false,
                lod2_implicit_representation: false,
                lod3_implicit_representation: false,
            }),
    {
        OccupiedSpace {
            space,
            lod1_implicit_representation: None,
            lod2_implicit_representation: None,
            lod3_implicit_representation: None,
        }
    }
}

/// A bounding surface: multi-surfaces at LoD 0 to 3.
#[derive(Clone, Debug)]
pub struct ThematicSurface {
    pub city_object: CityObject,
    pub lod0_multi_surface: Option<MultiSurface>,
    pub lod1_multi_surface: Option<MultiSurface>,
    pub lod2_multi_surface: Option<MultiSurface>,
    pub lod3_multi_surface: Option<MultiSurface>,
}

pub struct ThematicSurfaceView {
    pub city_object: CityObjectView,
    pub lod0_multi_surface: bool,
    pub lod1_multi_surface: bool,
    pub lod2_multi_surface: bool,
    pub lod3_multi_surface: bool,
}

impl View for ThematicSurface {
    type V = ThematicSurfaceView;

    open spec fn view(&self) -> ThematicSurfaceView {
        ThematicSurfaceView {
            city_object: self.city_object@,
            lod0_multi_surface: self.lod0_multi_surface is Some,
            lod1_multi_surface: self.lod1_multi_surface is Some,
            lod2_multi_surface: self.lod2_multi_surface is Some,
            lod3_multi_surface: self.lod3_multi_surface is Some,
        }
    }
}

impl ThematicSurface {
    pub fn new(city_object: CityObject) -> (r: Self)
        ensures
            r.city_object == city_object,
            r@ == (ThematicSurfaceView {
                city_object: city_object@,
                lod0_multi_surface: false,
                lod1_multi_surface: false,
                lod2_multi_surface: false,
                lod3_multi_surface: false,
            }),
    {
        ThematicSurface {
            city_object,
            lod0_multi_surface: None,
            lod1_multi_surface: None,
            lod2_multi_surface: None,
            lod3_multi_surface: None,
        }
    }
}

/// A roof surface of a building.
#[derive(Clone, Debug)]
pub struct RoofSurface {
    pub thematic_surface: ThematicSurface,
}

impl View for RoofSurface {
    type V = ThematicSurfaceView;

    open spec fn view(&self) -> ThematicSurfaceView {
        self.thematic_surface@
    }
}

impl RoofSurface {
    pub fn new(thematic_surface: ThematicSurface) -> (r: Self)
        ensures
            r.thematic_surface == thematic_surface,
    {
        RoofSurface { thematic_surface }
    }
}

/// A ground surface of a building.
#[derive(Clone, Debug)]
pub struct GroundSurface {
    pub thematic_surface: ThematicSurface,
}

impl View for GroundSurface {
    type V = ThematicSurfaceView;

    open spec fn view(&self) -> ThematicSurfaceView {
        self.thematic_surface@
    }
}

impl GroundSurface {
    pub fn new(thematic_surface: ThematicSurface) -> (r: Self)
        ensures
            r.thematic_surface == thematic_surface,
    {
        GroundSurface { thematic_surface }
    }
}

/// A door in a wall surface.
#[derive(Clone, Debug)]
pub struct DoorSurface {
    pub occupied_space: OccupiedSpace,
}

impl View for DoorSurface {
    type V = OccupiedSpaceView;

    open spec fn view(&self) -> OccupiedSpaceView {
        self.occupied_space@
    }
}

impl DoorSurface {
    pub fn new(occupied_space: OccupiedSpace) -> (r: Self)
        ensures
            r.occupied_space == occupied_space,
    {
        DoorSurface { occupied_space }
    }
}

/// A window in a wall surface.
#[derive(Clone, Debug)]
pub struct WindowSurface {
    pub occupied_space: OccupiedSpace,
}

impl View for WindowSurface {
    type V = OccupiedSpaceView;

    open spec fn view(&self) -> OccupiedSpaceView {
        self.occupied_space@
    }
}

impl WindowSurface {
    pub fn new(occupied_space: OccupiedSpace) -> (r: Self)
        ensures
            r.occupied_space == occupied_space,
    {
        WindowSurface { occupied_space }
    }
}

/// A constructive element of a building.
#[derive(Clone, Debug)]
pub struct BuildingConstructiveElement {
    pub occupied_space: OccupiedSpace,
}

impl View for BuildingConstructiveElement {
    type V = OccupiedSpaceView;

    open spec fn view(&self) -> OccupiedSpaceView {
        self.occupied_space@
    }
}

impl BuildingConstructiveElement {
    pub fn new(occupied_space: OccupiedSpace) -> (r: Self)
        ensures
            r.occupied_space == occupied_space,
    {
        BuildingConstructiveElement { occupied_space }
    }
}

/// A traffic area of a traffic space.
#[derive(Clone, Debug)]
pub struct TrafficArea {
    pub thematic_surface: ThematicSurface,
}

impl View for TrafficArea {
    type V = ThematicSurfaceView;

    open spec fn view(&self) -> ThematicSurfaceView {
        self.thematic_surface@
    }
}

impl TrafficArea {
    pub fn new(thematic_surface: ThematicSurface) -> (r: Self)
        ensures
            r.thematic_surface == thematic_surface,
    {
        TrafficArea { thematic_surface }
    }
}

/// An auxiliary traffic area of an auxiliary traffic space.
#[derive(Clone, Debug)]
pub struct AuxiliaryTrafficArea {
    pub thematic_surface: ThematicSurface,
}

impl View for AuxiliaryTrafficArea {
    type V = ThematicSurfaceView;

    open spec fn view(&self) -> ThematicSurfaceView {
        self.thematic_surface@
    }
}

impl AuxiliaryTrafficArea {
    pub fn new(thematic_surface: ThematicSurface) -> (r: Self)
        ensures
            r.thematic_surface == thematic_surface,
    {
        AuxiliaryTrafficArea { thematic_surface }
    }
}

/// A piece of city furniture.
#[derive(Clone, Debug)]
pub struct CityFurniture {
    pub occupied_space: OccupiedSpace,
}

impl View for CityFurniture {
    type V = OccupiedSpaceView;

    open spec fn view(&self) -> OccupiedSpaceView {
        self.occupied_space@
    }
}

impl CityFurniture {
    pub fn new(occupied_space: OccupiedSpace) -> (r: Self)
        ensures
            r.occupied_space == occupied_space,
    {
        CityFurniture { occupied_space }
    }
}

/// A solitary vegetation object.
#[derive(Clone, Debug)]
pub struct SolitaryVegetationObject {
    pub occupied_space: OccupiedSpace,
}

impl View for SolitaryVegetationObject {
    type V = OccupiedSpaceView;

    open spec fn view(&self) -> OccupiedSpaceView {
        self.occupied_space@
    }
}

impl SolitaryVegetationObject {
    pub fn new(occupied_space: OccupiedSpace) -> (r: Self)
        ensures
            r.occupied_space == occupied_space,
    {
        SolitaryVegetationObject { occupied_space }
    }
}

/// A wall surface with its doors and windows.
#[derive(Clone, Debug)]
pub struct WallSurface {
    pub thematic_surface: ThematicSurface,
    pub door_surface: Vec<DoorSurface>,
    pub window_surface: Vec<WindowSurface>,
}

pub struct WallSurfaceView {
    pub thematic_surface: ThematicSurfaceView,
    pub door_surface: Seq<OccupiedSpaceView>,
    pub window_surface: Seq<OccupiedSpaceView>,
}

impl View for WallSurface {
    type V = WallSurfaceView;

    open spec fn view(&self) -> WallSurfaceView {
        WallSurfaceView {
            thematic_surface: self.thematic_surface@,
            door_surface: self.door_surface@.map_values(|x: DoorSurface| x@),
            window_surface: self.window_surface@.map_values(|x: WindowSurface| x@),
        }
    }
}

impl WallSurface {
    /// A feature with the given base and no children.
    pub fn new(thematic_surface: ThematicSurface) -> (r: Self)
        ensures
            r.thematic_surface == thematic_surface,
            r.door_surface@.len() == 0,
            r.window_surface@.len() == 0,
    {
        WallSurface {
            thematic_surface,
            door_surface: Vec::new(),
            window_surface: Vec::new(),
        }
    }
}

/// A building with its bounding surfaces and constructive elements.
#[derive(Clone, Debug)]
pub struct Building {
    pub occupied_space: OccupiedSpace,
    pub wall_surface: Vec<WallSurface>,
    pub roof_surface: Vec<RoofSurface>,
    pub ground_surface: Vec<GroundSurface>,
    pub building_constructive_element: Vec<BuildingConstructiveElement>,
}

pub struct BuildingView {
    pub occupied_space: OccupiedSpaceView,
    pub wall_surface: Seq<WallSurfaceView>,
    pub roof_surface: Seq<ThematicSurfaceView>,
    pub ground_surface: Seq<ThematicSurfaceView>,
    pub building_constructive_element: Seq<OccupiedSpaceView>,
}

impl View for Building {
    type V = BuildingView;

    open spec fn view(&self) -> BuildingView {
        BuildingView {
            occupied_space: self.occupied_space@,
            wall_surface: self.wall_surface@.map_values(|x: WallSurface| x@),
            roof_surface: self.roof_surface@.map_values(|x: RoofSurface| x@),
            ground_surface: self.ground_surface@.map_values(|x: GroundSurface| x@),
            building_constructive_element: self.building_constructive_element@.map_values(|x: BuildingConstructiveElement| x@),
        }
    }
}

impl Building {
    /// A feature with the given base and no children.
    pub fn new(occupied_space: OccupiedSpace) -> (r: Self)
        ensures
            r.occupied_space == occupied_space,
            r.wall_surface@.len() == 0,
            r.roof_surface@.len() == 0,
            r.ground_surface@.len() == 0,
            r.building_constructive_element@.len() == 0,
    {
        Building {
            occupied_space,
            wall_surface: Vec::new(),
            roof_surface: Vec::new(),
            ground_surface: Vec::new(),
            building_constructive_element: Vec::new(),
        }
    }
}

/// A traffic space with its traffic areas.
#[derive(Clone, Debug)]
pub struct TrafficSpace {
    pub space: Space,
    pub traffic_area: Vec<TrafficArea>,
}

pub struct TrafficSpaceView {
    pub space: SpaceView,
    pub traffic_area: Seq<ThematicSurfaceView>,
}

impl View for TrafficSpace {
    type V = TrafficSpaceView;

    open spec fn view(&self) -> TrafficSpaceView {
        TrafficSpaceView {
            space: self.space@,
            traffic_area: self.traffic_area@.map_values(|x: TrafficArea| x@),
        }
    }
}

impl TrafficSpace {
    /// A feature with the given base and no children.
    pub fn new(space: Space) -> (r: Self)
        ensures
            r.space == space,
            r.traffic_area@.len() == 0,
    {
        TrafficSpace {
            space,
            traffic_area: Vec::new(),
        }
    }
}

/// An auxiliary traffic space with its areas.
#[derive(Clone, Debug)]
pub struct AuxiliaryTrafficSpace {
    pub space: Space,
    pub auxiliary_traffic_area: Vec<AuxiliaryTrafficArea>,
}

pub struct AuxiliaryTrafficSpaceView {
    pub space: SpaceView,
    pub auxiliary_traffic_area: Seq<ThematicSurfaceView>,
}

impl View for AuxiliaryTrafficSpace {
    type V = AuxiliaryTrafficSpaceView;

    open spec fn view(&self) -> AuxiliaryTrafficSpaceView {
        AuxiliaryTrafficSpaceView {
            space: self.space@,
            auxiliary_traffic_area: self.auxiliary_traffic_area@.map_values(|x: AuxiliaryTrafficArea| x@),
        }
    }
}

impl AuxiliaryTrafficSpace {
    /// A feature with the given base and no children.
    pub fn new(space: Space) -> (r: Self)
        ensures
            r.space == space,
            r.auxiliary_traffic_area@.len() == 0,
    {
        AuxiliaryTrafficSpace {
            space,
            auxiliary_traffic_area: Vec::new(),
        }
    }
}

/// A section of a road.
#[derive(Clone, Debug)]
pub struct Section {
    pub space: Space,
    pub traffic_space: Vec<TrafficSpace>,
    pub auxiliary_traffic_space: Vec<AuxiliaryTrafficSpace>,
}

pub struct SectionView {
    pub space: SpaceView,
    pub traffic_space: Seq<TrafficSpaceView>,
    pub auxiliary_traffic_space: Seq<AuxiliaryTrafficSpaceView>,
}

impl View for Section {
    type V = SectionView;

    open spec fn view(&self) -> SectionView {
        SectionView {
            space: self.space@,
            traffic_space: self.traffic_space@.map_values(|x: TrafficSpace| x@),
            auxiliary_traffic_space: self.auxiliary_traffic_space@.map_values(|x: AuxiliaryTrafficSpace| x@),
        }
    }
}

impl Section {
    /// A feature with the given base and no children.
    pub fn new(space: Space) -> (r: Self)
        ensures
            r.space == space,
            r.traffic_space@.len() == 0,
            r.auxiliary_traffic_space@.len() == 0,
    {
        Section {
            space,
            traffic_space: Vec::new(),
            auxiliary_traffic_space: Vec::new(),
        }
    }
}

/// An intersection of a road.
#[derive(Clone, Debug)]
pub struct Intersection {
    pub space: Space,
    pub traffic_space: Vec<TrafficSpace>,
    pub auxiliary_traffic_space: Vec<AuxiliaryTrafficSpace>,
}

pub struct IntersectionView {
    pub space: SpaceView,
    pub traffic_space: Seq<TrafficSpaceView>,
    pub auxiliary_traffic_space: Seq<AuxiliaryTrafficSpaceView>,
}

impl View for Intersection {
    type V = IntersectionView;

    open spec fn view(&self) -> IntersectionView {
        IntersectionView {
            space: self.space@,
            traffic_space: self.traffic_space@.map_values(|x: TrafficSpace| x@),
            auxiliary_traffic_space: self.auxiliary_traffic_space@.map_values(|x: AuxiliaryTrafficSpace| x@),
        }
    }
}

impl Intersection {
    /// A feature with the given base and no children.
    pub fn new(space: Space) -> (r: Self)
        ensures
            r.space == space,
            r.traffic_space@.len() == 0,
            r.auxiliary_traffic_space@.len() == 0,
    {
        Intersection {
            space,
            traffic_space: Vec::new(),
            auxiliary_traffic_space: Vec::new(),
        }
    }
}

/// A road with its sections and intersections.
#[derive(Clone, Debug)]
pub struct Road {
    pub space: Space,
    pub section: Vec<Section>,
    pub intersection: Vec<Intersection>,
}

pub struct RoadView {
    pub space: SpaceView,
    pub section: Seq<SectionView>,
    pub intersection: Seq<IntersectionView>,
}

impl View for Road {
    type V = RoadView;

    open spec fn view(&self) -> RoadView {
        RoadView {
            space: self.space@,
            section: self.section@.map_values(|x: Section| x@),
            intersection: self.intersection@.map_values(|x: Intersection| x@),
        }
    }
}

impl Road {
    /// A feature with the given base and no children.
    pub fn new(space: Space) -> (r: Self)
        ensures
            r.space == space,
            r.section@.len() == 0,
            r.intersection@.len() == 0,
    {
        Road {
            space,
            section: Vec::new(),
            intersection: Vec::new(),
        }
    }
}

/// A city model: the top-level features of one or more documents.
#[derive(Clone, Debug)]
pub struct CitygmlModel {
    pub building: Vec<Building>,
    pub city_furniture: Vec<CityFurniture>,
    pub road: Vec<Road>,
    pub solitary_vegetation_object: Vec<SolitaryVegetationObject>,
}

pub struct ModelView {
    pub building: Seq<BuildingView>,
    pub city_furniture: Seq<OccupiedSpaceView>,
    pub road: Seq<RoadView>,
    pub solitary_vegetation_object: Seq<OccupiedSpaceView>,
}

impl View for CitygmlModel {
    type V = ModelView;

    open spec fn view(&self) -> ModelView {
        ModelView {
            building: self.building@.map_values(|x: Building| x@),
            city_furniture: self.city_furniture@.map_values(|x: CityFurniture| x@),
            road: self.road@.map_values(|x: Road| x@),
            solitary_vegetation_object: self.solitary_vegetation_object@.map_values(|x: SolitaryVegetationObject| x@),
        }
    }
}

pub open spec fn empty_model() -> ModelView {
    ModelView {
        building: Seq::empty(),
        city_furniture: Seq::empty(),
        road: Seq::empty(),
        solitary_vegetation_object: Seq::empty(),
    }
}

/// The models concatenated collection by collection, in order.
pub open spec fn merged_view(ms: Seq<ModelView>) -> ModelView
    decreases ms.len(),
{
    if ms.len() == 0 {
        empty_model()
    } else {
        let a = merged_view(ms.drop_last());
        let b = ms.last();
        ModelView {
            building: a.building + b.building,
            city_furniture: a.city_furniture + b.city_furniture,
            road: a.road + b.road,
            solitary_vegetation_object: a.solitary_vegetation_object + b.solitary_vegetation_object,
        }
    }
}

impl CitygmlModel {
    pub fn new(
        building: Vec<Building>,
        city_furniture: Vec<CityFurniture>,
        road: Vec<Road>,
        solitary_vegetation_object: Vec<SolitaryVegetationObject>,
    ) -> (r: Self)
        ensures
            r.building == building,
            r.city_furniture == city_furniture,
            r.road == road,
            r.solitary_vegetation_object == solitary_vegetation_object,
    {
        CitygmlModel { building, city_furniture, road, solitary_vegetation_object }
    }

    /// A model without features.
    pub fn empty() -> (r: Self)
        ensures
            r@ == empty_model(),
    {
        let r = CitygmlModel::new(Vec::new(), Vec::new(), Vec::new(), Vec::new());
        proof {
            assert(r@.building =~= Seq::empty());
            assert(r@.city_furniture =~= Seq::empty());
            assert(r@.road =~= Seq::empty());
            assert(r@.solitary_vegetation_object =~= Seq::empty());
        }
        r
    }

    /// Merges models by concatenating each collection, in the order given.
    pub fn from_citygml_models(citygml_models: Vec<Self>) -> (r: Self)
        ensures
            r@ == merged_view(citygml_models@.map_values(|m: CitygmlModel| m@)),
    {
        let mut r = CitygmlModel::empty();
        let mut models = citygml_models;
        let ghost orig = models@;
        let ghost all = orig.map_values(|m: CitygmlModel| m@);
        let n = models.len();
        let mut i: usize = 0;
        proof {
            assert(all.subrange(0, 0) =~= Seq::<ModelView>::empty());
            assert(orig.subrange(0, n as int) =~= orig);
        }
        while i < n
            invariant
                n == orig.len(),
                i <= n,
                all == orig.map_values(|m: CitygmlModel| m@),
                models@ == orig.subrange(i as int, n as int),
                r@ == merged_view(all.subrange(0, i as int)),
            decreases n - i,
        {
            let ghost before = r@;
            let mut m = models.remove(0);
            assert(m == orig[i as int]);
            let ghost mv = m@;
            r.building.append(&mut m.building);
            r.city_furniture.append(&mut m.city_furniture);
            r.road.append(&mut m.road);
            r.solitary_vegetation_object.append(&mut m.solitary_vegetation_object);
            proof {
                assert(all.subrange(0, i + 1).drop_last() =~= all.subrange(0, i as int));
                assert(all.subrange(0, i + 1).last() == mv);
                assert(r@.building =~= before.building + mv.building);
                assert(r@.city_furniture =~= before.city_furniture + mv.city_furniture);
                assert(r@.road =~= before.road + mv.road);
                assert(r@.solitary_vegetation_object =~= before.solitary_vegetation_object + mv.solitary_vegetation_object);
                assert(models@ =~= orig.subrange(i + 1, n as int));
            }
            i = i + 1;
        }
        proof {
            assert(all.subrange(0, n as int) =~= all);
        }
        r
    }

    /// Whether the model holds no top-level feature.
    pub fn is_empty(&self) -> (r: bool)
        ensures
            r == (self.building@.len() == 0 && self.city_furniture@.len() == 0 && self.road@.len() == 0
                && self.solitary_vegetation_object@.len() == 0),
    {
        self.building.len() == 0 && self.city_furniture.len() == 0 && self.road.len() == 0
            && self.solitary_vegetation_object.len() == 0
    }

    /// The number of top-level features; nested features are not counted.
    pub fn number_of_objects(&self) -> (r: usize)
        requires
            self.building@.len() + self.city_furniture@.len() + self.road@.len()
                + self.solitary_vegetation_object@.len() <= usize::MAX,
        ensures
            r == self.building@.len() + self.city_furniture@.len() + self.road@.len()
                + self.solitary_vegetation_object@.len(),
    {
        self.building.len() + self.city_furniture.len() + self.road.len() + self.solitary_vegetation_object.len()
    }
}

} // verus!
