//! The geometry collector: a visitor that gathers, per feature with geometry,
//! its class and its geometry by level of detail, keyed by the feature's
//! identifier.
use crate::model::{
    AuxiliaryTrafficArea, AuxiliaryTrafficSpace, Building, BuildingConstructiveElement, CityFurniture,
    CitygmlModel, DoorSurface, Gml, GmlView, GroundSurface, ImplicitGeometry, Intersection, OccupiedSpace,
    Road, RoofSurface, Section, SolitaryVegetationObject, Space, ThematicSurface, TrafficArea, TrafficSpace,
    WallSurface, WindowSurface,
};
use crate::visitor::{run, CityObjectVisitor, Node};
use egml::model::geometry::aggregates::MultiSurface;
use egml::model::geometry::primitives::Solid;
use vstd::prelude::*;

verus! {

/// A level of detail.
#[derive(Clone, Copy, Debug, PartialEq, Eq, Structural)]
pub enum LevelOfDetail {
    Zero,
    One,
    Two,
    Three,
}

/// The class of a feature with geometry.
#[derive(Clone, Copy, Debug, PartialEq, Eq, Structural)]
pub enum CityObjectClass {
    AuxiliaryTrafficArea,
    AuxiliaryTrafficSpace,
    BuildingConstructiveElement,
    CityFurniture,
    DoorSurface,
    GroundSurface,
    RoofSurface,
    SolitaryVegetationObject,
    TrafficArea,
    TrafficSpace,
    WallSurface,
    WindowSurface,
}

/// The geometry of one feature, by level of detail (in increasing order).
#[derive(Debug)]
pub struct CityObjectGeometryCollection {
    pub gml: Gml,
    pub class: CityObjectClass,
    pub implicit_geometries: Vec<(LevelOfDetail, ImplicitGeometry)>,
    pub multi_surfaces: Vec<(LevelOfDetail, MultiSurface)>,
    pub solids: Vec<(LevelOfDetail, Solid)>,
}

pub struct RecordView {
    pub gml: GmlView,
    pub class: CityObjectClass,
    pub implicit_geometries: Seq<(LevelOfDetail, ImplicitGeometry)>,
    pub multi_surfaces: Seq<(LevelOfDetail, MultiSurface)>,
    pub solids: Seq<(LevelOfDetail, Solid)>,
}

impl View for CityObjectGeometryCollection {
    type V = RecordView;

    open spec fn view(&self) -> RecordView {
        RecordView {
            gml: self.gml@,
            class: self.class,
            implicit_geometries: self.implicit_geometries@,
            multi_surfaces: self.multi_surfaces@,
            solids: self.solids@,
        }
    }
}

/// The entry of a level of detail, where there is geometry for it.
pub open spec fn entry<G>(lod: LevelOfDetail, g: Option<G>) -> Seq<(LevelOfDetail, G)> {
    match g {
        Some(x) => seq![(lod, x)],
        None => Seq::empty(),
    }
}

pub open spec fn space_record(class: CityObjectClass, s: Space) -> RecordView {
    RecordView {
        gml: s.city_object.gml@,
        class,
        implicit_geometries: Seq::empty(),
        multi_surfaces: entry(LevelOfDetail::Zero, s.lod0_multi_surface) + entry(LevelOfDetail::Two, s.lod2_multi_surface)
            + entry(LevelOfDetail::Three, s.lod3_multi_surface),
        solids: entry(LevelOfDetail::One, s.lod1_solid) + entry(LevelOfDetail::Two, s.lod2_solid) + entry(
            LevelOfDetail::Three,
            s.lod3_solid,
        ),
    }
}

pub open spec fn occupied_record(class: CityObjectClass, o: OccupiedSpace) -> RecordView {
    RecordView {
        implicit_geometries: entry(LevelOfDetail::One, o.lod1_implicit_representation) + entry(
            LevelOfDetail::Two,
            o.lod2_implicit_representation,
        ) + entry(LevelOfDetail::Three, o.lod3_implicit_representation),
        ..space_record(class, o.space)
    }
}

pub open spec fn thematic_record(class: CityObjectClass, t: ThematicSurface) -> RecordView {
    RecordView {
        gml: t.city_object.gml@,
        class,
        implicit_geometries: Seq::empty(),
        multi_surfaces: entry(LevelOfDetail::Zero, t.lod0_multi_surface) + entry(LevelOfDetail::One, t.lod1_multi_surface)
            + entry(LevelOfDetail::Two, t.lod2_multi_surface) + entry(LevelOfDetail::Three, t.lod3_multi_surface),
        solids: Seq::empty(),
    }
}

fn push_multi_surface(v: &mut Vec<(LevelOfDetail, MultiSurface)>, lod: LevelOfDetail, g: &Option<MultiSurface>)
    ensures
        final(v)@ == old(v)@ + entry(lod, *g),
{
    match g {
        Some(x) => {
            v.push((lod, x.clone()));
        },
        None => {},
    }
    assert(v@ =~= old(v)@ + entry(lod, *g));
}

fn push_solid(v: &mut Vec<(LevelOfDetail, Solid)>, lod: LevelOfDetail, g: &Option<Solid>)
    ensures
        final(v)@ == old(v)@ + entry(lod, *g),
{
    match g {
        Some(x) => {
            v.push((lod, x.clone()));
        },
        None => {},
    }
    assert(v@ =~= old(v)@ + entry(lod, *g));
}

fn push_implicit(v: &mut Vec<(LevelOfDetail, ImplicitGeometry)>, lod: LevelOfDetail, g: &Option<ImplicitGeometry>)
    ensures
        final(v)@ == old(v)@ + entry(lod, *g),
{
    match g {
        Some(x) => {
            v.push((lod, x.duplicate()));
        },
        None => {},
    }
    assert(v@ =~= old(v)@ + entry(lod, *g));
}

impl CityObjectGeometryCollection {
    pub fn from_space(class: CityObjectClass, space: &Space) -> (r: Self)
        ensures
            r@ == space_record(class, *space),
    {
        let mut solids: Vec<(LevelOfDetail, Solid)> = Vec::new();
        push_solid(&mut solids, LevelOfDetail::One, &space.lod1_solid);
        push_solid(&mut solids, LevelOfDetail::Two, &space.lod2_solid);
        push_solid(&mut solids, LevelOfDetail::Three, &space.lod3_solid);
        let mut multi_surfaces: Vec<(LevelOfDetail, MultiSurface)> = Vec::new();
        push_multi_surface(&mut multi_surfaces, LevelOfDetail::Zero, &space.lod0_multi_surface);
        push_multi_surface(&mut multi_surfaces, LevelOfDetail::Two, &space.lod2_multi_surface);
        push_multi_surface(&mut multi_surfaces, LevelOfDetail::Three, &space.lod3_multi_surface);
        let r = CityObjectGeometryCollection {
            gml: space.city_object.gml.duplicate(),
            class,
            implicit_geometries: Vec::new(),
            multi_surfaces,
            solids,
        };
        assert(r@.solids =~= space_record(class, *space).solids);
        assert(r@.multi_surfaces =~= space_record(class, *space).multi_surfaces);
        assert(r@.implicit_geometries =~= Seq::empty());
        r
    }

    pub fn from_occupied_space(class: CityObjectClass, occupied_space: &OccupiedSpace) -> (r: Self)
        ensures
            r@ == occupied_record(class, *occupied_space),
    {
        let mut r = CityObjectGeometryCollection::from_space(class, &occupied_space.space);
        push_implicit(&mut r.implicit_geometries, LevelOfDetail::One, &occupied_space.lod1_implicit_representation);
        push_implicit(&mut r.implicit_geometries, LevelOfDetail::Two, &occupied_space.lod2_implicit_representation);
        push_implicit(&mut r.implicit_geometries, LevelOfDetail::Three, &occupied_space.lod3_implicit_representation);
        assert(r@.implicit_geometries =~= occupied_record(class, *occupied_space).implicit_geometries);
        r
    }

    pub fn from_thematic_surface(class: CityObjectClass, thematic_surface: &ThematicSurface) -> (r: Self)
        ensures
            r@ == thematic_record(class, *thematic_surface),
    {
        let mut multi_surfaces: Vec<(LevelOfDetail, MultiSurface)> = Vec::new();
        push_multi_surface(&mut multi_surfaces, LevelOfDetail::Zero, &thematic_surface.lod0_multi_surface);
        push_multi_surface(&mut multi_surfaces, LevelOfDetail::One, &thematic_surface.lod1_multi_surface);
        push_multi_surface(&mut multi_surfaces, LevelOfDetail::Two, &thematic_surface.lod2_multi_surface);
        push_multi_surface(&mut multi_surfaces, LevelOfDetail::Three, &thematic_surface.lod3_multi_surface);
        let r = CityObjectGeometryCollection {
            gml: thematic_surface.city_object.gml.duplicate(),
            class,
            implicit_geometries: Vec::new(),
            multi_surfaces,
            solids: Vec::new(),
        };
        assert(r@.multi_surfaces =~= thematic_record(class, *thematic_surface).multi_surfaces);
        assert(r@.implicit_geometries =~= Seq::empty());
        assert(r@.solids =~= Seq::empty());
        r
    }
}

/// The records by identifier; a later record replaces an earlier one with the
/// same identifier.
pub open spec fn records_map(v: Seq<CityObjectGeometryCollection>) -> Map<Seq<char>, RecordView>
    decreases v.len(),
{
    if v.len() == 0 {
        Map::empty()
    } else {
        records_map(v.drop_last()).insert(v.last()@.gml.id, v.last()@)
    }
}

pub proof fn lemma_records_update(v: Seq<CityObjectGeometryCollection>, j: int, r: CityObjectGeometryCollection)
    requires
        0 <= j < v.len(),
        v[j]@.gml.id == r@.gml.id,
        forall|m: int| j < m < v.len() ==> v[m]@.gml.id != r@.gml.id,
    ensures
        records_map(v.update(j, r)) == records_map(v).insert(r@.gml.id, r@),
    decreases v.len(),
{
    let w = v.update(j, r);
    if j == v.len() - 1 {
        assert(w.drop_last() =~= v.drop_last());
        assert(records_map(w) =~= records_map(v).insert(r@.gml.id, r@));
    } else {
        assert(w.drop_last() =~= v.drop_last().update(j, r));
        lemma_records_update(v.drop_last(), j, r);
        assert(records_map(w) =~= records_map(v).insert(r@.gml.id, r@));
    }
}

/// Collects the geometry of every feature visited, keyed by identifier.
#[derive(Debug)]
pub struct GeometryCollector {
    pub city_objects: Vec<CityObjectGeometryCollection>,
}

impl GeometryCollector {
    pub fn new() -> (r: Self)
        ensures
            r.state() == Map::<Seq<char>, RecordView>::empty(),
    {
        GeometryCollector { city_objects: Vec::new() }
    }

    /// Adds a record, replacing the one with the same identifier.
    fn insert(&mut self, r: CityObjectGeometryCollection)
        ensures
            final(self).state() == old(self).state().insert(r@.gml.id, r@),
    {
        let ghost v = self.city_objects@;
        let mut j = self.city_objects.len();
        while j > 0
            invariant
                j <= v.len(),
                self.city_objects@ == v,
                v == old(self).city_objects@,
                forall|m: int| j <= m < v.len() ==> v[m]@.gml.id != r@.gml.id,
            decreases j,
        {
            if self.city_objects[j - 1].gml.id.as_str().to_owned() == r.gml.id.as_str().to_owned() {
                let ghost rv = r;
                assert(v[j - 1]@.gml.id == rv@.gml.id);
                self.city_objects.set(j - 1, r);
                proof {
                    assert(self.city_objects@ == v.update(j - 1, rv));
                    lemma_records_update(v, j - 1, rv);
                }
                return;
            }
            j = j - 1;
        }
        self.city_objects.push(r);
        proof {
            assert(self.city_objects@.drop_last() =~= v);
        }
    }
}

pub open spec fn record_of(n: Node) -> Option<RecordView> {
    match n {
        Node::CityFurniture(v) => Some(occupied_record(CityObjectClass::CityFurniture, v.occupied_space)),
        Node::BuildingConstructiveElement(v) => Some(occupied_record(CityObjectClass::BuildingConstructiveElement, v.occupied_space)),
        Node::RoofSurface(v) => Some(thematic_record(CityObjectClass::RoofSurface, v.thematic_surface)),
        Node::GroundSurface(v) => Some(thematic_record(CityObjectClass::GroundSurface, v.thematic_surface)),
        Node::WallSurface(v) => Some(thematic_record(CityObjectClass::WallSurface, v.thematic_surface)),
        Node::WindowSurface(v) => Some(occupied_record(CityObjectClass::WindowSurface, v.occupied_space)),
        Node::DoorSurface(v) => Some(occupied_record(CityObjectClass::DoorSurface, v.occupied_space)),
        Node::SolitaryVegetationObject(v) => Some(occupied_record(CityObjectClass::SolitaryVegetationObject, v.occupied_space)),
        Node::TrafficSpace(v) => Some(space_record(CityObjectClass::TrafficSpace, v.space)),
        Node::AuxiliaryTrafficSpace(v) => Some(space_record(CityObjectClass::AuxiliaryTrafficSpace, v.space)),
        Node::TrafficArea(v) => Some(thematic_record(CityObjectClass::TrafficArea, v.thematic_surface)),
        Node::AuxiliaryTrafficArea(v) => Some(thematic_record(CityObjectClass::AuxiliaryTrafficArea, v.thematic_surface)),
        _ => None,
    }
}

impl CityObjectVisitor for GeometryCollector {
    type State = Map<Seq<char>, RecordView>;

    open spec fn state(&self) -> Map<Seq<char>, RecordView> {
        records_map(self.city_objects@)
    }

    /// A node with geometry puts its record under its identifier; others change nothing.
    open spec fn step(s: Map<Seq<char>, RecordView>, n: Node) -> Map<Seq<char>, RecordView> {
        match record_of(n) {
            Some(r) => s.insert(r.gml.id, r),
            None => s,
        }
    }

    fn visit_city_model(&mut self, v: &CitygmlModel) {
    }

    fn visit_city_furniture(&mut self, v: &CityFurniture) {
        let r = CityObjectGeometryCollection::from_occupied_space(CityObjectClass::CityFurniture, &v.occupied_space);
        self.insert(r);
    }

    fn visit_building(&mut self, v: &Building) {
    }

    fn visit_building_constructive_element(&mut self, v: &BuildingConstructiveElement) {
        let r = CityObjectGeometryCollection::from_occupied_space(CityObjectClass::BuildingConstructiveElement, &v.occupied_space);
        self.insert(r);
    }

    fn visit_roof_surface(&mut self, v: &RoofSurface) {
        let r = CityObjectGeometryCollection::from_thematic_surface(CityObjectClass::RoofSurface, &v.thematic_surface);
        self.insert(r);
    }

    fn visit_ground_surface(&mut self, v: &GroundSurface) {
        let r = CityObjectGeometryCollection::from_thematic_surface(CityObjectClass::GroundSurface, &v.thematic_surface);
        self.insert(r);
    }

    fn visit_wall_surface(&mut self, v: &WallSurface) {
        let r = CityObjectGeometryCollection::from_thematic_surface(CityObjectClass::WallSurface, &v.thematic_surface);
        self.insert(r);
    }

    fn visit_window_surface(&mut self, v: &WindowSurface) {
        let r = CityObjectGeometryCollection::from_occupied_space(CityObjectClass::WindowSurface, &v.occupied_space);
        self.insert(r);
    }

    fn visit_door_surface(&mut self, v: &DoorSurface) {
        let r = CityObjectGeometryCollection::from_occupied_space(CityObjectClass::DoorSurface, &v.occupied_space);
        self.insert(r);
    }

    fn visit_solitary_vegetation_object(&mut self, v: &SolitaryVegetationObject) {
        let r = CityObjectGeometryCollection::from_occupied_space(CityObjectClass::SolitaryVegetationObject, &v.occupied_space);
        self.insert(r);
    }

    fn visit_road(&mut self, v: &Road) {
    }

    fn visit_section(&mut self, v: &Section) {
    }

    fn visit_intersection(&mut self, v: &Intersection) {
    }

    fn visit_traffic_space(&mut self, v: &TrafficSpace) {
        let r = CityObjectGeometryCollection::from_space(CityObjectClass::TrafficSpace, &v.space);
        self.insert(r);
    }

    fn visit_auxiliary_traffic_space(&mut self, v: &AuxiliaryTrafficSpace) {
        let r = CityObjectGeometryCollection::from_space(CityObjectClass::AuxiliaryTrafficSpace, &v.space);
        self.insert(r);
    }

    fn visit_traffic_area(&mut self, v: &TrafficArea) {
        let r = CityObjectGeometryCollection::from_thematic_surface(CityObjectClass::TrafficArea, &v.thematic_surface);
        self.insert(r);
    }

    fn visit_auxiliary_traffic_area(&mut self, v: &AuxiliaryTrafficArea) {
        let r = CityObjectGeometryCollection::from_thematic_surface(CityObjectClass::AuxiliaryTrafficArea, &v.thematic_surface);
        self.insert(r);
    }
}

/// What visiting `nodes` adds on top of `s`: the records collected from no
/// records, each replacing what `s` held under its identifier.
pub proof fn lemma_collect_over(s: Map<Seq<char>, RecordView>, nodes: Seq<Node>)
    ensures
        run::<GeometryCollector>(s, nodes) == s.union_prefer_right(run::<GeometryCollector>(Map::empty(), nodes)),
    decreases nodes.len(),
{
    if nodes.len() == 0 {
        assert(s.union_prefer_right(Map::empty()) =~= s);
    } else {
        lemma_collect_over(s, nodes.drop_last());
        let a = run::<GeometryCollector>(Map::empty(), nodes.drop_last());
        match record_of(nodes.last()) {
            Some(r) => {
                assert(s.union_prefer_right(a).insert(r.gml.id, r) =~= s.union_prefer_right(a.insert(r.gml.id, r)));
            },
            None => {},
        }
    }
}

/// Collecting twice over the same nodes gives what collecting once gives.
pub proof fn lemma_collect_twice(nodes: Seq<Node>)
    ensures
        run::<GeometryCollector>(run::<GeometryCollector>(Map::empty(), nodes), nodes)
            == run::<GeometryCollector>(Map::empty(), nodes),
{
    let once = run::<GeometryCollector>(Map::empty(), nodes);
    lemma_collect_over(once, nodes);
    assert(once.union_prefer_right(once) =~= once);
}

} // verus!
