//! Dataset statistics: per feature kind, how many features there are and how
//! many carry each kind of geometry, gathered by a visitor.
use crate::model::{
    AuxiliaryTrafficArea, AuxiliaryTrafficSpace, Building, BuildingConstructiveElement, CityFurniture, CitygmlModel, DoorSurface, GroundSurface, Intersection, Road, RoofSurface, Section, SolitaryVegetationObject, TrafficArea, TrafficSpace, WallSurface, WindowSurface, OccupiedSpace, Space, ThematicSurface,
};
use crate::visitor::{CityObjectVisitor, Node};
use vstd::prelude::*;

verus! {

/// Counts of features and of their geometry fields that are present.
#[derive(Clone, Copy, Debug, PartialEq, Eq, Structural)]
pub struct GeometryCounts {
    pub total: usize,
    pub lod1_implicit_representation: usize,
    pub lod2_implicit_representation: usize,
    pub lod3_implicit_representation: usize,
    pub lod1_solid: usize,
    pub lod2_solid: usize,
    pub lod3_solid: usize,
    pub lod0_multi_surface: usize,
    pub lod1_multi_surface: usize,
    pub lod2_multi_surface: usize,
    pub lod3_multi_surface: usize,
}

/// One more, unless the count is already at its largest value.
pub open spec fn tick(c: usize, present: bool) -> usize {
    if present && c < usize::MAX { (c + 1) as usize } else { c }
}

fn tick_exec(c: usize, present: bool) -> (r: usize)
    ensures
        r == tick(c, present),
{
    if present && c < usize::MAX { c + 1 } else { c }
}

pub open spec fn count_space(g: GeometryCounts, s: Space) -> GeometryCounts {
    GeometryCounts {
        total: tick(g.total, true),
        lod1_solid: tick(g.lod1_solid, s.lod1_solid is Some),
        lod2_solid: tick(g.lod2_solid, s.lod2_solid is Some),
        lod3_solid: tick(g.lod3_solid, s.lod3_solid is Some),
        lod0_multi_surface: tick(g.lod0_multi_surface, s.lod0_multi_surface is Some),
        lod2_multi_surface: tick(g.lod2_multi_surface, s.lod2_multi_surface is Some),
        lod3_multi_surface: tick(g.lod3_multi_surface, s.lod3_multi_surface is Some),
        ..g
    }
}

pub open spec fn count_occupied(g: GeometryCounts, o: OccupiedSpace) -> GeometryCounts {
    let h = count_space(g, o.space);
    GeometryCounts {
        lod1_implicit_representation: tick(h.lod1_implicit_representation, o.lod1_implicit_representation is Some),
        lod2_implicit_representation: tick(h.lod2_implicit_representation, o.lod2_implicit_representation is Some),
        lod3_implicit_representation: tick(h.lod3_implicit_representation, o.lod3_implicit_representation is Some),
        ..h
    }
}

pub open spec fn count_thematic(g: GeometryCounts, t: ThematicSurface) -> GeometryCounts {
    GeometryCounts {
        total: tick(g.total, true),
        lod0_multi_surface: tick(g.lod0_multi_surface, t.lod0_multi_surface is Some),
        lod1_multi_surface: tick(g.lod1_multi_surface, t.lod1_multi_surface is Some),
        lod2_multi_surface: tick(g.lod2_multi_surface, t.lod2_multi_surface is Some),
        lod3_multi_surface: tick(g.lod3_multi_surface, t.lod3_multi_surface is Some),
        ..g
    }
}

impl GeometryCounts {
    pub fn new() -> (r: Self)
        ensures
            r.total == 0,
            r.lod1_implicit_representation == 0,
            r.lod2_implicit_representation == 0,
            r.lod3_implicit_representation == 0,
            r.lod1_solid == 0,
            r.lod2_solid == 0,
            r.lod3_solid == 0,
            r.lod0_multi_surface == 0,
            r.lod1_multi_surface == 0,
            r.lod2_multi_surface == 0,
            r.lod3_multi_surface == 0,
    {
        GeometryCounts {
            total: 0,
            lod1_implicit_representation: 0,
            lod2_implicit_representation: 0,
            lod3_implicit_representation: 0,
            lod1_solid: 0,
            lod2_solid: 0,
            lod3_solid: 0,
            lod0_multi_surface: 0,
            lod1_multi_surface: 0,
            lod2_multi_surface: 0,
            lod3_multi_surface: 0,
        }
    }

    fn add_space(self, s: &Space) -> (r: Self)
        ensures
            r == count_space(self, *s),
    {
        GeometryCounts {
            total: tick_exec(self.total, true),
            lod1_solid: tick_exec(self.lod1_solid, s.lod1_solid.is_some()),
            lod2_solid: tick_exec(self.lod2_solid, s.lod2_solid.is_some()),
            lod3_solid: tick_exec(self.lod3_solid, s.lod3_solid.is_some()),
            lod0_multi_surface: tick_exec(self.lod0_multi_surface, s.lod0_multi_surface.is_some()),
            lod2_multi_surface: tick_exec(self.lod2_multi_surface, s.lod2_multi_surface.is_some()),
            lod3_multi_surface: tick_exec(self.lod3_multi_surface, s.lod3_multi_surface.is_some()),
            ..self
        }
    }

    fn add_occupied(self, o: &OccupiedSpace) -> (r: Self)
        ensures
            r == count_occupied(self, *o),
    {
        let h = self.add_space(&o.space);
        GeometryCounts {
            lod1_implicit_representation: tick_exec(h.lod1_implicit_representation, o.lod1_implicit_representation.is_some()),
            lod2_implicit_representation: tick_exec(h.lod2_implicit_representation, o.lod2_implicit_representation.is_some()),
            lod3_implicit_representation: tick_exec(h.lod3_implicit_representation, o.lod3_implicit_representation.is_some()),
            ..h
        }
    }

    fn add_thematic(self, t: &ThematicSurface) -> (r: Self)
        ensures
            r == count_thematic(self, *t),
    {
        GeometryCounts {
            total: tick_exec(self.total, true),
            lod0_multi_surface: tick_exec(self.lod0_multi_surface, t.lod0_multi_surface.is_some()),
            lod1_multi_surface: tick_exec(self.lod1_multi_surface, t.lod1_multi_surface.is_some()),
            lod2_multi_surface: tick_exec(self.lod2_multi_surface, t.lod2_multi_surface.is_some()),
            lod3_multi_surface: tick_exec(self.lod3_multi_surface, t.lod3_multi_surface.is_some()),
            ..self
        }
    }
}

/// Statistics of a city model, per kind of feature.
#[derive(Clone, Copy, Debug, PartialEq, Eq, Structural)]
pub struct ModelStatistics {
    pub building: GeometryCounts,
    pub wall_surface: GeometryCounts,
    pub door_surface: GeometryCounts,
    pub window_surface: GeometryCounts,
    pub roof_surface: GeometryCounts,
    pub ground_surface: GeometryCounts,
    pub building_constructive_element: GeometryCounts,
    pub city_furniture: GeometryCounts,
    pub road: GeometryCounts,
    pub solitary_vegetation_object: GeometryCounts,
}

impl ModelStatistics {
    pub fn new() -> (r: Self)
        ensures
            r.building == GeometryCounts::new_spec(),
            r.wall_surface == GeometryCounts::new_spec(),
            r.door_surface == GeometryCounts::new_spec(),
            r.window_surface == GeometryCounts::new_spec(),
            r.roof_surface == GeometryCounts::new_spec(),
            r.ground_surface == GeometryCounts::new_spec(),
            r.building_constructive_element == GeometryCounts::new_spec(),
            r.city_furniture == GeometryCounts::new_spec(),
            r.road == GeometryCounts::new_spec(),
            r.solitary_vegetation_object == GeometryCounts::new_spec(),
    {
        ModelStatistics {
            building: GeometryCounts::new(),
            wall_surface: GeometryCounts::new(),
            door_surface: GeometryCounts::new(),
            window_surface: GeometryCounts::new(),
            roof_surface: GeometryCounts::new(),
            ground_surface: GeometryCounts::new(),
            building_constructive_element: GeometryCounts::new(),
            city_furniture: GeometryCounts::new(),
            road: GeometryCounts::new(),
            solitary_vegetation_object: GeometryCounts::new(),
        }
    }
}

impl GeometryCounts {
    pub open spec fn new_spec() -> GeometryCounts {
        GeometryCounts {
            total: 0,
            lod1_implicit_representation: 0,
            lod2_implicit_representation: 0,
            lod3_implicit_representation: 0,
            lod1_solid: 0,
            lod2_solid: 0,
            lod3_solid: 0,
            lod0_multi_surface: 0,
            lod1_multi_surface: 0,
            lod2_multi_surface: 0,
            lod3_multi_surface: 0,
        }
    }
}

pub open spec fn count_node(s: ModelStatistics, n: Node) -> ModelStatistics {
    match n {
        Node::Building(x) => ModelStatistics { building: count_occupied(s.building, x.occupied_space), ..s },
        Node::WallSurface(x) => ModelStatistics { wall_surface: count_thematic(s.wall_surface, x.thematic_surface), ..s },
        Node::DoorSurface(x) => ModelStatistics { door_surface: count_occupied(s.door_surface, x.occupied_space), ..s },
        Node::WindowSurface(x) => ModelStatistics { window_surface: count_occupied(s.window_surface, x.occupied_space), ..s },
        Node::RoofSurface(x) => ModelStatistics { roof_surface: count_thematic(s.roof_surface, x.thematic_surface), ..s },
        Node::GroundSurface(x) => ModelStatistics { ground_surface: count_thematic(s.ground_surface, x.thematic_surface), ..s },
        Node::BuildingConstructiveElement(x) => ModelStatistics { building_constructive_element: count_occupied(s.building_constructive_element, x.occupied_space), ..s },
        Node::CityFurniture(x) => ModelStatistics { city_furniture: count_occupied(s.city_furniture, x.occupied_space), ..s },
        Node::Road(x) => ModelStatistics { road: count_space(s.road, x.space), ..s },
        Node::SolitaryVegetationObject(x) => ModelStatistics { solitary_vegetation_object: count_occupied(s.solitary_vegetation_object, x.occupied_space), ..s },
        _ => s,
    }
}

impl CityObjectVisitor for ModelStatistics {
    type State = ModelStatistics;

    open spec fn state(&self) -> ModelStatistics {
        *self
    }

    /// A counted kind of feature adds itself and its geometry to its counts.
    open spec fn step(s: ModelStatistics, n: Node) -> ModelStatistics {
        count_node(s, n)
    }

    fn visit_city_model(&mut self, v: &CitygmlModel) {
    }

    fn visit_city_furniture(&mut self, v: &CityFurniture) {
        self.city_furniture = self.city_furniture.add_occupied(&v.occupied_space);
    }

    fn visit_building(&mut self, v: &Building) {
        self.building = self.building.add_occupied(&v.occupied_space);
    }

    fn visit_building_constructive_element(&mut self, v: &BuildingConstructiveElement) {
        self.building_constructive_element = self.building_constructive_element.add_occupied(&v.occupied_space);
    }

    fn visit_roof_surface(&mut self, v: &RoofSurface) {
        self.roof_surface = self.roof_surface.add_thematic(&v.thematic_surface);
    }

    fn visit_ground_surface(&mut self, v: &GroundSurface) {
        self.ground_surface = self.ground_surface.add_thematic(&v.thematic_surface);
    }

    fn visit_wall_surface(&mut self, v: &WallSurface) {
        self.wall_surface = self.wall_surface.add_thematic(&v.thematic_surface);
    }

    fn visit_window_surface(&mut self, v: &WindowSurface) {
        self.window_surface = self.window_surface.add_occupied(&v.occupied_space);
    }

    fn visit_door_surface(&mut self, v: &DoorSurface) {
        self.door_surface = self.door_surface.add_occupied(&v.occupied_space);
    }

    fn visit_solitary_vegetation_object(&mut self, v: &SolitaryVegetationObject) {
        self.solitary_vegetation_object = self.solitary_vegetation_object.add_occupied(&v.occupied_space);
    }

    fn visit_road(&mut self, v: &Road) {
        self.road = self.road.add_space(&v.space);
    }

    fn visit_section(&mut self, v: &Section) {
    }

    fn visit_intersection(&mut self, v: &Intersection) {
    }

    fn visit_traffic_space(&mut self, v: &TrafficSpace) {
    }

    fn visit_auxiliary_traffic_space(&mut self, v: &AuxiliaryTrafficSpace) {
    }

    fn visit_traffic_area(&mut self, v: &TrafficArea) {
    }

    fn visit_auxiliary_traffic_area(&mut self, v: &AuxiliaryTrafficArea) {
    }
}

} // verus!
