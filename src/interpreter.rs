//! A visitor that traces the walk: one line per node, naming its kind and
//! identifier.
use crate::model::{
    AuxiliaryTrafficArea, AuxiliaryTrafficSpace, Building, BuildingConstructiveElement, CityFurniture, CitygmlModel, DoorSurface, GroundSurface, Intersection, Road, RoofSurface, Section, SolitaryVegetationObject, TrafficArea, TrafficSpace, WallSurface, WindowSurface, Id,
};
use crate::visitor::{CityObjectVisitor, Node};
use vstd::prelude::*;
use vstd::string::StringExecFns;

verus! {

/// Records a line for every node it visits.
pub struct Interpreter {
    pub lines: Vec<String>,
}

/// The line traced for a node.
pub open spec fn trace_line(n: Node) -> Seq<char> {
    match n {
        Node::CityModel(_) => "hello city_model"@,
        Node::CityFurniture(x) => "hello city_furniture "@ + x.occupied_space.space.city_object.gml.id@,
        Node::Building(x) => "hello building "@ + x.occupied_space.space.city_object.gml.id@,
        Node::BuildingConstructiveElement(x) => "hello building_constructive_element "@ + x.occupied_space.space.city_object.gml.id@,
        Node::RoofSurface(x) => "hello roof_surface "@ + x.thematic_surface.city_object.gml.id@,
        Node::GroundSurface(x) => "hello ground_surface "@ + x.thematic_surface.city_object.gml.id@,
        Node::WallSurface(x) => "hello wall_surface "@ + x.thematic_surface.city_object.gml.id@,
        Node::WindowSurface(x) => "hello window_surface "@ + x.occupied_space.space.city_object.gml.id@,
        Node::DoorSurface(x) => "hello door_surface "@ + x.occupied_space.space.city_object.gml.id@,
        Node::SolitaryVegetationObject(x) => "hello solitary_vegetation_object "@ + x.occupied_space.space.city_object.gml.id@,
        Node::Road(x) => "hello road "@ + x.space.city_object.gml.id@,
        Node::Section(x) => "hello section "@ + x.space.city_object.gml.id@,
        Node::Intersection(x) => "hello intersection "@ + x.space.city_object.gml.id@,
        Node::TrafficSpace(x) => "hello traffic_space "@ + x.space.city_object.gml.id@,
        Node::AuxiliaryTrafficSpace(x) => "hello auxiliary_traffic_space "@ + x.space.city_object.gml.id@,
        Node::TrafficArea(x) => "hello traffic_area "@ + x.thematic_surface.city_object.gml.id@,
        Node::AuxiliaryTrafficArea(x) => "hello auxiliary_traffic_area "@ + x.thematic_surface.city_object.gml.id@,
    }
}

fn traced(prefix: &str, id: &Id) -> (r: String)
    ensures
        r@ == prefix@ + id@,
{
    prefix.to_owned().concat(id.as_str())
}

impl Interpreter {
    pub fn new() -> (r: Self)
        ensures
            r.lines@.len() == 0,
    {
        Interpreter { lines: Vec::new() }
    }
}

impl CityObjectVisitor for Interpreter {
    type State = Seq<Seq<char>>;

    open spec fn state(&self) -> Seq<Seq<char>> {
        self.lines@.map_values(|s: String| s@)
    }

    /// Each node adds its line.
    open spec fn step(s: Seq<Seq<char>>, n: Node) -> Seq<Seq<char>> {
        s.push(trace_line(n))
    }

    fn visit_city_model(&mut self, v: &CitygmlModel) {
        let ghost before = self.lines@.map_values(|s: String| s@);
        let line = "hello city_model".to_owned();
        let ghost lv = line@;
        self.lines.push(line);
        assert(self.lines@.map_values(|s: String| s@) =~= before.push(lv));
    }

    fn visit_city_furniture(&mut self, v: &CityFurniture) {
        let ghost before = self.lines@.map_values(|s: String| s@);
        let line = traced("hello city_furniture ", &v.occupied_space.space.city_object.gml.id);
        let ghost lv = line@;
        self.lines.push(line);
        assert(self.lines@.map_values(|s: String| s@) =~= before.push(lv));
    }

    fn visit_building(&mut self, v: &Building) {
        let ghost before = self.lines@.map_values(|s: String| s@);
        let line = traced("hello building ", &v.occupied_space.space.city_object.gml.id);
        let ghost lv = line@;
        self.lines.push(line);
        assert(self.lines@.map_values(|s: String| s@) =~= before.push(lv));
    }

    fn visit_building_constructive_element(&mut self, v: &BuildingConstructiveElement) {
        let ghost before = self.lines@.map_values(|s: String| s@);
        let line = traced("hello building_constructive_element ", &v.occupied_space.space.city_object.gml.id);
        let ghost lv = line@;
        self.lines.push(line);
        assert(self.lines@.map_values(|s: String| s@) =~= before.push(lv));
    }

    fn visit_roof_surface(&mut self, v: &RoofSurface) {
        let ghost before = self.lines@.map_values(|s: String| s@);
        let line = traced("hello roof_surface ", &v.thematic_surface.city_object.gml.id);
        let ghost lv = line@;
        self.lines.push(line);
        assert(self.lines@.map_values(|s: String| s@) =~= before.push(lv));
    }

    fn visit_ground_surface(&mut self, v: &GroundSurface) {
        let ghost before = self.lines@.map_values(|s: String| s@);
        let line = traced("hello ground_surface ", &v.thematic_surface.city_object.gml.id);
        let ghost lv = line@;
        self.lines.push(line);
        assert(self.lines@.map_values(|s: String| s@) =~= before.push(lv));
    }

    fn visit_wall_surface(&mut self, v: &WallSurface) {
        let ghost before = self.lines@.map_values(|s: String| s@);
        let line = traced("hello wall_surface ", &v.thematic_surface.city_object.gml.id);
        let ghost lv = line@;
        self.lines.push(line);
        assert(self.lines@.map_values(|s: String| s@) =~= before.push(lv));
    }

    fn visit_window_surface(&mut self, v: &WindowSurface) {
        let ghost before = self.lines@.map_values(|s: String| s@);
        let line = traced("hello window_surface ", &v.occupied_space.space.city_object.gml.id);
        let ghost lv = line@;
        self.lines.push(line);
        assert(self.lines@.map_values(|s: String| s@) =~= before.push(lv));
    }

    fn visit_door_surface(&mut self, v: &DoorSurface) {
        let ghost before = self.lines@.map_values(|s: String| s@);
        let line = traced("hello door_surface ", &v.occupied_space.space.city_object.gml.id);
        let ghost lv = line@;
        self.lines.push(line);
        assert(self.lines@.map_values(|s: String| s@) =~= before.push(lv));
    }

    fn visit_solitary_vegetation_object(&mut self, v: &SolitaryVegetationObject) {
        let ghost before = self.lines@.map_values(|s: String| s@);
        let line = traced("hello solitary_vegetation_object ", &v.occupied_space.space.city_object.gml.id);
        let ghost lv = line@;
        self.lines.push(line);
        assert(self.lines@.map_values(|s: String| s@) =~= before.push(lv));
    }

    fn visit_road(&mut self, v: &Road) {
        let ghost before = self.lines@.map_values(|s: String| s@);
        let line = traced("hello road ", &v.space.city_object.gml.id);
        let ghost lv = line@;
        self.lines.push(line);
        assert(self.lines@.map_values(|s: String| s@) =~= before.push(lv));
    }

    fn visit_section(&mut self, v: &Section) {
        let ghost before = self.lines@.map_values(|s: String| s@);
        let line = traced("hello section ", &v.space.city_object.gml.id);
        let ghost lv = line@;
        self.lines.push(line);
        assert(self.lines@.map_values(|s: String| s@) =~= before.push(lv));
    }

    fn visit_intersection(&mut self, v: &Intersection) {
        let ghost before = self.lines@.map_values(|s: String| s@);
        let line = traced("hello intersection ", &v.space.city_object.gml.id);
        let ghost lv = line@;
        self.lines.push(line);
        assert(self.lines@.map_values(|s: String| s@) =~= before.push(lv));
    }

    fn visit_traffic_space(&mut self, v: &TrafficSpace) {
        let ghost before = self.lines@.map_values(|s: String| s@);
        let line = traced("hello traffic_space ", &v.space.city_object.gml.id);
        let ghost lv = line@;
        self.lines.push(line);
        assert(self.lines@.map_values(|s: String| s@) =~= before.push(lv));
    }

    fn visit_auxiliary_traffic_space(&mut self, v: &AuxiliaryTrafficSpace) {
        let ghost before = self.lines@.map_values(|s: String| s@);
        let line = traced("hello auxiliary_traffic_space ", &v.space.city_object.gml.id);
        let ghost lv = line@;
        self.lines.push(line);
        assert(self.lines@.map_values(|s: String| s@) =~= before.push(lv));
    }

    fn visit_traffic_area(&mut self, v: &TrafficArea) {
        let ghost before = self.lines@.map_values(|s: String| s@);
        let line = traced("hello traffic_area ", &v.thematic_surface.city_object.gml.id);
        let ghost lv = line@;
        self.lines.push(line);
        assert(self.lines@.map_values(|s: String| s@) =~= before.push(lv));
    }

    fn visit_auxiliary_traffic_area(&mut self, v: &AuxiliaryTrafficArea) {
        let ghost before = self.lines@.map_values(|s: String| s@);
        let line = traced("hello auxiliary_traffic_area ", &v.thematic_surface.city_object.gml.id);
        let ghost lv = line@;
        self.lines.push(line);
        assert(self.lines@.map_values(|s: String| s@) =~= before.push(lv));
    }
}

} // verus!
