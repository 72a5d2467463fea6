//! The traversal framework: every feature of the graph accepts a visitor and
//! walks itself in pre-order, the node first, then each child collection in
//! declaration order. A visitor says, through `state` and `step`, what one
//! visit does to it; `accept` is proved to apply the steps in that order.
use crate::model::{
    AuxiliaryTrafficArea, AuxiliaryTrafficSpace, Building, BuildingConstructiveElement, CityFurniture, CitygmlModel, DoorSurface, GroundSurface, Intersection, Road, RoofSurface, Section, SolitaryVegetationObject, TrafficArea, TrafficSpace, WallSurface, WindowSurface,
};
use vstd::prelude::*;

verus! {

/// A node of the feature graph, as met by a traversal.
pub enum Node {
    CityModel(CitygmlModel),
    CityFurniture(CityFurniture),
    Building(Building),
    BuildingConstructiveElement(BuildingConstructiveElement),
    RoofSurface(RoofSurface),
    GroundSurface(GroundSurface),
    WallSurface(WallSurface),
    WindowSurface(WindowSurface),
    DoorSurface(DoorSurface),
    SolitaryVegetationObject(SolitaryVegetationObject),
    Road(Road),
    Section(Section),
    Intersection(Intersection),
    TrafficSpace(TrafficSpace),
    AuxiliaryTrafficSpace(AuxiliaryTrafficSpace),
    TrafficArea(TrafficArea),
    AuxiliaryTrafficArea(AuxiliaryTrafficArea),
}

/// An operation over the feature graph, with one method per kind of node.
pub trait CityObjectVisitor {
    /// The model of what the visitor holds.
    type State;

    spec fn state(&self) -> Self::State;

    /// What visiting one node does to the state.
    spec fn step(s: Self::State, n: Node) -> Self::State;

    fn visit_city_model(&mut self, v: &CitygmlModel)
        ensures
            final(self).state() == Self::step(old(self).state(), Node::CityModel(*v)),
    ;

    fn visit_city_furniture(&mut self, v: &CityFurniture)
        ensures
            final(self).state() == Self::step(old(self).state(), Node::CityFurniture(*v)),
    ;

    fn visit_building(&mut self, v: &Building)
        ensures
            final(self).state() == Self::step(old(self).state(), Node::Building(*v)),
    ;

    fn visit_building_constructive_element(&mut self, v: &BuildingConstructiveElement)
        ensures
            final(self).state() == Self::step(old(self).state(), Node::BuildingConstructiveElement(*v)),
    ;

    fn visit_roof_surface(&mut self, v: &RoofSurface)
        ensures
            final(self).state() == Self::step(old(self).state(), Node::RoofSurface(*v)),
    ;

    fn visit_ground_surface(&mut self, v: &GroundSurface)
        ensures
            final(self).state() == Self::step(old(self).state(), Node::GroundSurface(*v)),
    ;

    fn visit_wall_surface(&mut self, v: &WallSurface)
        ensures
            final(self).state() == Self::step(old(self).state(), Node::WallSurface(*v)),
    ;

    fn visit_window_surface(&mut self, v: &WindowSurface)
        ensures
            final(self).state() == Self::step(old(self).state(), Node::WindowSurface(*v)),
    ;

    fn visit_door_surface(&mut self, v: &DoorSurface)
        ensures
            final(self).state() == Self::step(old(self).state(), Node::DoorSurface(*v)),
    ;

    fn visit_solitary_vegetation_object(&mut self, v: &SolitaryVegetationObject)
        ensures
            final(self).state() == Self::step(old(self).state(), Node::SolitaryVegetationObject(*v)),
    ;

    fn visit_road(&mut self, v: &Road)
        ensures
            final(self).state() == Self::step(old(self).state(), Node::Road(*v)),
    ;

    fn visit_section(&mut self, v: &Section)
        ensures
            final(self).state() == Self::step(old(self).state(), Node::Section(*v)),
    ;

    fn visit_intersection(&mut self, v: &Intersection)
        ensures
            final(self).state() == Self::step(old(self).state(), Node::Intersection(*v)),
    ;

    fn visit_traffic_space(&mut self, v: &TrafficSpace)
        ensures
            final(self).state() == Self::step(old(self).state(), Node::TrafficSpace(*v)),
    ;

    fn visit_auxiliary_traffic_space(&mut self, v: &AuxiliaryTrafficSpace)
        ensures
            final(self).state() == Self::step(old(self).state(), Node::AuxiliaryTrafficSpace(*v)),
    ;

    fn visit_traffic_area(&mut self, v: &TrafficArea)
        ensures
            final(self).state() == Self::step(old(self).state(), Node::TrafficArea(*v)),
    ;

    fn visit_auxiliary_traffic_area(&mut self, v: &AuxiliaryTrafficArea)
        ensures
            final(self).state() == Self::step(old(self).state(), Node::AuxiliaryTrafficArea(*v)),
    ;
}

/// The state after visiting `nodes` in order, from `s`.
pub open spec fn run<V: CityObjectVisitor>(s: V::State, nodes: Seq<Node>) -> V::State
    decreases nodes.len(),
{
    if nodes.len() == 0 {
        s
    } else {
        V::step(run::<V>(s, nodes.drop_last()), nodes.last())
    }
}

pub proof fn lemma_run_concat<V: CityObjectVisitor>(s: V::State, a: Seq<Node>, b: Seq<Node>)
    ensures
        run::<V>(s, a + b) == run::<V>(run::<V>(s, a), b),
    decreases b.len(),
{
    if b.len() == 0 {
        assert(a + b =~= a);
    } else {
        assert((a + b).drop_last() =~= a + b.drop_last());
        assert((a + b).last() == b.last());
        lemma_run_concat::<V>(s, a, b.drop_last());
    }
}

pub proof fn lemma_run_one<V: CityObjectVisitor>(s: V::State, n: Node)
    ensures
        run::<V>(s, seq![n]) == V::step(s, n),
{
    assert(seq![n].drop_last() =~= Seq::<Node>::empty());
    assert(run::<V>(s, Seq::<Node>::empty()) == s);
    assert(seq![n].last() == n);
}

/// The nodes of each item, one item after the other.
pub open spec fn flatten<T: Visitable>(items: Seq<T>) -> Seq<Node>
    decreases items.len(),
{
    if items.len() == 0 {
        Seq::empty()
    } else {
        flatten(items.drop_last()) + items.last().nodes()
    }
}

/// A part of the feature graph that a visitor can walk.
pub trait Visitable: Sized {
    /// The nodes of this part in pre-order.
    spec fn nodes(&self) -> Seq<Node>;

    fn accept<V: CityObjectVisitor>(&self, visitor: &mut V)
        ensures
            final(visitor).state() == run::<V>(old(visitor).state(), self.nodes()),
    ;
}

/// Walks each item in order.
pub fn accept_all<T: Visitable, V: CityObjectVisitor>(items: &Vec<T>, visitor: &mut V)
    ensures
        final(visitor).state() == run::<V>(old(visitor).state(), flatten(items@)),
{
    let ghost s0 = visitor.state();
    let mut i: usize = 0;
    assert(items@.subrange(0, 0) =~= Seq::<T>::empty());
    while i < items.len()
        invariant
            i <= items@.len(),
            visitor.state() == run::<V>(s0, flatten(items@.subrange(0, i as int))),
        decreases items.len() - i,
    {
        items[i].accept(visitor);
        proof {
            let p = items@.subrange(0, i + 1);
            assert(p.drop_last() =~= items@.subrange(0, i as int));
            assert(p.last() == items@[i as int]);
            lemma_run_concat::<V>(s0, flatten(items@.subrange(0, i as int)), items@[i as int].nodes());
        }
        i = i + 1;
    }
    assert(items@.subrange(0, items@.len() as int) =~= items@);
}

impl Visitable for CitygmlModel {
    open spec fn nodes(&self) -> Seq<Node> {
        seq![Node::CityModel(*self)] + flatten(self.building@) + flatten(self.city_furniture@) + flatten(self.road@) + flatten(self.solitary_vegetation_object@)
    }

    fn accept<V: CityObjectVisitor>(&self, visitor: &mut V) {
        let ghost s0 = visitor.state();
        visitor.visit_city_model(self);
        accept_all(&self.building, visitor);
        accept_all(&self.city_furniture, visitor);
        accept_all(&self.road, visitor);
        accept_all(&self.solitary_vegetation_object, visitor);
        proof {
            lemma_run_one::<V>(s0, Node::CityModel(*self));
            lemma_run_concat::<V>(s0, seq![Node::CityModel(*self)], flatten(self.building@));
            lemma_run_concat::<V>(s0, seq![Node::CityModel(*self)] + flatten(self.building@), flatten(self.city_furniture@));
            lemma_run_concat::<V>(s0, seq![Node::CityModel(*self)] + flatten(self.building@) + flatten(self.city_furniture@), flatten(self.road@));
            lemma_run_concat::<V>(s0, seq![Node::CityModel(*self)] + flatten(self.building@) + flatten(self.city_furniture@) + flatten(self.road@), flatten(self.solitary_vegetation_object@));
        }
    }
}

impl Visitable for CityFurniture {
    open spec fn nodes(&self) -> Seq<Node> {
        seq![Node::CityFurniture(*self)]
    }

    fn accept<V: CityObjectVisitor>(&self, visitor: &mut V) {
        let ghost s0 = visitor.state();
        visitor.visit_city_furniture(self);
        proof {
            lemma_run_one::<V>(s0, Node::CityFurniture(*self));
        }
    }
}

impl Visitable for Building {
    open spec fn nodes(&self) -> Seq<Node> {
        seq![Node::Building(*self)] + flatten(self.wall_surface@) + flatten(self.roof_surface@) + flatten(self.ground_surface@) + flatten(self.building_constructive_element@)
    }

    fn accept<V: CityObjectVisitor>(&self, visitor: &mut V) {
        let ghost s0 = visitor.state();
        visitor.visit_building(self);
        accept_all(&self.wall_surface, visitor);
        accept_all(&self.roof_surface, visitor);
        accept_all(&self.ground_surface, visitor);
        accept_all(&self.building_constructive_element, visitor);
        proof {
            lemma_run_one::<V>(s0, Node::Building(*self));
            lemma_run_concat::<V>(s0, seq![Node::Building(*self)], flatten(self.wall_surface@));
            lemma_run_concat::<V>(s0, seq![Node::Building(*self)] + flatten(self.wall_surface@), flatten(self.roof_surface@));
            lemma_run_concat::<V>(s0, seq![Node::Building(*self)] + flatten(self.wall_surface@) + flatten(self.roof_surface@), flatten(self.ground_surface@));
            lemma_run_concat::<V>(s0, seq![Node::Building(*self)] + flatten(self.wall_surface@) + flatten(self.roof_surface@) + flatten(self.ground_surface@), flatten(self.building_constructive_element@));
        }
    }
}

impl Visitable for BuildingConstructiveElement {
    open spec fn nodes(&self) -> Seq<Node> {
        seq![Node::BuildingConstructiveElement(*self)]
    }

    fn accept<V: CityObjectVisitor>(&self, visitor: &mut V) {
        let ghost s0 = visitor.state();
        visitor.visit_building_constructive_element(self);
        proof {
            lemma_run_one::<V>(s0, Node::BuildingConstructiveElement(*self));
        }
    }
}

impl Visitable for RoofSurface {
    open spec fn nodes(&self) -> Seq<Node> {
        seq![Node::RoofSurface(*self)]
    }

    fn accept<V: CityObjectVisitor>(&self, visitor: &mut V) {
        let ghost s0 = visitor.state();
        visitor.visit_roof_surface(self);
        proof {
            lemma_run_one::<V>(s0, Node::RoofSurface(*self));
        }
    }
}

impl Visitable for GroundSurface {
    open spec fn nodes(&self) -> Seq<Node> {
        seq![Node::GroundSurface(*self)]
    }

    fn accept<V: CityObjectVisitor>(&self, visitor: &mut V) {
        let ghost s0 = visitor.state();
        visitor.visit_ground_surface(self);
        proof {
            lemma_run_one::<V>(s0, Node::GroundSurface(*self));
        }
    }
}

impl Visitable for WallSurface {
    open spec fn nodes(&self) -> Seq<Node> {
        seq![Node::WallSurface(*self)] + flatten(self.door_surface@) + flatten(self.window_surface@)
    }

    fn accept<V: CityObjectVisitor>(&self, visitor: &mut V) {
        let ghost s0 = visitor.state();
        visitor.visit_wall_surface(self);
        accept_all(&self.door_surface, visitor);
        accept_all(&self.window_surface, visitor);
        proof {
            lemma_run_one::<V>(s0, Node::WallSurface(*self));
            lemma_run_concat::<V>(s0, seq![Node::WallSurface(*self)], flatten(self.door_surface@));
            lemma_run_concat::<V>(s0, seq![Node::WallSurface(*self)] + flatten(self.door_surface@), flatten(self.window_surface@));
        }
    }
}

impl Visitable for WindowSurface {
    open spec fn nodes(&self) -> Seq<Node> {
        seq![Node::WindowSurface(*self)]
    }

    fn accept<V: CityObjectVisitor>(&self, visitor: &mut V) {
        let ghost s0 = visitor.state();
        visitor.visit_window_surface(self);
        proof {
            lemma_run_one::<V>(s0, Node::WindowSurface(*self));
        }
    }
}

impl Visitable for DoorSurface {
    open spec fn nodes(&self) -> Seq<Node> {
        seq![Node::DoorSurface(*self)]
    }

    fn accept<V: CityObjectVisitor>(&self, visitor: &mut V) {
        let ghost s0 = visitor.state();
        visitor.visit_door_surface(self);
        proof {
            lemma_run_one::<V>(s0, Node::DoorSurface(*self));
        }
    }
}

impl Visitable for SolitaryVegetationObject {
    open spec fn nodes(&self) -> Seq<Node> {
        seq![Node::SolitaryVegetationObject(*self)]
    }

    fn accept<V: CityObjectVisitor>(&self, visitor: &mut V) {
        let ghost s0 = visitor.state();
        visitor.visit_solitary_vegetation_object(self);
        proof {
            lemma_run_one::<V>(s0, Node::SolitaryVegetationObject(*self));
        }
    }
}

impl Visitable for Road {
    open spec fn nodes(&self) -> Seq<Node> {
        seq![Node::Road(*self)] + flatten(self.section@) + flatten(self.intersection@)
    }

    fn accept<V: CityObjectVisitor>(&self, visitor: &mut V) {
        let ghost s0 = visitor.state();
        visitor.visit_road(self);
        accept_all(&self.section, visitor);
        accept_all(&self.intersection, visitor);
        proof {
            lemma_run_one::<V>(s0, Node::Road(*self));
            lemma_run_concat::<V>(s0, seq![Node::Road(*self)], flatten(self.section@));
            lemma_run_concat::<V>(s0, seq![Node::Road(*self)] + flatten(self.section@), flatten(self.intersection@));
        }
    }
}

impl Visitable for Section {
    open spec fn nodes(&self) -> Seq<Node> {
        seq![Node::Section(*self)] + flatten(self.traffic_space@) + flatten(self.auxiliary_traffic_space@)
    }

    fn accept<V: CityObjectVisitor>(&self, visitor: &mut V) {
        let ghost s0 = visitor.state();
        visitor.visit_section(self);
        accept_all(&self.traffic_space, visitor);
        accept_all(&self.auxiliary_traffic_space, visitor);
        proof {
            lemma_run_one::<V>(s0, Node::Section(*self));
            lemma_run_concat::<V>(s0, seq![Node::Section(*self)], flatten(self.traffic_space@));
            lemma_run_concat::<V>(s0, seq![Node::Section(*self)] + flatten(self.traffic_space@), flatten(self.auxiliary_traffic_space@));
        }
    }
}

impl Visitable for Intersection {
    open spec fn nodes(&self) -> Seq<Node> {
        seq![Node::Intersection(*self)] + flatten(self.traffic_space@) + flatten(self.auxiliary_traffic_space@)
    }

    fn accept<V: CityObjectVisitor>(&self, visitor: &mut V) {
        let ghost s0 = visitor.state();
        visitor.visit_intersection(self);
        accept_all(&self.traffic_space, visitor);
        accept_all(&self.auxiliary_traffic_space, visitor);
        proof {
            lemma_run_one::<V>(s0, Node::Intersection(*self));
            lemma_run_concat::<V>(s0, seq![Node::Intersection(*self)], flatten(self.traffic_space@));
            lemma_run_concat::<V>(s0, seq![Node::Intersection(*self)] + flatten(self.traffic_space@), flatten(self.auxiliary_traffic_space@));
        }
    }
}

impl Visitable for TrafficSpace {
    open spec fn nodes(&self) -> Seq<Node> {
        seq![Node::TrafficSpace(*self)] + flatten(self.traffic_area@)
    }

    fn accept<V: CityObjectVisitor>(&self, visitor: &mut V) {
        let ghost s0 = visitor.state();
        visitor.visit_traffic_space(self);
        accept_all(&self.traffic_area, visitor);
        proof {
            lemma_run_one::<V>(s0, Node::TrafficSpace(*self));
            lemma_run_concat::<V>(s0, seq![Node::TrafficSpace(*self)], flatten(self.traffic_area@));
        }
    }
}

impl Visitable for AuxiliaryTrafficSpace {
    open spec fn nodes(&self) -> Seq<Node> {
        seq![Node::AuxiliaryTrafficSpace(*self)] + flatten(self.auxiliary_traffic_area@)
    }

    fn accept<V: CityObjectVisitor>(&self, visitor: &mut V) {
        let ghost s0 = visitor.state();
        visitor.visit_auxiliary_traffic_space(self);
        accept_all(&self.auxiliary_traffic_area, visitor);
        proof {
            lemma_run_one::<V>(s0, Node::AuxiliaryTrafficSpace(*self));
            lemma_run_concat::<V>(s0, seq![Node::AuxiliaryTrafficSpace(*self)], flatten(self.auxiliary_traffic_area@));
        }
    }
}

impl Visitable for TrafficArea {
    open spec fn nodes(&self) -> Seq<Node> {
        seq![Node::TrafficArea(*self)]
    }

    fn accept<V: CityObjectVisitor>(&self, visitor: &mut V) {
        let ghost s0 = visitor.state();
        visitor.visit_traffic_area(self);
        proof {
            lemma_run_one::<V>(s0, Node::TrafficArea(*self));
        }
    }
}

impl Visitable for AuxiliaryTrafficArea {
    open spec fn nodes(&self) -> Seq<Node> {
        seq![Node::AuxiliaryTrafficArea(*self)]
    }

    fn accept<V: CityObjectVisitor>(&self, visitor: &mut V) {
        let ghost s0 = visitor.state();
        visitor.visit_auxiliary_traffic_area(self);
        proof {
            lemma_run_one::<V>(s0, Node::AuxiliaryTrafficArea(*self));
        }
    }
}

} // verus!
