use ecitygml::geometry_collector::{CityObjectClass, GeometryCollector, LevelOfDetail};
use ecitygml::interpreter::Interpreter;
use ecitygml::model::CitygmlModel;
use ecitygml::parser::read_model;
use ecitygml::statistics::ModelStatistics;
use ecitygml::visitor::Visitable;

const SQUARE: &str = "<gml:MultiSurface srsDimension=\"3\"><gml:surfaceMember><gml:Polygon><gml:exterior><gml:LinearRing><gml:posList>0 0 0 1 0 0 1 1 0 0 1 0 0 0 0</gml:posList></gml:LinearRing></gml:exterior></gml:Polygon></gml:surfaceMember></gml:MultiSurface>";

fn sample_model() -> CitygmlModel {
    let document = format!(
        "<core:CityModel><cityObjectMember><bldg:Building gml:id=\"B1\">\
<boundary><con:WallSurface gml:id=\"W1\"><lod2MultiSurface>{SQUARE}</lod2MultiSurface>\
<fillingSurface><con:WindowSurface gml:id=\"WIN1\"><lod3MultiSurface>{SQUARE}</lod3MultiSurface></con:WindowSurface></fillingSurface>\
</con:WallSurface></boundary><boundary><con:RoofSurface gml:id=\"R1\"></con:RoofSurface></boundary></bldg:Building></cityObjectMember>\
<cityObjectMember><frn:CityFurniture gml:id=\"F1\"></frn:CityFurniture></cityObjectMember></core:CityModel>"
    );
    let mut warnings = Vec::new();
    read_model(&document, &mut warnings).unwrap()
}

fn summary(c: &GeometryCollector) -> Vec<(String, CityObjectClass, Vec<LevelOfDetail>)> {
    c.city_objects
        .iter()
        .map(|r| {
            (
                r.gml.id.as_str().to_string(),
                r.class,
                r.multi_surfaces.iter().map(|m| m.0).collect(),
            )
        })
        .collect()
}

#[test]
fn collector_gathers_geometry_by_identifier() {
    let model = sample_model();
    let mut collector = GeometryCollector::new();
    model.accept(&mut collector);
    let s = summary(&collector);
    assert_eq!(s.len(), 4);
    assert_eq!(s[0], ("W1".to_string(), CityObjectClass::WallSurface, vec![LevelOfDetail::Two]));
    assert_eq!(s[1], ("WIN1".to_string(), CityObjectClass::WindowSurface, vec![LevelOfDetail::Three]));
    assert_eq!(s[2], ("R1".to_string(), CityObjectClass::RoofSurface, vec![]));
    assert_eq!(s[3], ("F1".to_string(), CityObjectClass::CityFurniture, vec![]));
}

#[test]
fn collector_twice_gives_same_records() {
    let model = sample_model();
    let mut once = GeometryCollector::new();
    model.accept(&mut once);
    let mut twice = GeometryCollector::new();
    model.accept(&mut twice);
    model.accept(&mut twice);
    assert_eq!(summary(&once), summary(&twice));
    assert_eq!(format!("{:?}", once), format!("{:?}", twice));
}

#[test]
fn interpreter_traces_in_pre_order() {
    let model = sample_model();
    let mut interpreter = Interpreter::new();
    model.accept(&mut interpreter);
    assert_eq!(
        interpreter.lines,
        vec![
            "hello city_model".to_string(),
            "hello building B1".to_string(),
            "hello wall_surface W1".to_string(),
            "hello window_surface WIN1".to_string(),
            "hello roof_surface R1".to_string(),
            "hello city_furniture F1".to_string(),
        ]
    );
}

#[test]
fn reading_twice_gives_equal_models() {
    assert_eq!(format!("{:?}", sample_model()), format!("{:?}", sample_model()));
}

#[test]
fn models_merge_by_concatenation() {
    let merged = CitygmlModel::from_citygml_models(vec![sample_model(), sample_model()]);
    assert_eq!(merged.building.len(), 2);
    assert_eq!(merged.city_furniture.len(), 2);
    assert_eq!(merged.number_of_objects(), 4);
    assert!(!merged.is_empty());
    assert!(CitygmlModel::from_citygml_models(Vec::new()).is_empty());
}

#[test]
fn statistics_count_features_and_geometry() {
    let model = sample_model();
    let mut statistics = ModelStatistics::new();
    model.accept(&mut statistics);
    assert_eq!(statistics.building.total, 1);
    assert_eq!(statistics.wall_surface.total, 1);
    assert_eq!(statistics.wall_surface.lod2_multi_surface, 1);
    assert_eq!(statistics.wall_surface.lod3_multi_surface, 0);
    assert_eq!(statistics.window_surface.total, 1);
    assert_eq!(statistics.window_surface.lod3_multi_surface, 1);
    assert_eq!(statistics.roof_surface.total, 1);
    assert_eq!(statistics.city_furniture.total, 1);
    assert_eq!(statistics.road.total, 0);
}
