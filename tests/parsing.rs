use ecitygml::model::Id;
use ecitygml::parser::{
    parse_building, parse_geometries, parse_reference_point, parse_city_object, parse_generic_attribute, parse_generic_double_attribute,
    parse_generic_int_attribute, parse_generic_string_attribute, parse_implicit_geometry,
    parse_wall_surface, read_model, ReadError,
};
use ecitygml::validate::parse_city_object_relation;

const SQUARE: &str = "<gml:MultiSurface srsDimension=\"3\"><gml:surfaceMember><gml:Polygon><gml:exterior><gml:LinearRing><gml:posList>0 0 0 1 0 0 1 1 0 0 1 0 0 0 0</gml:posList></gml:LinearRing></gml:exterior></gml:Polygon></gml:surfaceMember></gml:MultiSurface>";

#[test]
fn test_parse_generic_attribute_basic() {
    let xml_document = String::from(
        "<gen:StringAttribute>
    <gen:name>attribute_name</gen:name>
    <gen:value>1100</gen:value>
  </gen:StringAttribute>",
    );

    let generic_attribute = parse_generic_attribute(&xml_document).expect("should work");

    assert_eq!(generic_attribute.name(), "attribute_name");
    assert_eq!(generic_attribute.as_string().expect("must be string").value, "1100");
}

#[test]
fn test_parse_string_attribute_basic() {
    let xml_document = String::from(
        "<gen:StringAttribute>
          <gen:name>attribute_name</gen:name>
          <gen:value>1100</gen:value>
        </gen:StringAttribute>",
    );

    let string_attribute = parse_generic_string_attribute(&xml_document).expect("should work");

    assert_eq!(string_attribute.name, "attribute_name");
    assert_eq!(string_attribute.value, "1100");
}

#[test]
fn test_parse_int_attribute_basic() {
    let xml_document = String::from(
        "<gen:IntAttribute>
          <gen:name>attribute_name</gen:name>
          <gen:value>1100</gen:value>
        </gen:IntAttribute>",
    );

    let int_attribute = parse_generic_int_attribute(&xml_document).expect("should work");

    assert_eq!(int_attribute.name, "attribute_name");
    assert_eq!(int_attribute.value, 1100);
}

#[test]
fn test_parse_double_attribute_basic() {
    let xml_document = String::from(
        "<gen:IntAttribute>
          <gen:name>attribute_name</gen:name>
          <gen:value>42.2</gen:value>
        </gen:IntAttribute>",
    );

    let double_attribute = parse_generic_double_attribute(&xml_document).expect("should work");

    assert_eq!(double_attribute.name, "attribute_name");
    assert_eq!(double_attribute.value.parse::<f64>().unwrap(), 42.2);
}

#[test]
fn test_parse_city_object_basic() {
    let id = Id::try_from_str("test-id-123").expect("should work");
    let xml_document = String::from(
        "<genericAttribute>
        <gen:StringAttribute>
          <gen:name>DatenquelleBodenhoehe</gen:name>
          <gen:value>1100</gen:value>
        </gen:StringAttribute>
      </genericAttribute>
      <genericAttribute>
        <gen:StringAttribute>
          <gen:name>DatenquelleDachhoehe</gen:name>
          <gen:value>1000</gen:value>
        </gen:StringAttribute>
      </genericAttribute>",
    );

    let city_object = parse_city_object(&id, &xml_document).expect("should work");

    assert_eq!(city_object.gml.id.as_str(), id.as_str());
    assert_eq!(city_object.generic_attributes.len(), 2);
}

#[test]
fn test_parse_city_object_with_mixed_attributes_xml() {
    let id = Id::try_from_str("empty-test").expect("should work");
    let xml_document = String::from(
        "
      <genericAttribute>
        <gen:StringAttribute>
          <gen:name>attribute_name_one</gen:name>
          <gen:value>1100</gen:value>
        </gen:StringAttribute>
      </genericAttribute>
      <genericAttribute>
        <gen:IntAttribute>
          <gen:name>attribute_name_two</gen:name>
          <gen:value>1100</gen:value>
        </gen:IntAttribute>
      </genericAttribute>
       <genericAttribute>
        <gen:DoubleAttribute>
          <gen:name>attribute_name_three</gen:name>
          <gen:value>1100</gen:value>
        </gen:DoubleAttribute>
      </genericAttribute>
      ",
    );

    let city_object = parse_city_object(&id, &xml_document).expect("should work");

    assert_eq!(city_object.gml.id.as_str(), id.as_str());
    assert_eq!(city_object.gml.name, vec!["name".to_string()]);
    assert_eq!(city_object.generic_attributes.len(), 3);
}

#[test]
fn test_parse_implicit_geometry_basic() {
    let xml_document = String::from(
        "<ImplicitGeometry>
    <transformationMatrix>-0.5894514707536183 -0.8078037903020735 0.0 0.0 0.8078037903020735 -0.5894514707536183 0.0 0.0 0.0 0.0 1.0 0.0 0.0 0.0 0.0 1.0</transformationMatrix>
    <referencePoint>
        <gml:Point>
            <gml:pos srsDimension=\"3\">678298.3706294019 5403791.857383491 366.9430094360463</gml:pos>
        </gml:Point>
    </referencePoint>
</ImplicitGeometry>",
    );

    let generic_attribute = parse_implicit_geometry(&xml_document).expect("should work");

    assert_eq!(generic_attribute.reference_point.x(), 678298.3706294019);
    assert_eq!(generic_attribute.reference_point.y(), 5403791.857383491);
    assert_eq!(generic_attribute.reference_point.z(), 366.9430094360463);
}

#[test]
fn parsing_city_object_relation() {
    let source_text = "<CityObjectRelation><relationType>belongsTo</relationType><relatedTo xlink:href=\"#UUID_c930adc7-9e6c-3eea-a377-b31d9d5b6239\"/></CityObjectRelation>";

    let city_object_relation = parse_city_object_relation(source_text).unwrap();

    assert_eq!(city_object_relation.related_type.value, "belongsTo");
    assert_eq!(city_object_relation.related_to.xlink_href, "#UUID_c930adc7-9e6c-3eea-a377-b31d9d5b6239");
}

fn building_document(window_geometry: &str) -> String {
    format!(
        "<core:CityModel><cityObjectMember><bldg:Building gml:id=\"B1\">\
<boundary><con:WallSurface gml:id=\"W1\"><lod2MultiSurface>{SQUARE}</lod2MultiSurface>\
<fillingSurface><con:WindowSurface gml:id=\"WIN1\"><lod3MultiSurface>{window_geometry}</lod3MultiSurface></con:WindowSurface></fillingSurface>\
</con:WallSurface></boundary></bldg:Building></cityObjectMember></core:CityModel>"
    )
}

#[test]
fn building_with_wall_and_window() {
    let mut warnings = Vec::new();
    let model = read_model(&building_document(SQUARE), &mut warnings).expect("well-formed");
    assert_eq!(model.building.len(), 1);
    assert_eq!(model.building[0].wall_surface.len(), 1);
    let wall = &model.building[0].wall_surface[0];
    assert_eq!(wall.window_surface.len(), 1);
    assert_eq!(wall.thematic_surface.city_object.gml.id.as_str(), "W1");
    assert!(wall.thematic_surface.lod2_multi_surface.is_some());
    assert!(wall.window_surface[0].occupied_space.space.lod3_multi_surface.is_some());
    assert!(warnings.is_empty());
    assert_eq!(model.number_of_objects(), 1);
}

#[test]
fn malformed_lod3_geometry_leaves_field_empty() {
    let id = Id::try_from_str("W2").unwrap();
    let document = "<lod2MultiSurface>".to_string()
        + SQUARE
        + "</lod2MultiSurface><lod3MultiSurface><gml:MultiSurface></gml:MultiSurface></lod3MultiSurface>";
    let mut warnings = Vec::new();
    let wall = parse_wall_surface(&id, &document, &mut warnings).expect("still a wall surface");
    assert!(wall.thematic_surface.lod2_multi_surface.is_some());
    assert!(wall.thematic_surface.lod3_multi_surface.is_none());
    assert_eq!(warnings.len(), 1);
    assert_eq!(warnings[0].feature_id, "W2");
    assert_eq!(warnings[0].field, "lod3MultiSurface");
}

#[test]
fn synthetic_identifier_is_stable() {
    let document = "<bldg:Building><lod1Solid>x</lod1Solid></bldg:Building>";
    let mut warnings = Vec::new();
    let first = read_model(document, &mut warnings).unwrap();
    let second = read_model(document, &mut warnings).unwrap();
    let a = first.building[0].occupied_space.space.city_object.gml.id.as_str().to_string();
    let b = second.building[0].occupied_space.space.city_object.gml.id.as_str().to_string();
    assert_eq!(a, b);
    assert_eq!(a.len(), 64);
    assert_ne!(a, "<lod1Solid>x</lod1Solid>");
}

#[test]
fn unnamed_attribute_is_dropped() {
    let id = Id::try_from_str("C1").unwrap();
    let document = "<genericAttribute><gen:StringAttribute><gen:name></gen:name><gen:value>1</gen:value></gen:StringAttribute></genericAttribute>\
<genericAttribute><gen:IntAttribute><gen:name>n</gen:name><gen:value>-7</gen:value></gen:IntAttribute></genericAttribute>";
    let city_object = parse_city_object(&id, document).unwrap();
    assert_eq!(city_object.generic_attributes.len(), 1);
    assert_eq!(city_object.generic_attributes[0].as_int().unwrap().value, -7);
    let attribute = "<gen:StringAttribute><gen:name></gen:name><gen:value>1</gen:value></gen:StringAttribute>";
    assert!(matches!(parse_generic_attribute(attribute), Err(ReadError::AttributeWithoutName(_))));
}

#[test]
fn invalid_values_are_rejected() {
    let int_attribute = "<gen:IntAttribute><gen:name>n</gen:name><gen:value>12a</gen:value></gen:IntAttribute>";
    assert!(matches!(parse_generic_int_attribute(int_attribute), Err(ReadError::InvalidValue(_))));
    let too_big = "<gen:IntAttribute><gen:name>n</gen:name><gen:value>9223372036854775808</gen:value></gen:IntAttribute>";
    assert!(parse_generic_int_attribute(too_big).is_err());
    let smallest = "<gen:IntAttribute><gen:name>n</gen:name><gen:value>-9223372036854775808</gen:value></gen:IntAttribute>";
    assert_eq!(parse_generic_int_attribute(smallest).unwrap().value, i64::MIN);
    let double_attribute = "<gen:DoubleAttribute><gen:name>n</gen:name><gen:value>1.5e3</gen:value></gen:DoubleAttribute>";
    assert_eq!(parse_generic_double_attribute(double_attribute).unwrap().value, "1.5e3");
    let not_double = "<gen:DoubleAttribute><gen:name>n</gen:name><gen:value>1.2.3</gen:value></gen:DoubleAttribute>";
    assert!(matches!(parse_generic_double_attribute(not_double), Err(ReadError::InvalidValue(_))));
    let missing_value = "<gen:StringAttribute><gen:name>n</gen:name></gen:StringAttribute>";
    assert!(matches!(parse_generic_string_attribute(missing_value), Err(ReadError::ElementNotFound(_))));
}

#[test]
fn malformed_document_is_an_error() {
    let mut warnings = Vec::new();
    assert!(matches!(read_model("<a><b></a>", &mut warnings), Err(ReadError::Xml(_))));
    assert!(matches!(read_model("<a>", &mut warnings), Err(ReadError::Xml(_))));
    let id = Id::try_from_str("x").unwrap();
    assert!(parse_building(&id, "</c>", &mut warnings).is_err());
}

#[test]
fn empty_identifier_is_refused() {
    assert!(Id::try_from_str("").is_none());
    assert_eq!(Id::try_from_str("a").unwrap().as_str(), "a");
}

#[test]
fn geometries_anywhere_in_a_document() {
    let document = format!(
        "<a><b><lod2MultiSurface>{SQUARE}</lod2MultiSurface></b><lod3MultiSurface><gml:MultiSurface></gml:MultiSurface></lod3MultiSurface></a>"
    );
    let mut warnings = Vec::new();
    let g = parse_geometries(&document, &mut warnings).unwrap();
    assert!(g.lod2_multi_surface.is_some());
    assert!(g.lod3_multi_surface.is_none());
    assert!(g.lod1_solid.is_none());
    assert_eq!(warnings.len(), 1);
    let broken = "<lod1Solid><gml:Solid><gml:exterior><gml:Shell><gml:surfaceMember><gml:Polygon><gml:exterior><gml:LinearRing></gml:LinearRing></gml:exterior></gml:Polygon></gml:surfaceMember></gml:Shell></gml:exterior></gml:Solid></lod1Solid><lod2MultiSurface><gml:MultiSurface></gml:MultiSurface></lod2MultiSurface>";
    let mut warnings = Vec::new();
    let g = parse_geometries(broken, &mut warnings).expect("fields are read one by one");
    assert!(g.lod1_solid.is_none() && g.lod2_multi_surface.is_none());
    assert_eq!(warnings.len(), 2);
    assert_eq!(warnings[0].field, "lod1Solid");
    assert_eq!(warnings[1].field, "lod2MultiSurface");
    let solid3 = "<a><lod3Solid><gml:Solid><gml:exterior><gml:Shell><gml:surfaceMember><gml:Polygon><gml:exterior><gml:LinearRing></gml:LinearRing></gml:exterior></gml:Polygon></gml:surfaceMember></gml:Shell></gml:exterior></gml:Solid></lod3Solid></a>";
    let mut warnings = Vec::new();
    assert!(parse_geometries(solid3, &mut warnings).unwrap().lod3_solid.is_none());
    assert_eq!(warnings[0].field, "lod3Solid");

    assert!(parse_reference_point("<a></a>").unwrap().is_none());
    let point = "<referencePoint><gml:Point><gml:pos srsDimension=\"3\">1 2 3</gml:pos></gml:Point></referencePoint>";
    let p = parse_reference_point(point).unwrap().unwrap();
    assert_eq!((p.x(), p.y(), p.z()), (1.0, 2.0, 3.0));
}

#[test]
fn ring_without_positions_is_left_out() {
    let id = Id::try_from_str("S1").unwrap();
    let empty_ring = "<gml:MultiSurface><gml:surfaceMember><gml:Polygon><gml:exterior><gml:LinearRing><gml:posList></gml:posList></gml:LinearRing></gml:exterior></gml:Polygon></gml:surfaceMember></gml:MultiSurface>";
    let words_only = "<gml:MultiSurface><gml:surfaceMember><gml:Polygon><gml:exterior><gml:LinearRing><gml:posList>a b c</gml:posList></gml:LinearRing></gml:exterior></gml:Polygon></gml:surfaceMember></gml:MultiSurface>";
    let no_positions = "<gml:MultiSurface><gml:surfaceMember><gml:Polygon><gml:exterior><gml:LinearRing></gml:LinearRing></gml:exterior></gml:Polygon></gml:surfaceMember></gml:MultiSurface>";
    let document = format!(
        "<lod0MultiSurface>{empty_ring}</lod0MultiSurface><lod2MultiSurface>{words_only}</lod2MultiSurface><lod3MultiSurface>{no_positions}</lod3MultiSurface><lod1Solid><gml:Solid><gml:exterior><gml:Shell><gml:surfaceMember><gml:Polygon><gml:exterior><gml:LinearRing><gml:posList/></gml:LinearRing></gml:exterior></gml:Polygon></gml:surfaceMember></gml:Shell></gml:exterior></gml:Solid></lod1Solid>"
    );
    let mut warnings = Vec::new();
    let space = ecitygml::parser::parse_space(&id, &document, &mut warnings).unwrap();
    assert!(space.lod0_multi_surface.is_none());
    assert!(space.lod2_multi_surface.is_none());
    assert!(space.lod3_multi_surface.is_none());
    assert!(space.lod1_solid.is_none());
    let fields: Vec<&str> = warnings.iter().map(|w| w.field.as_str()).collect();
    assert_eq!(fields, vec!["lod0MultiSurface", "lod2MultiSurface", "lod3MultiSurface", "lod1Solid"]);
    assert!(warnings.iter().all(|w| w.feature_id == "S1"));
}

#[test]
fn warnings_follow_nested_features() {
    let mut warnings = Vec::new();
    let document = "<bldg:Building gml:id=\"B\"><lod2MultiSurface><gml:MultiSurface></gml:MultiSurface></lod2MultiSurface>\
<boundary><con:WallSurface gml:id=\"W\"><lod3MultiSurface><gml:MultiSurface></gml:MultiSurface></lod3MultiSurface></con:WallSurface></boundary></bldg:Building>";
    read_model(document, &mut warnings).unwrap();
    let seen: Vec<(&str, &str)> = warnings.iter().map(|w| (w.feature_id.as_str(), w.field.as_str())).collect();
    assert_eq!(seen, vec![("B", "lod2MultiSurface"), ("W", "lod3MultiSurface")]);
}

#[test]
fn geometry_egml_reads_is_kept() {
    let id = Id::try_from_str("T1").unwrap();
    let named = "<gml:MultiSurface><gml:surfaceMember><gml:Polygon><gml:exterior><gml:LinearRing><gml:name>r</gml:name><gml:posList>0 0 0 1 0 0 1 1 0 0 0 0</gml:posList></gml:LinearRing></gml:exterior></gml:Polygon></gml:surfaceMember></gml:MultiSurface>";
    let commented = "<gml:MultiSurface><gml:surfaceMember><gml:Polygon><gml:exterior><gml:LinearRing><gml:posList><!-- c -->0 0 0 1 0 0 1 1 0 0 0 0</gml:posList></gml:LinearRing></gml:exterior></gml:Polygon></gml:surfaceMember></gml:MultiSurface>";
    let cdata = "<gml:MultiSurface><gml:surfaceMember><gml:Polygon><gml:exterior><gml:LinearRing><gml:posList><![CDATA[0 0 0 1 0 0 1 1 0 0 0 0]]></gml:posList></gml:LinearRing></gml:exterior></gml:Polygon></gml:surfaceMember></gml:MultiSurface>";
    let document = format!(
        "<lod0MultiSurface>{named}</lod0MultiSurface><lod1MultiSurface>{commented}</lod1MultiSurface><lod2MultiSurface>{cdata}</lod2MultiSurface>"
    );
    let mut warnings = Vec::new();
    let surface = ecitygml::parser::parse_thematic_surface(&id, &document, &mut warnings).unwrap();
    assert!(surface.lod0_multi_surface.is_some());
    assert!(surface.lod1_multi_surface.is_some());
    assert!(surface.lod2_multi_surface.is_some());
    assert!(warnings.is_empty());
}

#[test]
fn attribute_text_is_trimmed_and_resolved() {
    let int_attribute = "<gen:IntAttribute><gen:name> n </gen:name><gen:value> 1100 </gen:value></gen:IntAttribute>";
    let a = parse_generic_int_attribute(int_attribute).unwrap();
    assert_eq!((a.name.as_str(), a.value), ("n", 1100));
    let string_attribute = "<gen:StringAttribute><gen:name>s</gen:name><gen:value>A &amp; B</gen:value></gen:StringAttribute>";
    assert_eq!(parse_generic_string_attribute(string_attribute).unwrap().value, "A & B");
    let infinite = "<gen:DoubleAttribute><gen:name>d</gen:name><gen:value>-Infinity</gen:value></gen:DoubleAttribute>";
    assert_eq!(parse_generic_double_attribute(infinite).unwrap().value.parse::<f64>().unwrap(), f64::NEG_INFINITY);
    let nan = "<gen:DoubleAttribute><gen:name>d</gen:name><gen:value>NaN</gen:value></gen:DoubleAttribute>";
    assert!(parse_generic_double_attribute(nan).is_ok());
}
