use ecitygml::report::{insert_row_keyed, ReportElement};
use ecitygml::validate::validate_document;

#[test]
fn duplicates_and_broken_relations() {
    let document = "<core:CityModel>\
<bldg:Building gml:id=\"X1\"><relatedTo><core:CityObjectRelation><core:relationType>belongsTo</core:relationType><core:relatedTo xlink:href=\"#X1\"/></core:CityObjectRelation></relatedTo></bldg:Building>\
<bldg:Building gml:id=\"X1\"><relatedTo><core:CityObjectRelation><core:relationType>belongsTo</core:relationType><core:relatedTo xlink:href=\"#X9\"/></core:CityObjectRelation></relatedTo></bldg:Building>\
</core:CityModel>";
    let report = validate_document(document).unwrap();
    assert_eq!(report.gml_id_duplicates, vec![("X1".to_string(), 2)]);
    assert_eq!(report.broken_object_relations, vec!["#X9".to_string()]);
    assert_eq!(report.statistics.number_of_gml_duplicates, 1);
    assert_eq!(report.statistics.number_of_broken_object_relations, 1);
}

#[test]
fn id_on_three_elements_is_one_duplicate() {
    let document = "<r><a gml:id=\"D\"/><b gml:id=\"D\"/><c gml:id=\"D\"/><e gml:id=\"E\"></e></r>";
    let report = validate_document(document).unwrap();
    assert_eq!(report.gml_id_duplicates, vec![("D".to_string(), 3)]);
    let nested = "<r><a gml:id=\"N\"></a><b><c gml:id=\"N\"/></b></r>";
    assert_eq!(validate_document(nested).unwrap().gml_id_duplicates, vec![("N".to_string(), 2)]);
}

#[test]
fn element_statistics_are_sorted_and_add_up() {
    let document = "<Root><b gml:id=\"1\"></b><B></B><a></a><a gml:id=\"2\"></a><e/></Root>";
    let report = validate_document(document).unwrap();
    let names: Vec<&str> = report.xml_elements.iter().map(|e| e.element_name.as_str()).collect();
    assert_eq!(names.len(), 5);
    assert_eq!(names[0], "a");
    assert_eq!(names[3], "e");
    assert_eq!(names[4], "Root");
    let total: usize = report.xml_elements.iter().map(|e| e.number_total).sum();
    assert_eq!(total, 6);
    for row in &report.xml_elements {
        assert_eq!(row.number_total, row.number_with_gml_id + row.number_without_gml_id);
    }
    let a = report.xml_elements.iter().find(|e| e.element_name == "a").unwrap();
    assert_eq!((a.number_total, a.number_with_gml_id, a.number_without_gml_id), (2, 1, 1));
}

#[test]
fn predecessor_and_successor_references() {
    let document = "<r><s gml:id=\"S1\"><tran:predecessor xlink:href=\"#S1\"/><tran:predecessor xlink:href=\"#S7\"/><tran:successor xlink:href=\"#S8\"/></s></r>";
    let report = validate_document(document).unwrap();
    assert_eq!(report.broken_predecessor_hrefs, vec!["#S7".to_string()]);
    assert_eq!(report.broken_successor_hrefs, vec!["#S8".to_string()]);
    assert!(report.gml_id_duplicates.is_empty());
}

#[test]
fn malformed_document_fails_validation() {
    assert!(validate_document("<a></b>").is_err());
}

#[test]
fn every_element_is_counted_and_declares_its_id() {
    let document = "<r><x gml:id=\"A\"/><relatedTo><core:CityObjectRelation><core:relationType>t</core:relationType>\
<core:relatedTo xlink:href=\"#A\"/></core:CityObjectRelation></relatedTo>\
<relatedTo><core:CityObjectRelation><core:relatedTo xlink:href=\"#B\"/></core:CityObjectRelation></relatedTo>\
<tran:successor xlink:href=\"#A\"/></r>";
    let report = validate_document(document).unwrap();
    assert_eq!(report.broken_object_relations, vec!["#B".to_string()]);
    assert!(report.broken_successor_hrefs.is_empty());
    let total: usize = report.xml_elements.iter().map(|e| e.number_total).sum();
    assert_eq!(total, 10);
}

fn row(name: &str) -> ReportElement {
    ReportElement {
        element_name: name.to_string(),
        number_total: 1,
        number_with_gml_id: 0,
        number_without_gml_id: 1,
    }
}

#[test]
fn rows_are_ordered_by_the_given_keys() {
    let mut rows = Vec::new();
    let mut keys: Vec<String> = Vec::new();
    for (name, key) in [("b", "b"), ("A", "a"), ("C", "c"), ("a2", "a")] {
        insert_row_keyed(&mut rows, &mut keys, row(name), key.to_string());
    }
    let names: Vec<&str> = rows.iter().map(|r| r.element_name.as_str()).collect();
    assert_eq!(names, vec!["A", "a2", "b", "C"]);
    assert_eq!(keys, vec!["a", "a", "b", "c"]);
}
