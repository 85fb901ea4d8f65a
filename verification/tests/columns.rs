//! Schema type normalization: declared column types fold to lower case and
//! collapse into the service's type vocabulary, with the original always
//! recorded.

use kaggle::models::metadata::{Field, Schema};

fn schema_of(ty: &str) -> Schema {
    Schema {
        fields: vec![Field {
            name: "col".to_string(),
            description: None,
            type_field: Some(ty.to_string()),
        }],
    }
}

fn normalized(ty: &str) -> (String, String) {
    let cols = schema_of(ty).get_processed_columns();
    assert_eq!(cols.len(), 1);
    (
        cols[0].get_type().unwrap().clone(),
        cols[0].original_type().unwrap().clone(),
    )
}

#[test]
fn date_variants_normalize_to_string() {
    assert_eq!(normalized("Date"), ("string".to_string(), "date".to_string()));
    assert_eq!(normalized("date"), ("string".to_string(), "date".to_string()));
    assert_eq!(normalized("geojson"), ("string".to_string(), "geojson".to_string()));
    assert_eq!(normalized("time"), ("string".to_string(), "time".to_string()));
    assert_eq!(normalized("yearmonth"), ("string".to_string(), "yearmonth".to_string()));
    assert_eq!(normalized("duration"), ("string".to_string(), "duration".to_string()));
    assert_eq!(normalized("geopoint"), ("string".to_string(), "geopoint".to_string()));
    assert_eq!(normalized("STRING"), ("string".to_string(), "string".to_string()));
}

#[test]
fn numeric_variants_normalize_to_numeric() {
    assert_eq!(normalized("Number"), ("numeric".to_string(), "number".to_string()));
    assert_eq!(normalized("year"), ("numeric".to_string(), "year".to_string()));
    assert_eq!(normalized("numeric"), ("numeric".to_string(), "numeric".to_string()));
}

#[test]
fn boolean_and_datetime_stand_as_they_are() {
    assert_eq!(normalized("Boolean"), ("boolean".to_string(), "boolean".to_string()));
    assert_eq!(normalized("DateTime"), ("datetime".to_string(), "datetime".to_string()));
}

#[test]
fn unrecognized_types_pass_through_lowercased() {
    assert_eq!(normalized("GeoWKT"), ("geowkt".to_string(), "geowkt".to_string()));
    assert_eq!(normalized("integer"), ("integer".to_string(), "integer".to_string()));
}

#[test]
fn name_and_description_carry_over_and_untyped_fields_stay_bare() {
    let schema = Schema {
        fields: vec![
            Field {
                name: "alpha".to_string(),
                description: Some("first column".to_string()),
                type_field: Some("Date".to_string()),
            },
            Field { name: "beta".to_string(), description: None, type_field: None },
        ],
    };
    let cols = schema.get_processed_columns();
    assert_eq!(cols.len(), 2);
    assert_eq!(cols[0].name().unwrap(), "alpha");
    assert_eq!(cols[0].description().unwrap(), "first column");
    assert_eq!(cols[0].get_type().unwrap(), "string");
    assert_eq!(cols[1].name().unwrap(), "beta");
    assert!(cols[1].description().is_none());
    assert!(cols[1].get_type().is_none());
    assert!(cols[1].original_type().is_none());
}
