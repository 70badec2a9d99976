//! Tests of the text-level building blocks: decimal rendering, the
//! line-number gutter, joining, and the canonical serializer.

use openapi_tui::canon::serialize_schema;
use openapi_tui::schema::NamedSchema;
use openapi_tui::schema::Property;
use openapi_tui::schema::Schema;
use openapi_tui::schema::resolve_schema;
use openapi_tui::text::dec_string;
use openapi_tui::text::gutter_text;
use openapi_tui::text::join_lines;
use openapi_tui::text::spaces;

#[test]
fn dec_string_renders_decimals() {
    assert_eq!(dec_string(0), "0");
    assert_eq!(dec_string(7), "7");
    assert_eq!(dec_string(42), "42");
    assert_eq!(dec_string(1234), "1234");
}

#[test]
fn gutter_is_left_aligned_in_a_width_three_field() {
    assert_eq!(gutter_text(1), " 1   ");
    assert_eq!(gutter_text(12), " 12  ");
    assert_eq!(gutter_text(123), " 123 ");
    assert_eq!(gutter_text(1234), " 1234 ");
}

#[test]
fn spaces_repeats_a_space() {
    assert_eq!(spaces(0), "");
    assert_eq!(spaces(3), "   ");
}

#[test]
fn join_lines_terminates_every_line() {
    let lines = vec![String::from("a"), String::from("bc")];
    assert_eq!(join_lines(&lines), "a\nbc\n");
    assert_eq!(join_lines(&Vec::new()), "");
}

#[test]
fn canonical_serialization_is_exact() {
    let schema = Schema::Object(vec![
        Property {
            name: String::from("name"),
            schema: Schema::Primitive(String::from("string")),
        },
        Property {
            name: String::from("tags"),
            schema: Schema::Array(Box::new(Schema::Primitive(String::from("string")))),
        },
    ]);
    let lines = serialize_schema(&schema).unwrap();
    assert_eq!(
        lines,
        vec![
            String::from("type: object"),
            String::from("properties:"),
            String::from("  name:"),
            String::from("    type: string"),
            String::from("  tags:"),
            String::from("    type: array"),
            String::from("    items:"),
            String::from("      type: string"),
        ]
    );
}

#[test]
fn empty_object_serializes_to_one_line() {
    let lines = serialize_schema(&Schema::Object(vec![])).unwrap();
    assert_eq!(lines, vec![String::from("type: object")]);
}

#[test]
fn unresolved_reference_serializes_as_a_reference_line() {
    let lines = serialize_schema(&Schema::Reference(String::from("Pet"))).unwrap();
    assert_eq!(lines, vec![String::from("$ref: Pet")]);
}

#[test]
fn resolve_schema_follows_chains() {
    let components = vec![
        NamedSchema {
            name: String::from("A"),
            schema: Schema::Reference(String::from("B")),
        },
        NamedSchema {
            name: String::from("B"),
            schema: Schema::Primitive(String::from("integer")),
        },
    ];
    let resolved = resolve_schema(&Schema::Reference(String::from("A")), &components, 64).unwrap();
    let lines = serialize_schema(&resolved).unwrap();
    assert_eq!(lines, vec![String::from("type: integer")]);
}
