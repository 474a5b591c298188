//! Tests that build documents directly in the library's model and check
//! the traversal's observable behaviour through the example collector.

use schema_visitor::collector::{UserContext, Visitor};
use schema_visitor::schema::{
    Document, EnumType, EnumValue, Field, InputObjectType, InputValue, InterfaceType, ObjectType,
    ScalarType, TypeDefinition, UnionType,
};
use schema_visitor::traversal::{traverse, NoOpObserver};

fn strs(v: &[&str]) -> Vec<String> {
    v.iter().map(|s| s.to_string()).collect()
}

fn field(name: &str, field_type: &str) -> Field {
    Field {
        name: name.to_string(),
        field_type: field_type.to_string(),
        arguments: Vec::new(),
        description: None,
    }
}

fn book_author_document() -> Document {
    Document {
        definitions: vec![
            TypeDefinition::Object(ObjectType {
                name: "Book".to_string(),
                fields: vec![field("title", "String"), field("author", "Author")],
            }),
            TypeDefinition::Object(ObjectType {
                name: "Author".to_string(),
                fields: vec![field("name", "String"), field("books", "[Book]")],
            }),
        ],
    }
}

#[test]
fn book_author_scenario() {
    let collected = Visitor {}.collect_visited_info(&book_author_document());

    assert_eq!(collected.collected_object_type, strs(&["Book", "Author"]));
    assert_eq!(
        collected.collected_object_type_field,
        strs(&["Book.title", "Book.author", "Author.name", "Author.books"])
    );
    assert_eq!(collected.collected_scalar_type, strs(&[]));
    assert_eq!(collected.collected_union_type, strs(&[]));
    assert_eq!(collected.collected_input_type, strs(&[]));
    assert_eq!(collected.collected_enum_type, strs(&[]));
    assert_eq!(collected.collected_enum_value, strs(&[]));
    assert_eq!(collected.collected_interface_type, strs(&[]));
    assert_eq!(collected.collected_interface_type_field, strs(&[]));
    assert_eq!(collected.collected_input_type_fields, strs(&[]));
}

#[test]
fn enum_scenario() {
    let document = Document {
        definitions: vec![TypeDefinition::Enum(EnumType {
            name: "Status".to_string(),
            values: vec![
                EnumValue {
                    name: "ACTIVE".to_string(),
                },
                EnumValue {
                    name: "INACTIVE".to_string(),
                },
            ],
        })],
    };

    let collected = Visitor {}.collect_visited_info(&document);

    assert_eq!(collected.collected_enum_type, strs(&["Status"]));
    assert_eq!(
        collected.collected_enum_value,
        strs(&["Status.ACTIVE", "Status.INACTIVE"])
    );
    assert_eq!(collected.collected_object_type, strs(&[]));
    assert_eq!(collected.collected_object_type_field, strs(&[]));
}

#[test]
fn scalar_and_union_scenario() {
    let document = Document {
        definitions: vec![
            TypeDefinition::Scalar(ScalarType {
                name: "DateTime".to_string(),
            }),
            TypeDefinition::Union(UnionType {
                name: "SearchResult".to_string(),
                types: strs(&["Book", "Author"]),
            }),
        ],
    };

    let collected = Visitor {}.collect_visited_info(&document);

    assert_eq!(collected.collected_scalar_type, strs(&["DateTime"]));
    assert_eq!(collected.collected_union_type, strs(&["SearchResult"]));
    assert_eq!(collected.collected_object_type_field, strs(&[]));
    assert_eq!(collected.collected_interface_type_field, strs(&[]));
    assert_eq!(collected.collected_enum_value, strs(&[]));
    assert_eq!(collected.collected_input_type_fields, strs(&[]));
}

#[test]
fn determinism_two_walks_agree() {
    let document = book_author_document();
    let first = Visitor {}.collect_visited_info(&document);
    let second = Visitor {}.collect_visited_info(&document);

    assert_eq!(first.collected_object_type, second.collected_object_type);
    assert_eq!(
        first.collected_object_type_field,
        second.collected_object_type_field
    );
    assert_eq!(first.collected_enum_value, second.collected_enum_value);
    assert_eq!(
        first.collected_interface_type,
        second.collected_interface_type
    );
}

#[test]
fn order_and_completeness() {
    let document = Document {
        definitions: vec![
            TypeDefinition::Scalar(ScalarType {
                name: "A".to_string(),
            }),
            TypeDefinition::Object(ObjectType {
                name: "B".to_string(),
                fields: vec![field("x", "Int"), field("y", "Int"), field("z", "Int")],
            }),
            TypeDefinition::Scalar(ScalarType {
                name: "C".to_string(),
            }),
            TypeDefinition::Object(ObjectType {
                name: "D".to_string(),
                fields: vec![field("w", "Int")],
            }),
        ],
    };

    let collected = Visitor {}.collect_visited_info(&document);

    // Type-level events in declaration order, one per definition.
    assert_eq!(collected.collected_scalar_type, strs(&["A", "C"]));
    assert_eq!(collected.collected_object_type, strs(&["B", "D"]));
    // Member events in declaration order within their type, one per member.
    assert_eq!(
        collected.collected_object_type_field,
        strs(&["B.x", "B.y", "B.z", "D.w"])
    );
}

#[test]
fn kind_routing_object_vs_interface() {
    let document = Document {
        definitions: vec![
            TypeDefinition::Object(ObjectType {
                name: "Shape".to_string(),
                fields: vec![field("area", "Float")],
            }),
            TypeDefinition::Interface(InterfaceType {
                name: "Named".to_string(),
                fields: vec![field("area", "Float"), field("label", "String")],
            }),
        ],
    };

    let collected = Visitor {}.collect_visited_info(&document);

    // Object fields reach only the object field callback, and interface
    // fields only the interface one, even with equal field names.
    assert_eq!(collected.collected_object_type, strs(&["Shape"]));
    assert_eq!(collected.collected_object_type_field, strs(&["Shape.area"]));
    assert_eq!(collected.collected_interface_type, strs(&["Named"]));
    assert_eq!(
        collected.collected_interface_type_field,
        strs(&["area", "label"])
    );
}

#[test]
fn noop_observer_leaves_context_unchanged() {
    let document = book_author_document();
    let mut context = UserContext::new();
    context.collected_object_type.push("Seeded".to_string());
    context.collected_enum_value.push("Seeded.VALUE".to_string());

    traverse(&document, &NoOpObserver, &mut context);

    assert_eq!(context.collected_object_type, strs(&["Seeded"]));
    assert_eq!(context.collected_enum_value, strs(&["Seeded.VALUE"]));
    assert_eq!(context.collected_object_type_field, strs(&[]));
    assert_eq!(context.collected_scalar_type, strs(&[]));
    assert_eq!(context.collected_union_type, strs(&[]));
    assert_eq!(context.collected_input_type, strs(&[]));
    assert_eq!(context.collected_enum_type, strs(&[]));
    assert_eq!(context.collected_interface_type, strs(&[]));
    assert_eq!(context.collected_interface_type_field, strs(&[]));
    assert_eq!(context.collected_input_type_fields, strs(&[]));
}

#[test]
fn traversal_appends_to_existing_context() {
    let document = book_author_document();
    let mut context = UserContext::new();
    context.collected_object_type.push("Earlier".to_string());

    traverse(&document, &Visitor {}, &mut context);

    assert_eq!(
        context.collected_object_type,
        strs(&["Earlier", "Book", "Author"])
    );
}

#[test]
fn input_object_fields_are_qualified() {
    let document = Document {
        definitions: vec![TypeDefinition::InputObject(InputObjectType {
            name: "Filter".to_string(),
            fields: vec![
                InputValue {
                    name: "text".to_string(),
                    value_type: "String".to_string(),
                    default_value: None,
                },
                InputValue {
                    name: "limit".to_string(),
                    value_type: "Int".to_string(),
                    default_value: Some("10".to_string()),
                },
            ],
        })],
    };

    let collected = Visitor {}.collect_visited_info(&document);

    assert_eq!(collected.collected_input_type, strs(&["Filter"]));
    assert_eq!(
        collected.collected_input_type_fields,
        strs(&["Filter.text", "Filter.limit"])
    );
}

#[test]
fn empty_document_collects_nothing() {
    let document = Document::new();

    let collected = Visitor {}.collect_visited_info(&document);

    assert_eq!(collected.collected_object_type, strs(&[]));
    assert_eq!(collected.collected_scalar_type, strs(&[]));
    assert_eq!(collected.collected_union_type, strs(&[]));
    assert_eq!(collected.collected_input_type, strs(&[]));
    assert_eq!(collected.collected_enum_type, strs(&[]));
    assert_eq!(collected.collected_enum_value, strs(&[]));
    assert_eq!(collected.collected_interface_type, strs(&[]));
    assert_eq!(collected.collected_object_type_field, strs(&[]));
    assert_eq!(collected.collected_interface_type_field, strs(&[]));
    assert_eq!(collected.collected_input_type_fields, strs(&[]));
}
