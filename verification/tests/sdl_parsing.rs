//! Tests that feed the collector with documents produced by the real SDL
//! parser of graphql-tools, converted into the library's document model.

use graphql_tools::static_graphql::schema as gql;

use schema_visitor::collector::Visitor;
use schema_visitor::schema::{
    Argument, Document, EnumType, EnumValue, Field, InputObjectType, InputValue, InterfaceType,
    ObjectType, ScalarType, TypeDefinition, UnionType,
};

fn convert_type(t: &gql::Type) -> String {
    t.to_string()
}

fn convert_field(f: &gql::Field) -> Field {
    Field {
        name: f.name.clone(),
        field_type: convert_type(&f.field_type),
        arguments: f
            .arguments
            .iter()
            .map(|a| Argument {
                name: a.name.clone(),
                value_type: convert_type(&a.value_type),
            })
            .collect(),
        description: f.description.clone(),
    }
}

fn convert_input_value(v: &gql::InputValue) -> InputValue {
    InputValue {
        name: v.name.clone(),
        value_type: convert_type(&v.value_type),
        default_value: v.default_value.as_ref().map(|d| d.to_string()),
    }
}

fn convert_document(doc: &gql::Document) -> Document {
    let mut out = Document::new();
    for definition in &doc.definitions {
        if let gql::Definition::TypeDefinition(td) = definition {
            let converted = match td {
                gql::TypeDefinition::Object(o) => TypeDefinition::Object(ObjectType {
                    name: o.name.clone(),
                    fields: o.fields.iter().map(convert_field).collect(),
                }),
                gql::TypeDefinition::Interface(i) => TypeDefinition::Interface(InterfaceType {
                    name: i.name.clone(),
                    fields: i.fields.iter().map(convert_field).collect(),
                }),
                gql::TypeDefinition::Union(u) => TypeDefinition::Union(UnionType {
                    name: u.name.clone(),
                    types: u.types.clone(),
                }),
                gql::TypeDefinition::Enum(e) => TypeDefinition::Enum(EnumType {
                    name: e.name.clone(),
                    values: e
                        .values
                        .iter()
                        .map(|v| EnumValue { name: v.name.clone() })
                        .collect(),
                }),
                gql::TypeDefinition::Scalar(s) => TypeDefinition::Scalar(ScalarType {
                    name: s.name.clone(),
                }),
                gql::TypeDefinition::InputObject(io) => {
                    TypeDefinition::InputObject(InputObjectType {
                        name: io.name.clone(),
                        fields: io.fields.iter().map(convert_input_value).collect(),
                    })
                }
            };
            out.definitions.push(converted);
        }
    }
    out
}

fn strs(v: &[&str]) -> Vec<String> {
    v.iter().map(|s| s.to_string()).collect()
}

#[test]
fn snapshot() {
    let schema = "
type Book {
  title: String
  author: Author
}

type Author {
  name: String
  books: [Book]
}
";
    let schema_document = gql::parse_schema::<String>(schema).unwrap();

    let document = convert_document(&schema_document);
    let visitor = Visitor {};
    let collected = visitor.collect_visited_info(&document);

    assert_eq!(collected.collected_object_type, strs(&["Book", "Author"]));
    assert_eq!(collected.collected_scalar_type, strs(&[]));
    assert_eq!(collected.collected_union_type, strs(&[]));
    assert_eq!(collected.collected_input_type, strs(&[]));
    assert_eq!(collected.collected_enum_type, strs(&[]));
    assert_eq!(collected.collected_enum_value, strs(&[]));
    assert_eq!(collected.collected_interface_type, strs(&[]));
    assert_eq!(
        collected.collected_object_type_field,
        strs(&["Book.title", "Book.author", "Author.name", "Author.books"])
    );
    assert_eq!(collected.collected_interface_type_field, strs(&[]));
    assert_eq!(collected.collected_input_type_fields, strs(&[]));
}

#[test]
fn parsed_mixed_kinds() {
    let schema = "
scalar DateTime

interface Node {
  id: ID!
}

enum Status {
  ACTIVE
  INACTIVE
}

union SearchResult = Book | Author

type Book {
  title: String
}

type Author {
  name: String
}

input Filter {
  text: String
  limit: Int = 10
}
";
    let schema_document = gql::parse_schema::<String>(schema).unwrap();

    let document = convert_document(&schema_document);
    let collected = Visitor {}.collect_visited_info(&document);

    assert_eq!(collected.collected_scalar_type, strs(&["DateTime"]));
    assert_eq!(collected.collected_interface_type, strs(&["Node"]));
    assert_eq!(collected.collected_interface_type_field, strs(&["id"]));
    assert_eq!(collected.collected_enum_type, strs(&["Status"]));
    assert_eq!(
        collected.collected_enum_value,
        strs(&["Status.ACTIVE", "Status.INACTIVE"])
    );
    assert_eq!(collected.collected_union_type, strs(&["SearchResult"]));
    assert_eq!(collected.collected_object_type, strs(&["Book", "Author"]));
    assert_eq!(
        collected.collected_object_type_field,
        strs(&["Book.title", "Author.name"])
    );
    assert_eq!(collected.collected_input_type, strs(&["Filter"]));
    assert_eq!(
        collected.collected_input_type_fields,
        strs(&["Filter.text", "Filter.limit"])
    );
}
