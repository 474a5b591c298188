//! The typed schema document: an immutable in-memory tree of type
//! definitions, each owning its members in declaration order.
//!
//! Type references inside fields, arguments and input fields are textual
//! names; the traversal never resolves them into definitions, so the
//! document is a strict two-level owning tree, not a graph.

use vstd::prelude::*;

verus! {

/// One argument of a field: a name and a textual type reference.
#[derive(Debug)]
pub struct Argument {
    pub name: String,
    pub value_type: String,
}

/// A field of an Object or Interface type: a name, a textual type
/// reference, its arguments in declaration order, and an optional
/// description.
#[derive(Debug)]
pub struct Field {
    pub name: String,
    pub field_type: String,
    pub arguments: Vec<Argument>,
    pub description: Option<String>,
}

/// One value of an Enum type.
#[derive(Debug)]
pub struct EnumValue {
    pub name: String,
}

/// An input field of an Input-Object type: a name, a textual type
/// reference, and an optional textual default value.
#[derive(Debug)]
pub struct InputValue {
    pub name: String,
    pub value_type: String,
    pub default_value: Option<String>,
}

/// An Object type definition with its fields in declaration order.
#[derive(Debug)]
pub struct ObjectType {
    pub name: String,
    pub fields: Vec<Field>,
}

/// An Interface type definition with its fields in declaration order.
#[derive(Debug)]
pub struct InterfaceType {
    pub name: String,
    pub fields: Vec<Field>,
}

/// A Union type definition; its member type names are data, not members:
/// traversal emits only the type-level event for a union.
#[derive(Debug)]
pub struct UnionType {
    pub name: String,
    pub types: Vec<String>,
}

/// A Scalar type definition; it has no members.
#[derive(Debug)]
pub struct ScalarType {
    pub name: String,
}

/// An Enum type definition with its values in declaration order.
#[derive(Debug)]
pub struct EnumType {
    pub name: String,
    pub values: Vec<EnumValue>,
}

/// An Input-Object type definition with its input fields in declaration
/// order.
#[derive(Debug)]
pub struct InputObjectType {
    pub name: String,
    pub fields: Vec<InputValue>,
}

/// One top-level type definition: the tagged union over the six kinds.
#[derive(Debug)]
pub enum TypeDefinition {
    Object(ObjectType),
    Interface(InterfaceType),
    Union(UnionType),
    Enum(EnumType),
    Scalar(ScalarType),
    InputObject(InputObjectType),
}

/// A schema document: its type definitions in declaration order.
#[derive(Debug)]
pub struct Document {
    pub definitions: Vec<TypeDefinition>,
}

impl Document {
    /// An empty document, ready to receive definitions in order.
    pub fn new() -> (r: Document)
        ensures
            r.definitions@.len() == 0,
    {
        Document { definitions: Vec::new() }
    }
}

} // verus!
