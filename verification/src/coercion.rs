//! Errors raised while coercing input values (arguments and variables) of an operation,
//! and the kinds of values they report.

use vstd::prelude::*;

verus! {

/// A position in the operation document.
#[derive(Debug, Clone, Copy, PartialEq, Eq, Hash, Structural)]
pub struct Location {
    pub line: u16,
    pub column: u16,
}

/// The kind of an input value, as named in error messages.
#[derive(Debug, Clone, Copy, PartialEq, Eq, Structural)]
pub enum ValueKind {
    String,
    Integer,
    Enum,
    Float,
    Object,
    Boolean,
    List,
    Null,
}

/// The name of each value kind.
pub open spec fn kind_name(k: ValueKind) -> Seq<char> {
    match k {
        ValueKind::String => "String"@,
        ValueKind::Integer => "Integer"@,
        ValueKind::Enum => "Enum"@,
        ValueKind::Float => "Float"@,
        ValueKind::Object => "Object"@,
        ValueKind::Boolean => "Boolean"@,
        ValueKind::List => "List"@,
        ValueKind::Null => "Null"@,
    }
}

impl ValueKind {
    /// The kind's name, as error messages show it.
    pub fn name(&self) -> (r: &'static str)
        ensures
            r@ == kind_name(*self),
    {
        match self {
            ValueKind::String => "String",
            ValueKind::Integer => "Integer",
            ValueKind::Enum => "Enum",
            ValueKind::Float => "Float",
            ValueKind::Object => "Object",
            ValueKind::Boolean => "Boolean",
            ValueKind::List => "List",
            ValueKind::Null => "Null",
        }
    }
}

/// What the kind of a JSON value depends on: its variant, and for a number whether it is
/// held as a float.
#[derive(Debug, Clone, Copy, PartialEq, Eq, Structural)]
pub enum JsonValueShape {
    Null,
    Number { is_f64: bool },
    String,
    Object,
    Bool,
    Array,
}

/// The variant of a GraphQL value in an operation document.
#[derive(Debug, Clone, Copy, PartialEq, Eq, Structural)]
pub enum GraphqlValueShape {
    Null,
    Float,
    Int,
    String,
    Boolean,
    Enum,
    List,
    Object,
    Variable,
}

/// The kind of a JSON value.
pub open spec fn json_kind(v: JsonValueShape) -> ValueKind {
    match v {
        JsonValueShape::Null => ValueKind::Null,
        JsonValueShape::Number { is_f64 } => if is_f64 {
            ValueKind::Float
        } else {
            ValueKind::Integer
        },
        JsonValueShape::String => ValueKind::String,
        JsonValueShape::Object => ValueKind::Object,
        JsonValueShape::Bool => ValueKind::Boolean,
        JsonValueShape::Array => ValueKind::List,
    }
}

/// The kind of a GraphQL value other than a variable.
pub open spec fn graphql_kind(v: GraphqlValueShape) -> ValueKind {
    match v {
        GraphqlValueShape::Null => ValueKind::Null,
        GraphqlValueShape::Float => ValueKind::Float,
        GraphqlValueShape::Int => ValueKind::Integer,
        GraphqlValueShape::String => ValueKind::String,
        GraphqlValueShape::Boolean => ValueKind::Boolean,
        GraphqlValueShape::Enum => ValueKind::Enum,
        GraphqlValueShape::List => ValueKind::List,
        GraphqlValueShape::Object => ValueKind::Object,
        GraphqlValueShape::Variable => ValueKind::Null,
    }
}

impl From<JsonValueShape> for ValueKind {
    fn from(value: JsonValueShape) -> (r: ValueKind) {
        match value {
            JsonValueShape::Null => ValueKind::Null,
            JsonValueShape::Number { is_f64 } => if is_f64 {
                ValueKind::Float
            } else {
                ValueKind::Integer
            },
            JsonValueShape::String => ValueKind::String,
            JsonValueShape::Object => ValueKind::Object,
            JsonValueShape::Bool => ValueKind::Boolean,
            JsonValueShape::Array => ValueKind::List,
        }
    }
}

impl vstd::std_specs::convert::FromSpecImpl<JsonValueShape> for ValueKind {
    open spec fn obeys_from_spec() -> bool {
        true
    }

    open spec fn from_spec(v: JsonValueShape) -> ValueKind {
        json_kind(v)
    }
}

impl ValueKind {
    /// The kind of a GraphQL value; a variable has no kind of its own and is not accepted.
    pub fn from_graphql_value(value: GraphqlValueShape) -> (r: ValueKind)
        requires
            value != GraphqlValueShape::Variable,
        ensures
            r == graphql_kind(value),
    {
        match value {
            GraphqlValueShape::Null => ValueKind::Null,
            GraphqlValueShape::Float => ValueKind::Float,
            GraphqlValueShape::Int => ValueKind::Integer,
            GraphqlValueShape::String => ValueKind::String,
            GraphqlValueShape::Boolean => ValueKind::Boolean,
            GraphqlValueShape::Enum => ValueKind::Enum,
            GraphqlValueShape::List => ValueKind::List,
            GraphqlValueShape::Object => ValueKind::Object,
            GraphqlValueShape::Variable => {
                proof {
                    assert(false);
                }
                ValueKind::Null
            },
        }
    }
}

/// An error in coercing an input value, with where it occurred.
#[derive(Debug, Clone, PartialEq, Eq)]
pub enum InputValueError {
    ExactlyOneFIeldMustBePresentForOneOfInputObjects {
        name: String,
        path: String,
        message: String,
        location: Location,
    },
    UnexpectedNull { expected: String, path: String, location: Location },
    MissingList { actual: ValueKind, expected: String, path: String, location: Location },
    MissingObject { name: String, actual: ValueKind, path: String, location: Location },
    IncorrectScalarType { actual: ValueKind, expected: String, path: String, location: Location },
    IncorrectScalarValue { actual: String, expected: String, path: String, location: Location },
    IncorrectEnumValueType {
        enum_name: String,
        actual: ValueKind,
        path: String,
        location: Location,
    },
    UnknownEnumValue { enum_name: String, value: String, path: String, location: Location },
    IncorrectVariableType {
        name: String,
        variable_ty: String,
        actual_ty: String,
        location: Location,
        path: String,
    },
    UnknownInputField { input_object: String, name: String, location: Location, path: String },
    UnknownVariable { name: String, location: Location, path: String },
    VariableDefaultValueReliesOnAnotherVariable { name: String, location: Location, path: String },
}

/// The location every variant carries.
pub open spec fn error_location(e: InputValueError) -> Location {
    match e {
        InputValueError::ExactlyOneFIeldMustBePresentForOneOfInputObjects { location, .. } => location,
        InputValueError::UnexpectedNull { location, .. } => location,
        InputValueError::MissingList { location, .. } => location,
        InputValueError::MissingObject { location, .. } => location,
        InputValueError::IncorrectScalarType { location, .. } => location,
        InputValueError::IncorrectScalarValue { location, .. } => location,
        InputValueError::IncorrectEnumValueType { location, .. } => location,
        InputValueError::UnknownEnumValue { location, .. } => location,
        InputValueError::IncorrectVariableType { location, .. } => location,
        InputValueError::UnknownInputField { location, .. } => location,
        InputValueError::UnknownVariable { location, .. } => location,
        InputValueError::VariableDefaultValueReliesOnAnotherVariable { location, .. } => location,
    }
}

/// The message of each error.
pub open spec fn error_text(e: InputValueError) -> Seq<char> {
    match e {
        InputValueError::ExactlyOneFIeldMustBePresentForOneOfInputObjects { name, path, message, .. } =>
            "Exactly one field must be provided for "@ + name@ + " with @oneOf: "@ + message@ + path@,
        InputValueError::UnexpectedNull { expected, path, .. } =>
            "Found a null where we expected a "@ + expected@ + path@,
        InputValueError::MissingList { actual, expected, path, .. } =>
            "Found a "@ + kind_name(actual) + " value where we expected a "@ + expected@ + path@,
        InputValueError::MissingObject { name, actual, path, .. } =>
            "Found a "@ + kind_name(actual) + " value where we expected a '"@ + name@ + "' input object"@ + path@,
        InputValueError::IncorrectScalarType { actual, expected, path, .. } =>
            "Found a "@ + kind_name(actual) + " value where we expected a "@ + expected@ + " scalar"@ + path@,
        InputValueError::IncorrectScalarValue { actual, expected, path, .. } =>
            "Found value "@ + actual@ + " which cannot be coerced into a "@ + expected@ + " scalar"@ + path@,
        InputValueError::IncorrectEnumValueType { enum_name, actual, path, .. } =>
            "Found a "@ + kind_name(actual) + " value where we expected a "@ + enum_name@ + " enum value"@ + path@,
        InputValueError::UnknownEnumValue { enum_name, value, path, .. } =>
            "Unknown enum value '"@ + value@ + "' for enum "@ + enum_name@ + path@,
        InputValueError::IncorrectVariableType { name, variable_ty, actual_ty, path, .. } =>
            "Variable $"@ + name@ + " doesn't have the right type. Declared as '"@ + variable_ty@
                + "' but used as '"@ + actual_ty@ + "'"@ + path@,
        InputValueError::UnknownInputField { input_object, name, path, .. } =>
            "Input object "@ + input_object@ + " does not have a field named '"@ + name@ + "'"@ + path@,
        InputValueError::UnknownVariable { name, path, .. } => "Unknown variable $"@ + name@ + path@,
        InputValueError::VariableDefaultValueReliesOnAnotherVariable { name, path, .. } =>
            "Variable $"@ + name@ + " default value relies on another variable"@ + path@,
    }
}

impl InputValueError {
    /// Where the error occurred.
    pub fn location(&self) -> (r: Location)
        ensures
            r == error_location(*self),
    {
        match self {
            InputValueError::UnexpectedNull { location, .. }
            | InputValueError::MissingList { location, .. }
            | InputValueError::MissingObject { location, .. }
            | InputValueError::IncorrectScalarType { location, .. }
            | InputValueError::IncorrectScalarValue { location, .. }
            | InputValueError::IncorrectEnumValueType { location, .. }
            | InputValueError::UnknownVariable { location, .. }
            | InputValueError::IncorrectVariableType { location, .. }
            | InputValueError::UnknownInputField { location, .. }
            | InputValueError::VariableDefaultValueReliesOnAnotherVariable { location, .. }
            | InputValueError::UnknownEnumValue { location, .. }
            | InputValueError::ExactlyOneFIeldMustBePresentForOneOfInputObjects { location, .. } =>
                *location,
        }
    }

    /// The error message.
    pub fn message(&self) -> (r: String)
        ensures
            r@ == error_text(*self),
    {
        let mut out = String::new();
        match self {
            InputValueError::ExactlyOneFIeldMustBePresentForOneOfInputObjects { name, path, message, .. } => {
                out.append("Exactly one field must be provided for ");
                out.append(name.as_str());
                out.append(" with @oneOf: ");
                out.append(message.as_str());
                out.append(path.as_str());
            },
            InputValueError::UnexpectedNull { expected, path, .. } => {
                out.append("Found a null where we expected a ");
                out.append(expected.as_str());
                out.append(path.as_str());
            },
            InputValueError::MissingList { actual, expected, path, .. } => {
                out.append("Found a ");
                out.append(actual.name());
                out.append(" value where we expected a ");
                out.append(expected.as_str());
                out.append(path.as_str());
            },
            InputValueError::MissingObject { name, actual, path, .. } => {
                out.append("Found a ");
                out.append(actual.name());
                out.append(" value where we expected a '");
                out.append(name.as_str());
                out.append("' input object");
                out.append(path.as_str());
            },
            InputValueError::IncorrectScalarType { actual, expected, path, .. } => {
                out.append("Found a ");
                out.append(actual.name());
                out.append(" value where we expected a ");
                out.append(expected.as_str());
                out.append(" scalar");
                out.append(path.as_str());
            },
            InputValueError::IncorrectScalarValue { actual, expected, path, .. } => {
                out.append("Found value ");
                out.append(actual.as_str());
                out.append(" which cannot be coerced into a ");
                out.append(expected.as_str());
                out.append(" scalar");
                out.append(path.as_str());
            },
            InputValueError::IncorrectEnumValueType { enum_name, actual, path, .. } => {
                out.append("Found a ");
                out.append(actual.name());
                out.append(" value where we expected a ");
                out.append(enum_name.as_str());
                out.append(" enum value");
                out.append(path.as_str());
            },
            InputValueError::UnknownEnumValue { enum_name, value, path, .. } => {
                out.append("Unknown enum value '");
                out.append(value.as_str());
                out.append("' for enum ");
                out.append(enum_name.as_str());
                out.append(path.as_str());
            },
            InputValueError::IncorrectVariableType { name, variable_ty, actual_ty, path, .. } => {
                out.append("Variable $");
                out.append(name.as_str());
                out.append(" doesn't have the right type. Declared as '");
                out.append(variable_ty.as_str());
                out.append("' but used as '");
                out.append(actual_ty.as_str());
                out.append("'");
                out.append(path.as_str());
            },
            InputValueError::UnknownInputField { input_object, name, path, .. } => {
                out.append("Input object ");
                out.append(input_object.as_str());
                out.append(" does not have a field named '");
                out.append(name.as_str());
                out.append("'");
                out.append(path.as_str());
            },
            InputValueError::UnknownVariable { name, path, .. } => {
                out.append("Unknown variable $");
                out.append(name.as_str());
                out.append(path.as_str());
            },
            InputValueError::VariableDefaultValueReliesOnAnotherVariable { name, path, .. } => {
                out.append("Variable $");
                out.append(name.as_str());
                out.append(" default value relies on another variable");
                out.append(path.as_str());
            },
        }
        out
    }
}

} // verus!
