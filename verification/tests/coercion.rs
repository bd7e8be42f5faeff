use grafbase_core::coercion::{GraphqlValueShape, InputValueError, JsonValueShape, Location, ValueKind};

fn loc() -> Location {
    Location { line: 3, column: 7 }
}

#[test]
fn value_kind_names() {
    assert_eq!(ValueKind::String.name(), "String");
    assert_eq!(ValueKind::Integer.name(), "Integer");
    assert_eq!(ValueKind::Boolean.name(), "Boolean");
    assert_eq!(ValueKind::Null.name(), "Null");
    assert_eq!(ValueKind::List.name(), "List");
}

#[test]
fn value_kind_of_json() {
    assert_eq!(ValueKind::from(JsonValueShape::Null), ValueKind::Null);
    assert_eq!(ValueKind::from(JsonValueShape::Number { is_f64: true }), ValueKind::Float);
    assert_eq!(ValueKind::from(JsonValueShape::Number { is_f64: false }), ValueKind::Integer);
    assert_eq!(ValueKind::from(JsonValueShape::String), ValueKind::String);
    assert_eq!(ValueKind::from(JsonValueShape::Object), ValueKind::Object);
    assert_eq!(ValueKind::from(JsonValueShape::Bool), ValueKind::Boolean);
    assert_eq!(ValueKind::from(JsonValueShape::Array), ValueKind::List);
}

#[test]
fn value_kind_of_graphql() {
    assert_eq!(ValueKind::from_graphql_value(GraphqlValueShape::Int), ValueKind::Integer);
    assert_eq!(ValueKind::from_graphql_value(GraphqlValueShape::Float), ValueKind::Float);
    assert_eq!(ValueKind::from_graphql_value(GraphqlValueShape::Enum), ValueKind::Enum);
    assert_eq!(ValueKind::from_graphql_value(GraphqlValueShape::List), ValueKind::List);
    assert_eq!(ValueKind::from_graphql_value(GraphqlValueShape::Null), ValueKind::Null);
}

#[test]
fn messages_and_locations() {
    let s = |x: &str| x.to_string();
    let cases = vec![
        (
            InputValueError::ExactlyOneFIeldMustBePresentForOneOfInputObjects {
                name: s("Filter"),
                path: s(" at path '.filter'"),
                message: s("2 fields were provided"),
                location: loc(),
            },
            "Exactly one field must be provided for Filter with @oneOf: 2 fields were provided at path '.filter'",
        ),
        (
            InputValueError::UnexpectedNull { expected: s("Int"), path: s(""), location: loc() },
            "Found a null where we expected a Int",
        ),
        (
            InputValueError::MissingList { actual: ValueKind::Integer, expected: s("[Int]"), path: s(" at path '.ids'"), location: loc() },
            "Found a Integer value where we expected a [Int] at path '.ids'",
        ),
        (
            InputValueError::MissingObject { name: s("UserInput"), actual: ValueKind::String, path: s(""), location: loc() },
            "Found a String value where we expected a 'UserInput' input object",
        ),
        (
            InputValueError::IncorrectScalarType { actual: ValueKind::Boolean, expected: s("Int"), path: s(""), location: loc() },
            "Found a Boolean value where we expected a Int scalar",
        ),
        (
            InputValueError::IncorrectScalarValue { actual: s("3.5"), expected: s("Int"), path: s(""), location: loc() },
            "Found value 3.5 which cannot be coerced into a Int scalar",
        ),
        (
            InputValueError::IncorrectEnumValueType { enum_name: s("Color"), actual: ValueKind::Integer, path: s(""), location: loc() },
            "Found a Integer value where we expected a Color enum value",
        ),
        (
            InputValueError::UnknownEnumValue { enum_name: s("Color"), value: s("PINK"), path: s(""), location: loc() },
            "Unknown enum value 'PINK' for enum Color",
        ),
        (
            InputValueError::IncorrectVariableType { name: s("id"), variable_ty: s("Int"), actual_ty: s("ID!"), location: loc(), path: s("") },
            "Variable $id doesn't have the right type. Declared as 'Int' but used as 'ID!'",
        ),
        (
            InputValueError::UnknownInputField { input_object: s("UserInput"), name: s("age"), location: loc(), path: s("") },
            "Input object UserInput does not have a field named 'age'",
        ),
        (
            InputValueError::UnknownVariable { name: s("x"), location: loc(), path: s("") },
            "Unknown variable $x",
        ),
        (
            InputValueError::VariableDefaultValueReliesOnAnotherVariable { name: s("x"), location: loc(), path: s("") },
            "Variable $x default value relies on another variable",
        ),
    ];
    for (err, text) in cases {
        assert_eq!(err.message(), text);
        assert_eq!(err.location(), loc());
    }
}
