use grafbase_core::lexical::TextOrder;
use grafbase_core::schema::{ArgumentId, FieldArgument, FieldId, Schema, SchemaField};
use grafbase_core::wrapping::{ListWrapping, WrappingTypes};
use std::collections::HashSet;

fn scalar(required: bool) -> WrappingTypes {
    WrappingTypes { inner_is_required: required, list_wrappings: Vec::new() }
}

fn field(parent: &str, name: &str, base: &str, wrappers: WrappingTypes) -> SchemaField {
    SchemaField {
        parent_type: parent.to_string(),
        field_name: name.to_string(),
        base_type: base.to_string(),
        wrappers,
    }
}

fn argument(parent: &str, field: &str, name: &str, required: bool, has_default: bool) -> FieldArgument {
    FieldArgument {
        parent_type: parent.to_string(),
        field_name: field.to_string(),
        argument_name: name.to_string(),
        base_type: "String".to_string(),
        wrappers: scalar(required),
        has_default,
    }
}

fn build(
    fields: Vec<SchemaField>,
    args: Vec<FieldArgument>,
    imps: Vec<(String, String)>,
) -> Option<Schema> {
    Schema::new(
        fields,
        args,
        imps,
        HashSet::new(),
        "Query".to_string(),
        "Mutation".to_string(),
        "Subscription".to_string(),
    )
}

fn sample() -> Schema {
    build(
        vec![
            field("Query", "a", "Int", scalar(false)),
            field("Query", "b", "String", scalar(true)),
            field("User", "id", "ID", scalar(true)),
            field("User", "name", "String", scalar(false)),
        ],
        vec![
            argument("Query", "a", "first", false, false),
            argument("Query", "a", "limit", true, false),
            argument("Query", "b", "x", true, true),
            argument("User", "name", "format", false, false),
        ],
        vec![
            ("Admin".to_string(), "Node".to_string()),
            ("User".to_string(), "Entity".to_string()),
            ("User".to_string(), "Node".to_string()),
        ],
    )
    .unwrap()
}

#[test]
fn find_field_finds_each_field() {
    let schema = sample();
    assert_eq!(schema.find_field("Query", "a"), Some(FieldId(0)));
    assert_eq!(schema.find_field("Query", "b"), Some(FieldId(1)));
    assert_eq!(schema.find_field("User", "id"), Some(FieldId(2)));
    assert_eq!(schema.find_field("User", "name"), Some(FieldId(3)));
}

#[test]
fn find_field_misses_absent_fields() {
    let schema = sample();
    assert_eq!(schema.find_field("User", "email"), None);
    assert_eq!(schema.find_field("Aardvark", "a"), None);
    assert_eq!(schema.find_field("Zebra", "a"), None);
    assert_eq!(schema.find_field("", ""), None);
}

#[test]
fn find_field_in_empty_schema() {
    let schema = build(Vec::new(), Vec::new(), Vec::new()).unwrap();
    assert_eq!(schema.find_field("Query", "a"), None);
    assert!(schema.iter_fields("Query").is_empty());
}

#[test]
fn unsorted_parts_are_refused() {
    let fields = vec![field("User", "id", "ID", scalar(true)), field("Query", "a", "Int", scalar(false))];
    assert!(build(fields, Vec::new(), Vec::new()).is_none());
    let args = vec![argument("Query", "a", "z", false, false), argument("Query", "a", "b", false, false)];
    assert!(build(Vec::new(), args, Vec::new()).is_none());
    let imps = vec![("B".to_string(), "I".to_string()), ("A".to_string(), "I".to_string())];
    assert!(build(Vec::new(), Vec::new(), imps).is_none());
}

#[test]
fn duplicate_keys_are_kept_and_the_first_is_found() {
    let fields = vec![field("Query", "a", "Int", scalar(false)), field("Query", "a", "String", scalar(true))];
    let schema = build(fields, Vec::new(), Vec::new()).unwrap();
    assert_eq!(schema.find_field("Query", "a"), Some(FieldId(0)));
}

#[test]
fn root_type_names() {
    let schema = sample();
    assert_eq!(schema.query_type_name(), "Query");
    assert_eq!(schema.mutation_type_name(), "Mutation");
    assert_eq!(schema.subscription_type_name(), "Subscription");
    assert!(schema.input_objects().is_empty());
}

#[test]
fn iter_fields_lists_the_fields_of_a_type() {
    let schema = sample();
    let names: Vec<&str> = schema.iter_fields("User").iter().map(|f| f.field_name.as_str()).collect();
    assert_eq!(names, vec!["id", "name"]);
    let names: Vec<&str> = schema.iter_fields("Query").iter().map(|f| f.field_name.as_str()).collect();
    assert_eq!(names, vec!["a", "b"]);
    assert!(schema.iter_fields("Missing").is_empty());
    assert!(schema.iter_fields("Use").is_empty());
}

#[test]
fn find_argument_by_path() {
    let schema = sample();
    assert_eq!(schema.find_argument(("Query", "a", "limit")), Some(ArgumentId(1)));
    assert_eq!(schema.find_argument(("User", "name", "format")), Some(ArgumentId(3)));
    assert_eq!(schema.find_argument(("Query", "a", "last")), None);
    assert_eq!(schema.find_argument(("Query", "c", "x")), None);
}

#[test]
fn iter_field_arguments_lists_the_arguments_of_a_field() {
    let schema = sample();
    let args = schema.iter_field_arguments(FieldId(0));
    let got: Vec<(ArgumentId, &str)> = args.iter().map(|(id, a)| (*id, a.argument_name.as_str())).collect();
    assert_eq!(got, vec![(ArgumentId(0), "first"), (ArgumentId(1), "limit")]);
    assert!(schema.iter_field_arguments(FieldId(2)).is_empty());
    let args = schema.iter_field_arguments(FieldId(3));
    let got: Vec<(ArgumentId, &str)> = args.iter().map(|(id, a)| (*id, a.argument_name.as_str())).collect();
    assert_eq!(got, vec![(ArgumentId(3), "format")]);
}

#[test]
fn iter_field_arguments_search_starts_at_the_type() {
    // The search skips only arguments whose type name and field name both come first, so
    // for a later field of the same type it lands on the arguments of an earlier field.
    let schema = sample();
    assert!(schema.iter_field_arguments(FieldId(1)).is_empty());
}

#[test]
fn iter_field_arguments_search_is_componentwise() {
    // The argument of ("A", "z") comes before the field ("B", "b") but its field name does
    // not, so the search stops before the field's own argument.
    let fields = vec![field("A", "z", "Int", scalar(false)), field("B", "b", "Int", scalar(false))];
    let args = vec![argument("A", "z", "x", false, false), argument("B", "b", "y", false, false)];
    let schema = build(fields, args, Vec::new()).unwrap();
    assert!(schema.iter_field_arguments(FieldId(1)).is_empty());
    let got: Vec<ArgumentId> = schema.iter_field_arguments(FieldId(0)).iter().map(|(id, _)| *id).collect();
    assert_eq!(got, vec![ArgumentId(0)]);
}

#[test]
fn iter_interface_implementations_lists_interfaces() {
    let schema = sample();
    assert_eq!(schema.iter_interface_implementations("User"), vec!["Entity", "Node"]);
    assert_eq!(schema.iter_interface_implementations("Admin"), vec!["Node"]);
    assert!(schema.iter_interface_implementations("Post").is_empty());
}

#[test]
fn field_and_argument_by_id() {
    let schema = sample();
    assert_eq!(schema.field(FieldId(2)).field_name, "id");
    assert_eq!(schema.argument(ArgumentId(2)).argument_name, "x");
}

#[test]
fn render_type_and_required() {
    let list = WrappingTypes {
        inner_is_required: true,
        list_wrappings: vec![ListWrapping::NullableList, ListWrapping::RequiredList],
    };
    let f = field("Query", "matrix", "Int", list);
    assert_eq!(f.render_type(), "[[Int!]]!");
    assert!(f.is_required());
    let f = field("Query", "name", "String", scalar(false));
    assert_eq!(f.render_type(), "String");
    assert!(!f.is_required());
    let nullable_list = WrappingTypes { inner_is_required: true, list_wrappings: vec![ListWrapping::NullableList] };
    let f = field("Query", "tags", "String", nullable_list);
    assert_eq!(f.render_type(), "[String!]");
    assert!(!f.is_required());
}

#[test]
fn argument_requirements() {
    let a = argument("Query", "a", "limit", true, false);
    assert!(a.is_required());
    assert!(a.is_required_without_default_value());
    let a = argument("Query", "a", "limit", true, true);
    assert!(a.is_required());
    assert!(!a.is_required_without_default_value());
    let a = argument("Query", "a", "limit", false, false);
    assert!(!a.is_required());
    assert!(!a.is_required_without_default_value());
    assert_eq!(a.sort_key(), ("Query", "a", "limit"));
}

#[test]
fn ordering_of_fields_and_arguments() {
    let a = field("Query", "a", "Int", scalar(false));
    let b = field("Query", "b", "Int", scalar(false));
    let c = field("User", "a", "Int", scalar(false));
    assert_eq!(a.compare(&b), TextOrder::Less);
    assert_eq!(c.compare(&b), TextOrder::Greater);
    assert_eq!(a.compare(&field("Query", "a", "String", scalar(true))), TextOrder::Equal);
    let x = argument("Query", "a", "x", false, false);
    let y = argument("Query", "a", "y", false, false);
    assert_eq!(x.compare(&y), TextOrder::Less);
    assert_eq!(y.compare(&x), TextOrder::Greater);
}

#[test]
fn yielded_arguments_are_found_again_under_their_ids() {
    let schema = sample();
    for field in [FieldId(0), FieldId(1), FieldId(2), FieldId(3)] {
        let mut last = None;
        for (id, a) in schema.iter_field_arguments(field) {
            assert_eq!(schema.find_argument(a.sort_key()), Some(id));
            assert!(std::ptr::eq(schema.argument(id), a));
            assert!(last.map_or(true, |l: ArgumentId| l < id));
            last = Some(id);
        }
    }
}
