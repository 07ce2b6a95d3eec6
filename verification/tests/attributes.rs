use graphql_extensions::extensions::attributes::{
    count_value, error_attributes, parse_attributes, resolve_attributes, to_key_value,
    to_key_values, validation_attributes, Attribute, AttributeKey, AttributeValue,
};
use graphql_extensions::extensions::{ResolveId, ResolveInfo, ServerError, ValidationResult};
use opentelemetry::Value;

fn text(key: AttributeKey, value: &str) -> Attribute {
    Attribute { key, value: AttributeValue::Text(value.to_string()) }
}

fn number(key: AttributeKey, value: i64) -> Attribute {
    Attribute { key, value: AttributeValue::Int(value) }
}

#[test]
fn key_names() {
    assert_eq!(AttributeKey::Source.name(), "graphql.source");
    assert_eq!(AttributeKey::Variables.name(), "graphql.variables");
    assert_eq!(AttributeKey::ParentType.name(), "graphql.parentType");
    assert_eq!(AttributeKey::ReturnType.name(), "graphql.returnType");
    assert_eq!(AttributeKey::ResolveId.name(), "graphql.resolveId");
    assert_eq!(AttributeKey::Error.name(), "graphql.error");
    assert_eq!(AttributeKey::Complexity.name(), "graphql.complexity");
    assert_eq!(AttributeKey::Depth.name(), "graphql.depth");
}

#[test]
fn count_value_keeps_counts_in_range() {
    assert_eq!(count_value(0), 0);
    assert_eq!(count_value(17), 17);
    assert_eq!(count_value(i64::MAX as usize), i64::MAX);
}

#[test]
fn count_value_wraps_beyond_range() {
    assert_eq!(count_value(usize::MAX), usize::MAX as i64);
}

#[test]
fn parse_attributes_with_variables() {
    assert_eq!(
        parse_attributes("{ a }", Some("{\"x\":1}".to_string())),
        vec![
            text(AttributeKey::Source, "{ a }"),
            text(AttributeKey::Variables, "{\"x\":1}"),
        ]
    );
}

#[test]
fn parse_attributes_without_variables() {
    assert_eq!(parse_attributes("{ a }", None), vec![text(AttributeKey::Source, "{ a }")]);
}

#[test]
fn validation_attributes_are_complexity_then_depth() {
    assert_eq!(
        validation_attributes(&ValidationResult { complexity: 12, depth: 3 }),
        vec![number(AttributeKey::Complexity, 12), number(AttributeKey::Depth, 3)]
    );
    assert_eq!(
        validation_attributes(&ValidationResult { complexity: 0, depth: 0 }),
        vec![number(AttributeKey::Complexity, 0), number(AttributeKey::Depth, 0)]
    );
}

#[test]
fn resolve_attributes_are_id_and_type_names() {
    let info = ResolveInfo {
        resolve_id: ResolveId { parent: Some(2), current: 5 },
        path_node: "user.name",
        parent_type: "User",
        return_type: "String!",
    };
    assert_eq!(
        resolve_attributes(&info),
        vec![
            number(AttributeKey::ResolveId, 5),
            text(AttributeKey::ParentType, "User"),
            text(AttributeKey::ReturnType, "String!"),
        ]
    );
}

#[test]
fn error_attributes_carry_the_message() {
    assert_eq!(
        error_attributes(&ServerError { message: "not found".to_string() }),
        vec![text(AttributeKey::Error, "not found")]
    );
}

#[test]
fn text_attribute_reaches_the_tracing_api() {
    let converted = to_key_value(&text(AttributeKey::Source, "{ a }"));
    assert_eq!(converted.key.as_str(), "graphql.source");
    assert_eq!(converted.value, Value::from("{ a }".to_string()));
    assert_eq!(converted.value.as_str(), "{ a }");
}

#[test]
fn int_attribute_reaches_the_tracing_api() {
    let converted = to_key_value(&number(AttributeKey::Depth, -4));
    assert_eq!(converted.key.as_str(), "graphql.depth");
    assert_eq!(converted.value, Value::I64(-4));
}

#[test]
fn attributes_reach_the_tracing_api_in_order() {
    let converted = to_key_values(&vec![
        number(AttributeKey::ResolveId, 1),
        text(AttributeKey::ParentType, "Query"),
        text(AttributeKey::ReturnType, "Int"),
    ]);
    let keys: Vec<&str> = converted.iter().map(|attribute| attribute.key.as_str()).collect();
    assert_eq!(keys, vec!["graphql.resolveId", "graphql.parentType", "graphql.returnType"]);
    assert_eq!(converted[0].value, Value::I64(1));
    assert_eq!(converted[1].value, Value::from("Query"));
    assert_eq!(converted[2].value, Value::from("Int"));
    assert!(to_key_values(&Vec::new()).is_empty());
}
