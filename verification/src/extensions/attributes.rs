//! The attributes that the tracing extension attaches to its spans.

use crate::extensions::backend::{int_value, int_value_of, key_value, key_value_of, text_value, text_value_of};
use crate::extensions::{ResolveInfo, ServerError, ValidationResult};
use opentelemetry::KeyValue;
use vstd::prelude::*;

verus! {

/// The keys of the attributes.
#[derive(Clone, Copy, PartialEq, Eq, Debug, Structural)]
pub enum AttributeKey {
    /// The text of the query.
    Source,
    /// The variables of the request, as JSON.
    Variables,
    /// The name of the type that holds a field.
    ParentType,
    /// The name of the type that a field returns.
    ReturnType,
    /// The id of a field resolution.
    ResolveId,
    /// The message of an error.
    Error,
    /// The complexity of the query.
    Complexity,
    /// The depth of the query.
    Depth,
}

impl AttributeKey {
    /// The name under which the key reaches the tracer.
    pub open spec fn text(self) -> Seq<char> {
        match self {
            AttributeKey::Source => "graphql.source"@,
            AttributeKey::Variables => "graphql.variables"@,
            AttributeKey::ParentType => "graphql.parentType"@,
            AttributeKey::ReturnType => "graphql.returnType"@,
            AttributeKey::ResolveId => "graphql.resolveId"@,
            AttributeKey::Error => "graphql.error"@,
            AttributeKey::Complexity => "graphql.complexity"@,
            AttributeKey::Depth => "graphql.depth"@,
        }
    }

    /// The name under which the key reaches the tracer.
    pub fn name(self) -> (name: &'static str)
        ensures
            name@ == self.text(),
    {
        match self {
            AttributeKey::Source => "graphql.source",
            AttributeKey::Variables => "graphql.variables",
            AttributeKey::ParentType => "graphql.parentType",
            AttributeKey::ReturnType => "graphql.returnType",
            AttributeKey::ResolveId => "graphql.resolveId",
            AttributeKey::Error => "graphql.error",
            AttributeKey::Complexity => "graphql.complexity",
            AttributeKey::Depth => "graphql.depth",
        }
    }
}

/// The value of an attribute.
#[derive(Debug, PartialEq, Eq)]
pub enum AttributeValue {
    /// A text.
    Text(String),
    /// An integer.
    Int(i64),
}

/// The value of an attribute, as contracts see it.
pub enum AttributeValueView {
    /// A text.
    Text(Seq<char>),
    /// An integer.
    Int(i64),
}

impl View for AttributeValue {
    type V = AttributeValueView;

    open spec fn view(&self) -> AttributeValueView {
        match self {
            AttributeValue::Text(text) => AttributeValueView::Text(text@),
            AttributeValue::Int(number) => AttributeValueView::Int(*number),
        }
    }
}

/// One attribute of a span or of an event.
#[derive(Debug, PartialEq, Eq)]
pub struct Attribute {
    /// What the attribute tells.
    pub key: AttributeKey,
    /// What it tells of it.
    pub value: AttributeValue,
}

/// One attribute, as contracts see it.
pub struct AttributeView {
    /// What the attribute tells.
    pub key: AttributeKey,
    /// What it tells of it.
    pub value: AttributeValueView,
}

impl View for Attribute {
    type V = AttributeView;

    open spec fn view(&self) -> AttributeView {
        AttributeView { key: self.key, value: self.value@ }
    }
}

/// A text attribute, as contracts see it.
pub open spec fn text_attribute(key: AttributeKey, text: Seq<char>) -> AttributeView {
    AttributeView { key, value: AttributeValueView::Text(text) }
}

/// An integer attribute, as contracts see it.
pub open spec fn int_attribute(key: AttributeKey, number: i64) -> AttributeView {
    AttributeView { key, value: AttributeValueView::Int(number) }
}

/// The attributes of a list, each as contracts see it.
pub open spec fn views(attributes: Seq<Attribute>) -> Seq<AttributeView> {
    attributes.map_values(|attribute: Attribute| attribute@)
}

/// The attribute as the tracing API holds it.
pub open spec fn as_key_value(attribute: AttributeView) -> KeyValue {
    key_value_of(
        attribute.key.text(),
        match attribute.value {
            AttributeValueView::Text(text) => text_value_of(text),
            AttributeValueView::Int(number) => int_value_of(number),
        },
    )
}

/// Hands one attribute over to the tracing API.
pub fn to_key_value(attribute: &Attribute) -> (converted: KeyValue)
    ensures
        converted == as_key_value(attribute@),
{
    let value = match &attribute.value {
        AttributeValue::Text(text) => text_value(text.as_str()),
        AttributeValue::Int(number) => int_value(*number),
    };
    key_value(attribute.key.name(), value)
}

/// Hands a list of attributes over to the tracing API, in their order.
pub fn to_key_values(attributes: &Vec<Attribute>) -> (converted: Vec<KeyValue>)
    ensures
        converted@ == views(attributes@).map_values(|attribute: AttributeView| as_key_value(attribute)),
{
    let mut converted: Vec<KeyValue> = Vec::with_capacity(attributes.len());
    let mut i: usize = 0;
    while i < attributes.len()
        invariant
            i <= attributes.len(),
            converted.len() == i,
            forall|j: int| 0 <= j < i ==> converted[j] == as_key_value(#[trigger] attributes[j]@),
        decreases attributes.len() - i,
    {
        converted.push(to_key_value(&attributes[i]));
        i += 1;
    }
    converted
}

/// The integer attribute value that stands for a count. A count beyond the
/// range of `i64` wraps around.
pub fn count_value(count: usize) -> (number: i64)
    ensures
        number == count as i64,
        count <= i64::MAX ==> number == count,
{
    #[verifier::truncate]
    (count as i64)
}

/// The attributes of the span that covers parsing: the text of the query,
/// followed by the variables of the request where there are any to show.
pub open spec fn parse_attributes_of(query_source: Seq<char>, variables: Option<Seq<char>>) -> Seq<
    AttributeView,
> {
    match variables {
        Some(json) => seq![
            text_attribute(AttributeKey::Source, query_source),
            text_attribute(AttributeKey::Variables, json),
        ],
        None => seq![text_attribute(AttributeKey::Source, query_source)],
    }
}

/// The attributes that validation leaves on its span: the complexity, then
/// the depth.
pub open spec fn validation_attributes_of(result: ValidationResult) -> Seq<AttributeView> {
    seq![
        int_attribute(AttributeKey::Complexity, result.complexity as i64),
        int_attribute(AttributeKey::Depth, result.depth as i64),
    ]
}

/// The number that an integer attribute holds, and nothing for a text.
pub open spec fn number_of(attribute: AttributeView) -> Option<int> {
    match attribute.value {
        AttributeValueView::Int(number) => Some(number as int),
        AttributeValueView::Text(_) => None,
    }
}

/// What validation leaves on its span is what it found: the complexity
/// under its key and the depth under its own, each with the very number of
/// the result, as long as that number is within the range of an integer
/// attribute.
pub proof fn validation_attributes_match_the_result(result: ValidationResult)
    requires
        result.complexity <= i64::MAX,
        result.depth <= i64::MAX,
    ensures
        validation_attributes_of(result).len() == 2,
        validation_attributes_of(result)[0].key == AttributeKey::Complexity,
        number_of(validation_attributes_of(result)[0]) == Some(result.complexity as int),
        validation_attributes_of(result)[1].key == AttributeKey::Depth,
        number_of(validation_attributes_of(result)[1]) == Some(result.depth as int),
{
}

/// The attributes of the span of a field resolution: its id, then the name
/// of the type that holds the field, then that of the type it returns.
pub open spec fn resolve_attributes_of(info: ResolveInfo<'_>) -> Seq<AttributeView> {
    seq![
        int_attribute(AttributeKey::ResolveId, info.resolve_id.current as i64),
        text_attribute(AttributeKey::ParentType, info.parent_type@),
        text_attribute(AttributeKey::ReturnType, info.return_type@),
    ]
}

/// The attributes of the event that records an error: its message.
pub open spec fn error_attributes_of(err: ServerError) -> Seq<AttributeView> {
    seq![text_attribute(AttributeKey::Error, err.message@)]
}

/// What contracts see of an optional text.
pub open spec fn text_of(text: Option<String>) -> Option<Seq<char>> {
    match text {
        Some(text) => Some(text@),
        None => None,
    }
}

/// The attributes of the span that covers parsing: the text of the query,
/// and the variables of the request where they could be written as JSON.
pub fn parse_attributes(query_source: &str, variables: Option<String>) -> (attributes: Vec<
    Attribute,
>)
    ensures
        views(attributes@) == parse_attributes_of(query_source@, text_of(variables)),
{
    let mut attributes: Vec<Attribute> = Vec::with_capacity(2);
    attributes.push(
        Attribute {
            key: AttributeKey::Source,
            value: AttributeValue::Text(query_source.to_owned()),
        },
    );
    if let Some(json) = variables {
        attributes.push(
            Attribute { key: AttributeKey::Variables, value: AttributeValue::Text(json) },
        );
    }
    attributes
}

/// The attributes that validation leaves on its span: the complexity and
/// the depth that it found.
pub fn validation_attributes(result: &ValidationResult) -> (attributes: Vec<Attribute>)
    ensures
        views(attributes@) == validation_attributes_of(*result),
{
    let mut attributes: Vec<Attribute> = Vec::with_capacity(2);
    attributes.push(
        Attribute {
            key: AttributeKey::Complexity,
            value: AttributeValue::Int(count_value(result.complexity)),
        },
    );
    attributes.push(
        Attribute { key: AttributeKey::Depth, value: AttributeValue::Int(count_value(result.depth)) },
    );
    attributes
}

/// The attributes of the span of a field resolution: its id and the names
/// of the type that holds the field and of the type that it returns.
pub fn resolve_attributes(info: &ResolveInfo<'_>) -> (attributes: Vec<Attribute>)
    ensures
        views(attributes@) == resolve_attributes_of(*info),
{
    let mut attributes: Vec<Attribute> = Vec::with_capacity(3);
    attributes.push(
        Attribute {
            key: AttributeKey::ResolveId,
            value: AttributeValue::Int(count_value(info.resolve_id.current)),
        },
    );
    attributes.push(
        Attribute {
            key: AttributeKey::ParentType,
            value: AttributeValue::Text(info.parent_type.to_owned()),
        },
    );
    attributes.push(
        Attribute {
            key: AttributeKey::ReturnType,
            value: AttributeValue::Text(info.return_type.to_owned()),
        },
    );
    attributes
}

/// The attributes of the event that records an error: its message.
pub fn error_attributes(err: &ServerError) -> (attributes: Vec<Attribute>)
    ensures
        views(attributes@) == error_attributes_of(*err),
{
    let mut attributes: Vec<Attribute> = Vec::with_capacity(1);
    attributes.push(
        Attribute { key: AttributeKey::Error, value: AttributeValue::Text(err.message.clone()) },
    );
    attributes
}

} // verus!
