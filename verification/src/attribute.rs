//! What a component carries besides its children: expressions, properties
//! and their values.

use vstd::prelude::*;
use crate::field::Field;
use crate::json::Json;
use crate::object::{fields_of, object, object_from};
use crate::value::{array_value, json_of, jsons_of, number_value, text_value};

verus! {

/// A point at which the source mapping of an expression changes: an offset
/// into the expression's text, and the offset into the document it maps to.
pub type Stop = (usize, usize);

/// The value of a property.
#[derive(Debug, PartialEq, Eq)]
pub enum AttributeValue {
    /// An expression in braces: its source text and its stops.
    Expression(String, Vec<Stop>),
    /// A string literal.
    Literal(String),
}

/// A property: a name, and a value unless the name stands alone.
#[derive(Debug, PartialEq, Eq)]
pub struct MdxJsxAttribute {
    /// The name of the property.
    pub name: String,
    /// The value of the property, if it has one.
    pub value: Option<AttributeValue>,
}

/// One attribute of a component.
#[derive(Debug, PartialEq, Eq)]
pub enum AttributeContent {
    /// An expression that stands where attributes stand: its source text and
    /// its stops.
    Expression(String, Vec<Stop>),
    /// A property.
    Property(MdxJsxAttribute),
}

/// The JSON array written for a stop: its two offsets.
pub open spec fn stop_json(stop: Stop) -> Json {
    Json::Array(seq![Json::Number(stop.0 as int), Json::Number(stop.1 as int)])
}

/// The JSON array written for the stops of an expression, in their order.
pub open spec fn stops_json(stops: Seq<Stop>) -> Json {
    Json::Array(Seq::new(stops.len(), |i: int| stop_json(stops[i])))
}

/// Writes a stop as a JSON array.
pub fn stop_to_json(stop: &Stop) -> (value: serde_json::Value)
    ensures
        json_of(value) == stop_json(*stop),
{
    let mut items: Vec<serde_json::Value> = Vec::new();
    items.push(number_value(stop.0 as u64));
    items.push(number_value(stop.1 as u64));
    assert(jsons_of(items@) =~= seq![Json::Number(stop.0 as int), Json::Number(stop.1 as int)]);
    array_value(items)
}

/// Writes the stops of an expression as a JSON array.
pub fn stops_to_json(stops: &Vec<Stop>) -> (value: serde_json::Value)
    ensures
        json_of(value) == stops_json(stops@),
{
    let mut items: Vec<serde_json::Value> = Vec::new();
    let mut i: usize = 0;
    while i < stops.len()
        invariant
            i <= stops.len(),
            items@.len() == i,
            forall|k: int| 0 <= k < i ==> json_of(#[trigger] items@[k]) == stop_json(stops@[k]),
        decreases stops.len() - i,
    {
        items.push(stop_to_json(&stops[i]));
        i += 1;
    }
    assert(jsons_of(items@) =~= Seq::new(stops@.len(), |i: int| stop_json(stops@[i])));
    array_value(items)
}

impl AttributeValue {
    /// What is written for a value. A literal is the bare JSON string; an
    /// expression is an object with its text under "expression" and its
    /// stops under "stops".
    pub open spec fn json(self) -> Json {
        match self {
            AttributeValue::Expression(text, stops) => object(
                seq![(Field::Expression, Json::Text(text@)), (Field::Stops, stops_json(stops@))],
            ),
            AttributeValue::Literal(text) => Json::Text(text@),
        }
    }

    /// Writes the value.
    pub fn to_json(&self) -> (value: serde_json::Value)
        ensures
            json_of(value) == self.json(),
    {
        match self {
            AttributeValue::Expression(text, stops) => {
                let mut entries: Vec<(Field, serde_json::Value)> = Vec::new();
                entries.push((Field::Expression, text_value(text.clone())));
                entries.push((Field::Stops, stops_to_json(stops)));
                assert(fields_of(entries@) =~= seq![
                    (Field::Expression, Json::Text(text@)),
                    (Field::Stops, stops_json(stops@)),
                ]);
                object_from(entries)
            },
            AttributeValue::Literal(text) => text_value(text.clone()),
        }
    }
}

impl MdxJsxAttribute {
    /// The discriminator written for a property that stands on its own.
    pub open spec fn tag() -> Seq<char> {
        "MdxJsxAttribute"@
    }

    /// The entries written for a property that stands on its own: the
    /// discriminator, the name, and the value where there is one.
    pub open spec fn fields(self) -> Seq<(Field, Json)> {
        let head = seq![
            (Field::Type, Json::Text(Self::tag())),
            (Field::Name, Json::Text(self.name@)),
        ];
        match self.value {
            Some(value) => head.push((Field::Value, value.json())),
            None => head,
        }
    }

    /// The object written for a property that stands on its own.
    pub open spec fn json(self) -> Json {
        object(self.fields())
    }

    /// Writes the property as an object of its own.
    pub fn to_json(&self) -> (value: serde_json::Value)
        ensures
            json_of(value) == self.json(),
    {
        let mut entries: Vec<(Field, serde_json::Value)> = Vec::new();
        entries.push((Field::Type, text_value("MdxJsxAttribute".to_owned())));
        entries.push((Field::Name, text_value(self.name.clone())));
        match &self.value {
            Some(value) => {
                entries.push((Field::Value, value.to_json()));
            },
            None => {},
        }
        assert(fields_of(entries@) =~= self.fields());
        object_from(entries)
    }
}

impl AttributeContent {
    /// The discriminator written for this entry.
    pub open spec fn tag(self) -> Seq<char> {
        match self {
            AttributeContent::Expression(_, _) => "Expression"@,
            AttributeContent::Property(_) => "Property"@,
        }
    }

    /// The entries written for an attribute. An expression has its text
    /// under "value" and its stops under "stops"; a property has its value
    /// under "value", and no such entry where it has no value.
    pub open spec fn fields(self) -> Seq<(Field, Json)> {
        let head = seq![(Field::Type, Json::Text(self.tag()))];
        match self {
            AttributeContent::Expression(text, stops) => head.push(
                (Field::Value, Json::Text(text@)),
            ).push((Field::Stops, stops_json(stops@))),
            AttributeContent::Property(property) => match property.value {
                Some(value) => head.push((Field::Value, value.json())),
                None => head,
            },
        }
    }

    /// The object written for an attribute.
    pub open spec fn json(self) -> Json {
        object(self.fields())
    }

    /// Writes the attribute as an object.
    pub fn to_json(&self) -> (value: serde_json::Value)
        ensures
            json_of(value) == self.json(),
    {
        let mut entries: Vec<(Field, serde_json::Value)> = Vec::new();
        match self {
            AttributeContent::Expression(text, stops) => {
                entries.push((Field::Type, text_value("Expression".to_owned())));
                entries.push((Field::Value, text_value(text.clone())));
                entries.push((Field::Stops, stops_to_json(stops)));
            },
            AttributeContent::Property(property) => {
                entries.push((Field::Type, text_value("Property".to_owned())));
                match &property.value {
                    Some(value) => {
                        entries.push((Field::Value, value.to_json()));
                    },
                    None => {},
                }
            },
        }
        assert(fields_of(entries@) =~= self.fields());
        object_from(entries)
    }
}

/// The JSON array written for the attributes of a component, in their order.
pub open spec fn attributes_json(attributes: Seq<AttributeContent>) -> Json {
    Json::Array(Seq::new(attributes.len(), |i: int| attributes[i].json()))
}

/// Writes the attributes of a component as a JSON array.
pub fn attributes_to_json(attributes: &Vec<AttributeContent>) -> (value: serde_json::Value)
    ensures
        json_of(value) == attributes_json(attributes@),
{
    let mut items: Vec<serde_json::Value> = Vec::new();
    let mut i: usize = 0;
    while i < attributes.len()
        invariant
            i <= attributes.len(),
            items@.len() == i,
            forall|k: int| 0 <= k < i ==> json_of(#[trigger] items@[k]) == attributes@[k].json(),
        decreases attributes.len() - i,
    {
        items.push(attributes[i].to_json());
        i += 1;
    }
    assert(jsons_of(items@) =~= Seq::new(attributes@.len(), |i: int| attributes@[i].json()));
    array_value(items)
}

} // verus!
