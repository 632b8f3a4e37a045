//! The fields of its own that each kind of node shows, besides its
//! discriminator, its children and its position.

use vstd::prelude::*;
use crate::attribute::{attributes_json, attributes_to_json, stops_json, stops_to_json};
use crate::field::Field;
use crate::json::Json;
use crate::kinds::{aligns_json, aligns_to_json};
use crate::node::MyNode;
use crate::object::{fields_distinct, fields_of, push_entry};
use crate::value::{bool_value, number_value, text_value};

verus! {

/// The characters of a string that may be absent: none where it is.
pub open spec fn text_or_empty(text: Option<String>) -> Seq<char> {
    match text {
        Some(text) => text@,
        None => Seq::empty(),
    }
}

/// The entry for a string that may be absent: no entry where it is.
pub open spec fn optional_text(field: Field, text: Option<String>) -> Seq<(Field, Json)> {
    match text {
        Some(text) => seq![(field, Json::Text(text@))],
        None => Seq::empty(),
    }
}

/// The entry for a number that may be absent: no entry where it is.
pub open spec fn optional_number(field: Field, number: Option<u32>) -> Seq<(Field, Json)> {
    match number {
        Some(number) => seq![(field, Json::Number(number as int))],
        None => Seq::empty(),
    }
}

impl MyNode {
    /// The fields of its own that this node shows, in the order in which they
    /// are written. A string or number that is absent has no entry, except
    /// where the kind writes a default in its place: the empty string for the
    /// language and the rest of a code block's info string and for the title
    /// and label of a definition, `false` for the checkbox of a list item.
    pub open spec fn scalars(self) -> Seq<(Field, Json)> {
        match self {
            MyNode::Heading(node) => seq![(Field::Depth, Json::Number(node.depth as int))],
            MyNode::List(node) => seq![(Field::Ordered, Json::Bool(node.ordered))]
                + optional_number(Field::Start, node.start)
                + seq![(Field::Spread, Json::Bool(node.spread))],
            MyNode::ListItem(node) => seq![
                (Field::Checked, Json::Bool(node.checked == Some(true))),
                (Field::Spread, Json::Bool(node.spread)),
            ],
            MyNode::Code(node) => seq![
                (Field::Value, Json::Text(node.value@)),
                (Field::Lang, Json::Text(text_or_empty(node.lang))),
                (Field::Meta, Json::Text(text_or_empty(node.meta))),
            ],
            MyNode::InlineCode(node) => seq![(Field::Value, Json::Text(node.value@))],
            MyNode::InlineMath(node) => seq![(Field::Value, Json::Text(node.value@))],
            MyNode::Text(node) => seq![(Field::Value, Json::Text(node.value@))],
            MyNode::Html(node) => seq![(Field::Value, Json::Text(node.value@))],
            MyNode::MdxjsEsm(node) => seq![(Field::Value, Json::Text(node.value@))],
            MyNode::Toml(node) => seq![(Field::Value, Json::Text(node.value@))],
            MyNode::Yaml(node) => seq![(Field::Value, Json::Text(node.value@))],
            MyNode::MdxTextExpression(node) => seq![(Field::Value, Json::Text(node.value@))],
            MyNode::MdxFlowExpression(node) => seq![
                (Field::Value, Json::Text(node.value@)),
                (Field::Stops, stops_json(node.stops@)),
            ],
            MyNode::Image(node) => optional_text(Field::Title, node.title) + seq![
                (Field::Alt, Json::Text(node.alt@)),
                (Field::Url, Json::Text(node.url@)),
            ],
            MyNode::ImageReference(node) => optional_text(Field::Label, node.label) + seq![
                (Field::Alt, Json::Text(node.alt@)),
                (Field::Identifier, Json::Text(node.identifier@)),
                (Field::ReferenceKind, node.reference_kind.json()),
            ],
            MyNode::Link(node) => optional_text(Field::Title, node.title) + seq![
                (Field::Url, Json::Text(node.url@)),
            ],
            MyNode::LinkReference(node) => optional_text(Field::Label, node.label) + seq![
                (Field::Identifier, Json::Text(node.identifier@)),
                (Field::ReferenceKind, node.reference_kind.json()),
            ],
            MyNode::FootnoteReference(node) => seq![
                (Field::Identifier, Json::Text(node.identifier@)),
            ],
            MyNode::FootnoteDefinition(node) => seq![
                (Field::Identifier, Json::Text(node.identifier@)),
            ] + optional_text(Field::Label, node.label),
            MyNode::Definition(node) => seq![
                (Field::Identifier, Json::Text(node.identifier@)),
                (Field::Url, Json::Text(node.url@)),
                (Field::Title, Json::Text(text_or_empty(node.title))),
                (Field::Label, Json::Text(text_or_empty(node.label))),
            ],
            MyNode::Table(node) => seq![(Field::Align, aligns_json(node.align@))],
            MyNode::MdxJsxFlowElement(node) => optional_text(Field::Name, node.name) + seq![
                (Field::Attributes, attributes_json(node.attributes@)),
            ],
            MyNode::MdxJsxTextElement(node) => optional_text(Field::Name, node.name) + seq![
                (Field::Attributes, attributes_json(node.attributes@)),
            ],
            _ => Seq::empty(),
        }
    }

    /// The fields of its own that this node shows, each with its value, in
    /// the order in which they are written.
    pub fn scalar_fields(&self) -> (entries: Vec<(Field, serde_json::Value)>)
        ensures
            fields_of(entries@) == self.scalars(),
    {
        let mut entries: Vec<(Field, serde_json::Value)> = Vec::new();
        assert(fields_of(entries@) =~= Seq::empty());
        match self {
            MyNode::Heading(node) => {
                push_number(&mut entries, Field::Depth, node.depth as u64);
            },
            MyNode::List(node) => {
                push_bool(&mut entries, Field::Ordered, node.ordered);
                match node.start {
                    Some(start) => {
                        push_number(&mut entries, Field::Start, start as u64);
                    },
                    None => {},
                }
                push_bool(&mut entries, Field::Spread, node.spread);
            },
            MyNode::ListItem(node) => {
                let checked = match node.checked {
                    Some(checked) => checked,
                    None => false,
                };
                push_bool(&mut entries, Field::Checked, checked);
                push_bool(&mut entries, Field::Spread, node.spread);
            },
            MyNode::Code(node) => {
                push_text(&mut entries, Field::Value, &node.value);
                push_text_or_empty(&mut entries, Field::Lang, &node.lang);
                push_text_or_empty(&mut entries, Field::Meta, &node.meta);
            },
            MyNode::InlineCode(node) => {
                push_text(&mut entries, Field::Value, &node.value);
            },
            MyNode::InlineMath(node) => {
                push_text(&mut entries, Field::Value, &node.value);
            },
            MyNode::Text(node) => {
                push_text(&mut entries, Field::Value, &node.value);
            },
            MyNode::Html(node) => {
                push_text(&mut entries, Field::Value, &node.value);
            },
            MyNode::MdxjsEsm(node) => {
                push_text(&mut entries, Field::Value, &node.value);
            },
            MyNode::Toml(node) => {
                push_text(&mut entries, Field::Value, &node.value);
            },
            MyNode::Yaml(node) => {
                push_text(&mut entries, Field::Value, &node.value);
            },
            MyNode::MdxTextExpression(node) => {
                push_text(&mut entries, Field::Value, &node.value);
            },
            MyNode::MdxFlowExpression(node) => {
                push_text(&mut entries, Field::Value, &node.value);
                push_entry(&mut entries, Field::Stops, stops_to_json(&node.stops));
            },
            MyNode::Image(node) => {
                push_optional_text(&mut entries, Field::Title, &node.title);
                push_text(&mut entries, Field::Alt, &node.alt);
                push_text(&mut entries, Field::Url, &node.url);
            },
            MyNode::ImageReference(node) => {
                push_optional_text(&mut entries, Field::Label, &node.label);
                push_text(&mut entries, Field::Alt, &node.alt);
                push_text(&mut entries, Field::Identifier, &node.identifier);
                push_entry(&mut entries, Field::ReferenceKind, node.reference_kind.to_json());
            },
            MyNode::Link(node) => {
                push_optional_text(&mut entries, Field::Title, &node.title);
                push_text(&mut entries, Field::Url, &node.url);
            },
            MyNode::LinkReference(node) => {
                push_optional_text(&mut entries, Field::Label, &node.label);
                push_text(&mut entries, Field::Identifier, &node.identifier);
                push_entry(&mut entries, Field::ReferenceKind, node.reference_kind.to_json());
            },
            MyNode::FootnoteReference(node) => {
                push_text(&mut entries, Field::Identifier, &node.identifier);
            },
            MyNode::FootnoteDefinition(node) => {
                push_text(&mut entries, Field::Identifier, &node.identifier);
                push_optional_text(&mut entries, Field::Label, &node.label);
            },
            MyNode::Definition(node) => {
                push_text(&mut entries, Field::Identifier, &node.identifier);
                push_text(&mut entries, Field::Url, &node.url);
                push_text_or_empty(&mut entries, Field::Title, &node.title);
                push_text_or_empty(&mut entries, Field::Label, &node.label);
            },
            MyNode::Table(node) => {
                push_entry(&mut entries, Field::Align, aligns_to_json(&node.align));
            },
            MyNode::MdxJsxFlowElement(node) => {
                push_optional_text(&mut entries, Field::Name, &node.name);
                push_entry(&mut entries, Field::Attributes, attributes_to_json(&node.attributes));
            },
            MyNode::MdxJsxTextElement(node) => {
                push_optional_text(&mut entries, Field::Name, &node.name);
                push_entry(&mut entries, Field::Attributes, attributes_to_json(&node.attributes));
            },
            _ => {},
        }
        assert(fields_of(entries@) =~= self.scalars());
        entries
    }
}

/// Whether `field` is one of the keys that every node may show, whatever its
/// kind.
pub open spec fn is_common(field: Field) -> bool {
    field == Field::Type || field == Field::Children || field == Field::Position
}

/// The fields of its own that a node shows are distinct, and none is a key
/// that every node may show.
pub proof fn lemma_scalars_distinct(node: MyNode)
    ensures
        fields_distinct(node.scalars()),
        forall|i: int|
            0 <= i < node.scalars().len() ==> !is_common(#[trigger] node.scalars()[i].0),
{
    match node {
        MyNode::List(inner) => {
            lemma_optional_number_shape(Field::Start, inner.start);
        },
        MyNode::Image(inner) => {
            lemma_optional_text_shape(Field::Title, inner.title);
        },
        MyNode::ImageReference(inner) => {
            lemma_optional_text_shape(Field::Label, inner.label);
        },
        MyNode::Link(inner) => {
            lemma_optional_text_shape(Field::Title, inner.title);
        },
        MyNode::LinkReference(inner) => {
            lemma_optional_text_shape(Field::Label, inner.label);
        },
        MyNode::FootnoteDefinition(inner) => {
            lemma_optional_text_shape(Field::Label, inner.label);
        },
        MyNode::MdxJsxFlowElement(inner) => {
            lemma_optional_text_shape(Field::Name, inner.name);
        },
        MyNode::MdxJsxTextElement(inner) => {
            lemma_optional_text_shape(Field::Name, inner.name);
        },
        _ => {},
    }
}

/// A string that may be absent makes no entry or one entry under its key.
proof fn lemma_optional_text_shape(field: Field, text: Option<String>)
    ensures
        optional_text(field, text).len() <= 1,
        optional_text(field, text).len() == 1 ==> optional_text(field, text)[0].0 == field,
{
}

/// A number that may be absent makes no entry or one entry under its key.
proof fn lemma_optional_number_shape(field: Field, number: Option<u32>)
    ensures
        optional_number(field, number).len() <= 1,
        optional_number(field, number).len() == 1 ==> optional_number(field, number)[0].0 == field,
{
}

/// Appends an entry that holds a boolean.
fn push_bool(entries: &mut Vec<(Field, serde_json::Value)>, field: Field, b: bool)
    ensures
        fields_of(final(entries)@) == fields_of(old(entries)@).push((field, Json::Bool(b))),
{
    push_entry(entries, field, bool_value(b));
}

/// Appends an entry that holds a number.
fn push_number(entries: &mut Vec<(Field, serde_json::Value)>, field: Field, n: u64)
    ensures
        fields_of(final(entries)@) == fields_of(old(entries)@).push(
            (field, Json::Number(n as int)),
        ),
{
    push_entry(entries, field, number_value(n));
}

/// Appends an entry that holds a string.
fn push_text(entries: &mut Vec<(Field, serde_json::Value)>, field: Field, text: &String)
    ensures
        fields_of(final(entries)@) == fields_of(old(entries)@).push((field, Json::Text(text@))),
{
    push_entry(entries, field, text_value(text.clone()));
}

/// Appends an entry that holds a string, the empty one where the string is
/// absent.
fn push_text_or_empty(
    entries: &mut Vec<(Field, serde_json::Value)>,
    field: Field,
    text: &Option<String>,
)
    ensures
        fields_of(final(entries)@) == fields_of(old(entries)@).push(
            (field, Json::Text(text_or_empty(*text))),
        ),
{
    match text {
        Some(text) => push_text(entries, field, text),
        None => push_entry(entries, field, text_value(String::new())),
    }
}

/// Appends an entry that holds a string, and nothing where the string is
/// absent.
fn push_optional_text(
    entries: &mut Vec<(Field, serde_json::Value)>,
    field: Field,
    text: &Option<String>,
)
    ensures
        fields_of(final(entries)@) == fields_of(old(entries)@) + optional_text(field, *text),
{
    match text {
        Some(text) => {
            push_text(entries, field, text);
            assert(fields_of(entries@) =~= fields_of(old(entries)@) + optional_text(
                field,
                Some(*text),
            ));
        },
        None => {
            assert(fields_of(entries@) =~= fields_of(old(entries)@) + optional_text(field, None));
        },
    }
}

} // verus!
