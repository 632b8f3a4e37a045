//! What holds of every projection.

use vstd::prelude::*;
use crate::attribute::{
    attributes_json, stop_json, stops_json, AttributeContent, AttributeValue, Stop,
};
use crate::adapter::{lemma_scalars_distinct, optional_number, optional_text};
use crate::emit::{emitted, emitted_all, emitted_children, lemma_node_fields_distinct};
use crate::field::{lemma_field_text_injective, Field};
use crate::json::{keys_distinct, lemma_lookup_at, Json};
use crate::kinds::aligns_json;
use crate::node::MyNode;
use crate::object::{lemma_object_is_canonical, lemma_object_keys_distinct};
use crate::position::Position;
use crate::render::{is_outcome_of, is_text_of, EmitError};
use crate::tag::lemma_tag_texts;

verus! {

/// Every node is written as an object that no key occurs twice in.
pub proof fn lemma_emitted_is_object(node: MyNode)
    ensures
        emitted(node) is Object,
        keys_distinct(emitted(node).entries()),
{
    lemma_node_fields_distinct(node, emitted_children(node));
    lemma_object_keys_distinct(node.fields(emitted_children(node)));
}

/// Every node is written with a discriminator: the first entry of its object
/// stands under "type" and holds the node's discriminator, a string that is
/// not empty.
pub proof fn lemma_emitted_has_type(node: MyNode)
    ensures
        emitted(node).entries().len() >= 1,
        emitted(node).entries()[0] == (Field::Type.text(), Json::Text(node.tag_text())),
        emitted(node).get(Field::Type.text()) == Some(Json::Text(node.tag_text())),
        node.tag_text().len() > 0,
{
    lemma_tag_texts(node);
    lemma_emitted_is_object(node);
    lemma_lookup_at(emitted(node).entries(), 0);
}

/// A node without a source span is written without a "position" entry. A
/// node with one, of a kind that the projection has a shape for, is written
/// with it, as the last entry.
pub proof fn lemma_position_rule(node: MyNode)
    ensures
        node.span() is None ==> !emitted(node).has(Field::Position.text()),
        node.is_mapped() ==> (node.span() is Some <==> emitted(node).has(Field::Position.text())),
        node.is_mapped() && node.span() is Some ==> emitted(node).entries().last() == (
            Field::Position.text(),
            node.span()->0.json(),
        ) && emitted(node).get(Field::Position.text()) == Some(node.span()->0.json()),
{
    let fields = node.fields(emitted_children(node));
    let entries = emitted(node).entries();
    lemma_emitted_is_object(node);
    lemma_node_fields_distinct(node, emitted_children(node));
    if node.is_mapped() && node.span() is Some {
        let last = entries.len() - 1;
        assert(fields[last].0 == Field::Position);
        lemma_lookup_at(entries, last);
    } else {
        assert forall|i: int| 0 <= i < entries.len() implies (#[trigger] entries[i]).0
            != Field::Position.text() by {
            lemma_absent_field(node, Field::Position, i);
        }
    }
}

/// A kind that can have children is always written with a "children" entry,
/// an array of what is written for each child in document order, empty where
/// there is none. A kind that cannot have children is written without the
/// entry; plain text, code blocks, line breaks and thematic breaks are among
/// these.
pub proof fn lemma_children_rule(node: MyNode)
    ensures
        node.child_nodes() is Some <==> emitted(node).has(Field::Children.text()),
        node.child_nodes() matches Some(nodes) ==> {
            &&& emitted(node).get(Field::Children.text()) == Some(Json::Array(emitted_all(nodes)))
            &&& emitted_all(nodes).len() == nodes.len()
            &&& forall|i: int|
                0 <= i < nodes.len() ==> emitted_all(nodes)[i] == emitted(#[trigger] nodes[i])
        },
        node is Text || node is Code || node is Break || node is ThematicBreak ==> !emitted(
            node,
        ).has(Field::Children.text()),
{
    let fields = node.fields(emitted_children(node));
    let entries = emitted(node).entries();
    lemma_emitted_is_object(node);
    lemma_node_fields_distinct(node, emitted_children(node));
    if node.child_nodes() is Some {
        let at = 1 + node.scalars().len();
        assert(fields[at as int] == (Field::Children, Json::Array(emitted_children(node))));
        lemma_lookup_at(entries, at as int);
    } else {
        assert forall|i: int| 0 <= i < entries.len() implies (#[trigger] entries[i]).0
            != Field::Children.text() by {
            lemma_absent_field(node, Field::Children, i);
        }
    }
}

/// Where a node has no source span, or cannot have children, no entry of
/// its object stands under the key of the one or of the other.
proof fn lemma_absent_field(node: MyNode, field: Field, i: int)
    requires
        0 <= i < emitted(node).entries().len(),
        field == Field::Position && !(node.is_mapped() && node.span() is Some) || field
            == Field::Children && node.child_nodes() is None,
    ensures
        emitted(node).entries()[i].0 != field.text(),
{
    let fields = node.fields(emitted_children(node));
    lemma_scalars_distinct(node);
    assert(fields[i].0 != field);
    lemma_field_text_injective(fields[i].0, field);
}

/// What is written for a source span is canonical.
proof fn lemma_position_is_canonical(position: Position)
    ensures
        position.json().is_canonical(),
{
    lemma_object_is_canonical(position.start.fields());
    lemma_object_is_canonical(position.end.fields());
    lemma_object_is_canonical(position.fields());
}

/// What is written for the stops of an expression is canonical.
proof fn lemma_stops_are_canonical(stops: Seq<Stop>)
    ensures
        stops_json(stops).is_canonical(),
{
    let items = stops_json(stops)->Array_0;
    assert forall|i: int| 0 <= i < items.len() implies (#[trigger] items[i]).is_canonical() by {
        let pair = stop_json(stops[i])->Array_0;
        assert(pair[0].is_canonical() && pair[1].is_canonical());
        assert forall|k: int| 0 <= k < pair.len() implies (#[trigger] pair[k]).is_canonical() by {
            assert(k == 0 || k == 1);
        }
    }
}

/// What is written for the value of a property is canonical.
proof fn lemma_attribute_value_is_canonical(value: AttributeValue)
    ensures
        value.json().is_canonical(),
{
    match value {
        AttributeValue::Expression(text, stops) => {
            lemma_stops_are_canonical(stops@);
            lemma_object_is_canonical(
                seq![(Field::Expression, Json::Text(text@)), (Field::Stops, stops_json(stops@))],
            );
        },
        AttributeValue::Literal(_) => {},
    }
}

/// What is written for the attributes of a component is canonical.
proof fn lemma_attributes_are_canonical(attributes: Seq<AttributeContent>)
    ensures
        attributes_json(attributes).is_canonical(),
{
    let items = attributes_json(attributes)->Array_0;
    assert forall|i: int| 0 <= i < items.len() implies (#[trigger] items[i]).is_canonical() by {
        match attributes[i] {
            AttributeContent::Expression(_, stops) => {
                lemma_stops_are_canonical(stops@);
            },
            AttributeContent::Property(property) => {
                if property.value is Some {
                    lemma_attribute_value_is_canonical(property.value->0);
                }
            },
        }
        lemma_object_is_canonical(attributes[i].fields());
    }
}

/// Every value of `fields` is canonical.
spec fn values_canonical(fields: Seq<(Field, Json)>) -> bool {
    forall|i: int| 0 <= i < fields.len() ==> (#[trigger] fields[i]).1.is_canonical()
}

/// A string that may be absent makes an entry with a canonical value where
/// it is there.
proof fn lemma_optional_text_is_canonical(field: Field, text: Option<String>)
    ensures
        values_canonical(optional_text(field, text)),
{
}

/// A number that may be absent makes an entry with a canonical value where
/// it is there.
proof fn lemma_optional_number_is_canonical(field: Field, number: Option<u32>)
    ensures
        values_canonical(optional_number(field, number)),
{
}

/// Two runs of entries with canonical values make one such run.
proof fn lemma_joined_values_canonical(first: Seq<(Field, Json)>, second: Seq<(Field, Json)>)
    requires
        values_canonical(first),
        values_canonical(second),
    ensures
        values_canonical(first + second),
{
}

/// The fields of its own that a node shows hold canonical values.
proof fn lemma_scalars_are_canonical(node: MyNode)
    ensures
        values_canonical(node.scalars()),
{
    match node {
        MyNode::Heading(_)
        | MyNode::ListItem(_)
        | MyNode::Code(_)
        | MyNode::InlineCode(_)
        | MyNode::InlineMath(_)
        | MyNode::Text(_)
        | MyNode::Html(_)
        | MyNode::MdxjsEsm(_)
        | MyNode::Toml(_)
        | MyNode::Yaml(_)
        | MyNode::MdxTextExpression(_)
        | MyNode::FootnoteReference(_)
        | MyNode::Definition(_) => {
            assert(values_canonical(node.scalars()));
        },
        MyNode::List(inner) => {
            let head = seq![(Field::Ordered, Json::Bool(inner.ordered))];
            let tail = seq![(Field::Spread, Json::Bool(inner.spread))];
            lemma_optional_number_is_canonical(Field::Start, inner.start);
            lemma_joined_values_canonical(head, optional_number(Field::Start, inner.start));
            lemma_joined_values_canonical(head + optional_number(Field::Start, inner.start), tail);
        },
        MyNode::MdxFlowExpression(inner) => {
            lemma_stops_are_canonical(inner.stops@);
            assert(values_canonical(node.scalars()));
        },
        MyNode::Image(inner) => {
            let tail = seq![
                (Field::Alt, Json::Text(inner.alt@)),
                (Field::Url, Json::Text(inner.url@)),
            ];
            assert(values_canonical(tail));
            lemma_optional_text_is_canonical(Field::Title, inner.title);
            lemma_joined_values_canonical(optional_text(Field::Title, inner.title), tail);
        },
        MyNode::ImageReference(inner) => {
            let tail = seq![
                (Field::Alt, Json::Text(inner.alt@)),
                (Field::Identifier, Json::Text(inner.identifier@)),
                (Field::ReferenceKind, inner.reference_kind.json()),
            ];
            assert(values_canonical(tail));
            lemma_optional_text_is_canonical(Field::Label, inner.label);
            lemma_joined_values_canonical(optional_text(Field::Label, inner.label), tail);
        },
        MyNode::Link(inner) => {
            let tail = seq![(Field::Url, Json::Text(inner.url@))];
            assert(values_canonical(tail));
            lemma_optional_text_is_canonical(Field::Title, inner.title);
            lemma_joined_values_canonical(optional_text(Field::Title, inner.title), tail);
        },
        MyNode::LinkReference(inner) => {
            let tail = seq![
                (Field::Identifier, Json::Text(inner.identifier@)),
                (Field::ReferenceKind, inner.reference_kind.json()),
            ];
            assert(values_canonical(tail));
            lemma_optional_text_is_canonical(Field::Label, inner.label);
            lemma_joined_values_canonical(optional_text(Field::Label, inner.label), tail);
        },
        MyNode::FootnoteDefinition(inner) => {
            let head = seq![(Field::Identifier, Json::Text(inner.identifier@))];
            assert(values_canonical(head));
            lemma_optional_text_is_canonical(Field::Label, inner.label);
            lemma_joined_values_canonical(head, optional_text(Field::Label, inner.label));
        },
        MyNode::Table(inner) => {
            let items = aligns_json(inner.align@)->Array_0;
            assert forall|i: int| 0 <= i < items.len() implies (#[trigger] items[i]).is_canonical(
            ) by {}
            assert(values_canonical(node.scalars()));
        },
        MyNode::MdxJsxFlowElement(inner) => {
            let tail = seq![(Field::Attributes, attributes_json(inner.attributes@))];
            lemma_attributes_are_canonical(inner.attributes@);
            assert(values_canonical(tail));
            lemma_optional_text_is_canonical(Field::Name, inner.name);
            lemma_joined_values_canonical(optional_text(Field::Name, inner.name), tail);
        },
        MyNode::MdxJsxTextElement(inner) => {
            let tail = seq![(Field::Attributes, attributes_json(inner.attributes@))];
            lemma_attributes_are_canonical(inner.attributes@);
            assert(values_canonical(tail));
            lemma_optional_text_is_canonical(Field::Name, inner.name);
            lemma_joined_values_canonical(optional_text(Field::Name, inner.name), tail);
        },
        _ => {
            assert(node.scalars().len() == 0);
        },
    }
}

/// What is written for each node of a sequence is canonical.
proof fn lemma_emitted_all_canonical(nodes: Seq<MyNode>)
    ensures
        forall|i: int| 0 <= i < nodes.len() ==> (#[trigger] emitted_all(nodes)[i]).is_canonical(),
    decreases nodes,
{
    assert forall|i: int| 0 <= i < nodes.len() implies (#[trigger] emitted_all(
        nodes,
    )[i]).is_canonical() by {
        lemma_emitted_is_canonical(nodes[i]);
    }
}

/// Nothing that is written holds a `null` or a repeated key, however deep:
/// what is absent is left out, never written as `null`, and every object in
/// the value, whether it stands for a node, a span or an attribute, has its
/// keys once each.
pub proof fn lemma_emitted_is_canonical(node: MyNode)
    ensures
        emitted(node).is_canonical(),
    decreases node,
{
    let children = emitted_children(node);
    let fields = node.fields(children);
    lemma_node_fields_distinct(node, children);
    lemma_scalars_are_canonical(node);
    if node.child_nodes() is Some {
        lemma_emitted_all_canonical(node.child_nodes()->0);
    }
    if node.span() is Some {
        lemma_position_is_canonical(node.span()->0);
    }
    assert forall|i: int| 0 <= i < fields.len() implies (#[trigger] fields[i]).1.is_canonical() by {
        if node.is_mapped() {
            let own = node.scalars().len();
            if 1 <= i <= own {
                assert(fields[i] == node.scalars()[i - 1]);
            }
        }
    }
    lemma_object_is_canonical(fields);
}

/// Writing the same tree twice gives the same text, character for
/// character: whatever two runs return for one tree, both fail or both give
/// one and the same text.
pub proof fn lemma_same_tree_same_text(
    node: MyNode,
    first: Result<String, EmitError>,
    second: Result<String, EmitError>,
)
    requires
        is_text_of(emitted(node), first),
        is_text_of(emitted(node), second),
    ensures
        first is Ok <==> second is Ok,
        first is Ok ==> first->Ok_0@ == second->Ok_0@,
{
}

/// What a document ends in is decided by what the parser returned: a refusal
/// comes back as it is, and a tree never ends in a parse error.
pub proof fn lemma_parse_failure_is_handed_on(
    parsed: Result<MyNode, String>,
    result: Result<String, EmitError>,
)
    requires
        is_outcome_of(parsed, result),
    ensures
        parsed is Err <==> (result is Err && result->Err_0 is Parse),
        parsed matches Err(message) ==> result->Err_0->Parse_0 == message,
{
}

} // verus!
