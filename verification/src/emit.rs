//! The projection itself: from a syntax tree to the JSON value that stands
//! for it.

use vstd::prelude::*;
use crate::adapter::lemma_scalars_distinct;
use crate::field::Field;
use crate::json::Json;
use crate::laws::{
    lemma_children_rule, lemma_emitted_has_type, lemma_emitted_is_canonical, lemma_position_rule,
};
use crate::node::MyNode;
use crate::object::{fields_distinct, fields_of, object, object_from, push_entry};
use crate::tag::fallback_tag;
use crate::value::{array_value, json_of, jsons_of, text_value};

verus! {

impl MyNode {
    /// The entries of the object written for this node, given what is written
    /// for its children: the discriminator; the fields of its own; the
    /// children, for the kinds that can have any, even where there are none;
    /// the position, where the node has a source span. A kind without a shape
    /// shows the fallback's discriminator and nothing else.
    pub open spec fn fields(self, children: Seq<Json>) -> Seq<(Field, Json)> {
        if self.is_mapped() {
            let head = seq![(Field::Type, Json::Text(self.tag_text()))];
            let below = match self.child_nodes() {
                Some(_) => seq![(Field::Children, Json::Array(children))],
                None => Seq::empty(),
            };
            let place = match self.span() {
                Some(position) => seq![(Field::Position, position.json())],
                None => Seq::empty(),
            };
            head + self.scalars() + below + place
        } else {
            seq![(Field::Type, Json::Text(fallback_tag()))]
        }
    }
}

/// What is written for each of `nodes`, in their order.
pub open spec fn emitted_all(nodes: Seq<MyNode>) -> Seq<Json>
    decreases nodes,
{
    // Every index that is asked for is in range; the test is there for the
    // recursion to be seen to end.
    Seq::new(
        nodes.len(),
        |i: int|
            if 0 <= i < nodes.len() {
                emitted(nodes[i])
            } else {
                Json::Null
            },
    )
}

/// What is written for `node`: the object with the node's entries, in which
/// the children stand as what is written for each of them.
pub open spec fn emitted(node: MyNode) -> Json
    decreases node,
{
    object(
        node.fields(
            match node.child_nodes() {
                Some(nodes) => emitted_all(nodes),
                None => Seq::empty(),
            },
        ),
    )
}

/// What is written for the children of `node`; nothing for a kind that cannot
/// have any. These are the children that stand in `emitted(node)`.
pub open spec fn emitted_children(node: MyNode) -> Seq<Json> {
    match node.child_nodes() {
        Some(nodes) => emitted_all(nodes),
        None => Seq::empty(),
    }
}

/// No key occurs twice among the entries of a node.
pub proof fn lemma_node_fields_distinct(node: MyNode, children: Seq<Json>)
    ensures
        fields_distinct(node.fields(children)),
{
    lemma_scalars_distinct(node);
}

/// The nodes below `node`; none for a kind that cannot have any.
spec fn kids(node: MyNode) -> Seq<MyNode> {
    match node.child_nodes() {
        Some(nodes) => nodes,
        None => Seq::empty(),
    }
}

/// The steps that the traversal takes on `node` and everything below it.
spec fn work(node: MyNode) -> nat
    decreases node, 0nat,
{
    match node.child_nodes() {
        Some(nodes) => 1 + rest_work(nodes, 0),
        None => 1,
    }
}

/// The steps that the traversal takes on the nodes of `nodes` from index
/// `from` on.
spec fn rest_work(nodes: Seq<MyNode>, from: int) -> nat
    decreases nodes, nodes.len() - from,
{
    if 0 <= from < nodes.len() {
        1 + work(nodes[from]) + rest_work(nodes, from + 1)
    } else {
        0
    }
}

/// A node whose children are being written: the node, and what has been
/// written for the first of its children.
struct Frame<'a> {
    node: &'a MyNode,
    done: Vec<serde_json::Value>,
}

impl<'a> Frame<'a> {
    /// What is held for the children is what is written for them.
    spec fn ok(self) -> bool {
        &&& self.done@.len() <= kids(*self.node).len()
        &&& forall|k: int|
            0 <= k < self.done@.len() ==> json_of(#[trigger] self.done@[k]) == emitted(
                kids(*self.node)[k],
            )
    }

    /// The next child to write is `child`.
    spec fn waits_for(self, child: MyNode) -> bool {
        &&& self.done@.len() < kids(*self.node).len()
        &&& kids(*self.node)[self.done@.len() as int] == child
    }

    /// The steps left for this frame while it is the one being worked on.
    spec fn top_work(self) -> nat {
        1 + rest_work(kids(*self.node), self.done@.len() as int)
    }

    /// The steps left for this frame while it waits for a child.
    spec fn pending_work(self) -> nat {
        1 + rest_work(kids(*self.node), self.done@.len() as int + 1)
    }
}

/// The steps left for the frames that wait.
spec fn below_work(stack: Seq<Frame>) -> nat
    decreases stack.len(),
{
    if stack.len() == 0 {
        0
    } else {
        below_work(stack.drop_last()) + stack.last().pending_work()
    }
}

/// The frames that wait lead from `root` down to `top`: each waits for the
/// node of the next, the last for `top`.
spec fn chain_ok(stack: Seq<Frame>, top: MyNode, root: MyNode) -> bool {
    &&& forall|i: int| 0 <= i < stack.len() ==> (#[trigger] stack[i]).ok()
    &&& forall|i: int|
        0 <= i < stack.len() - 1 ==> (#[trigger] stack[i]).waits_for(*stack[i + 1].node)
    &&& if stack.len() == 0 {
        top == root
    } else {
        *stack[0].node == root && stack.last().waits_for(top)
    }
}

/// Writes the object for `node` from what was written for its children.
fn assemble(node: &MyNode, done: Vec<serde_json::Value>) -> (value: serde_json::Value)
    requires
        done@.len() == kids(*node).len(),
        forall|k: int|
            0 <= k < done@.len() ==> json_of(#[trigger] done@[k]) == emitted(kids(*node)[k]),
    ensures
        json_of(value) == emitted(*node),
{
    let ghost children = emitted_children(*node);
    let mut entries: Vec<(Field, serde_json::Value)> = Vec::new();
    assert(fields_of(entries@) =~= Seq::empty());
    if node.has_shape() {
        push_entry(&mut entries, Field::Type, text_value(node.tag().to_owned()));
        let mut scalars = node.scalar_fields();
        let ghost head = entries@;
        entries.append(&mut scalars);
        assert(fields_of(entries@) =~= fields_of(head) + node.scalars());
        if node.children().is_some() {
            assert(jsons_of(done@) =~= children);
            push_entry(&mut entries, Field::Children, array_value(done));
        }
        match node.position() {
            Some(position) => {
                push_entry(&mut entries, Field::Position, position.to_json());
            },
            None => {},
        }
    } else {
        push_entry(&mut entries, Field::Type, text_value("_TODO".to_owned()));
    }
    proof {
        assert(fields_of(entries@) =~= node.fields(children));
        lemma_node_fields_distinct(*node, children);
    }
    object_from(entries)
}

/// Projects a syntax tree into the JSON value that stands for it.
///
/// Every node becomes an object: its discriminator under "type", the fields
/// of its kind, its children under "children" where the kind can have any,
/// and its source span under "position" where it has one, in this order.
/// Nothing is written as `null`, and no object has a key twice.
///
/// The tree is walked with a stack of its own, so that the depth of the
/// document does not bear on the call stack.
pub fn emit(node: &MyNode) -> (value: serde_json::Value)
    ensures
        json_of(value) == emitted(*node),
        json_of(value).get(Field::Type.text()) == Some(Json::Text(node.tag_text())),
        node.tag_text().len() > 0,
        node.child_nodes() is Some <==> json_of(value).has(Field::Children.text()),
        node.child_nodes() matches Some(nodes) ==> json_of(value).get(Field::Children.text())
            == Some(Json::Array(emitted_all(nodes))),
        node.span() is None ==> !json_of(value).has(Field::Position.text()),
        node.is_mapped() && node.span() is Some ==> json_of(value).get(Field::Position.text())
            == Some(node.span()->0.json()),
        json_of(value).is_canonical(),
{
    let mut stack: Vec<Frame> = Vec::new();
    let mut top = Frame { node, done: Vec::new() };
    loop
        invariant
            top.ok(),
            chain_ok(stack@, *top.node, *node),
        decreases below_work(stack@) + top.top_work(),
    {
        let children = top.node.children();
        let count = match children {
            Some(nodes) => nodes.len(),
            None => 0,
        };
        if top.done.len() < count {
            let child: &MyNode = &children.unwrap()[top.done.len()];
            proof {
                let d = top.done@.len() as int;
                let nodes = kids(*top.node);
                assert(stack@.push(top).drop_last() =~= stack@);
                assert(rest_work(nodes, d) == 1 + work(nodes[d]) + rest_work(nodes, d + 1));
                assert(work(*child) == 1 + rest_work(kids(*child), 0));
            }
            stack.push(top);
            top = Frame { node: child, done: Vec::new() };
        } else {
            let value = assemble(top.node, top.done);
            match stack.pop() {
                None => {
                    proof {
                        lemma_emitted_has_type(*node);
                        lemma_children_rule(*node);
                        lemma_position_rule(*node);
                        lemma_emitted_is_canonical(*node);
                    }
                    return value;
                },
                Some(parent) => {
                    top = parent;
                    top.done.push(value);
                },
            }
        }
    }
}

} // verus!
