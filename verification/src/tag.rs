//! The discriminator of each kind of node.

use vstd::prelude::*;
use crate::node::MyNode;

verus! {

/// The discriminator written for a node that the projection has no shape
/// for.
pub open spec fn fallback_tag() -> Seq<char> {
    "_TODO"@
}

/// Whether two nodes are of the same kind.
pub open spec fn same_kind(a: MyNode, b: MyNode) -> bool {
    match (a, b) {
        (MyNode::Root(_), MyNode::Root(_)) => true,
        (MyNode::BlockQuote(_), MyNode::BlockQuote(_)) => true,
        (MyNode::FootnoteDefinition(_), MyNode::FootnoteDefinition(_)) => true,
        (MyNode::MdxJsxFlowElement(_), MyNode::MdxJsxFlowElement(_)) => true,
        (MyNode::List(_), MyNode::List(_)) => true,
        (MyNode::MdxjsEsm(_), MyNode::MdxjsEsm(_)) => true,
        (MyNode::Toml(_), MyNode::Toml(_)) => true,
        (MyNode::Yaml(_), MyNode::Yaml(_)) => true,
        (MyNode::Break(_), MyNode::Break(_)) => true,
        (MyNode::InlineCode(_), MyNode::InlineCode(_)) => true,
        (MyNode::InlineMath(_), MyNode::InlineMath(_)) => true,
        (MyNode::Delete(_), MyNode::Delete(_)) => true,
        (MyNode::Emphasis(_), MyNode::Emphasis(_)) => true,
        (MyNode::MdxTextExpression(_), MyNode::MdxTextExpression(_)) => true,
        (MyNode::FootnoteReference(_), MyNode::FootnoteReference(_)) => true,
        (MyNode::Html(_), MyNode::Html(_)) => true,
        (MyNode::Image(_), MyNode::Image(_)) => true,
        (MyNode::ImageReference(_), MyNode::ImageReference(_)) => true,
        (MyNode::MdxJsxTextElement(_), MyNode::MdxJsxTextElement(_)) => true,
        (MyNode::Link(_), MyNode::Link(_)) => true,
        (MyNode::LinkReference(_), MyNode::LinkReference(_)) => true,
        (MyNode::Strong(_), MyNode::Strong(_)) => true,
        (MyNode::Text(_), MyNode::Text(_)) => true,
        (MyNode::Code(_), MyNode::Code(_)) => true,
        (MyNode::Math(_), MyNode::Math(_)) => true,
        (MyNode::MdxFlowExpression(_), MyNode::MdxFlowExpression(_)) => true,
        (MyNode::Heading(_), MyNode::Heading(_)) => true,
        (MyNode::Table(_), MyNode::Table(_)) => true,
        (MyNode::ThematicBreak(_), MyNode::ThematicBreak(_)) => true,
        (MyNode::TableRow(_), MyNode::TableRow(_)) => true,
        (MyNode::TableCell(_), MyNode::TableCell(_)) => true,
        (MyNode::ListItem(_), MyNode::ListItem(_)) => true,
        (MyNode::Definition(_), MyNode::Definition(_)) => true,
        (MyNode::Paragraph(_), MyNode::Paragraph(_)) => true,
        _ => false,
    }
}

impl MyNode {
    /// Whether the projection has a shape for this kind of node. Where it has
    /// none, the node is written as the fallback, so that the gap shows.
    pub open spec fn is_mapped(self) -> bool {
        !(self is Math)
    }

    /// The discriminator written for this node: the name of its kind, or the
    /// fallback's where the projection has no shape for the kind.
    pub open spec fn tag_text(self) -> Seq<char> {
        match self {
            MyNode::Root(_) => "Root"@,
            MyNode::BlockQuote(_) => "BlockQuote"@,
            MyNode::FootnoteDefinition(_) => "FootnoteDefinition"@,
            MyNode::MdxJsxFlowElement(_) => "MdxJsxFlowElement"@,
            MyNode::List(_) => "List"@,
            MyNode::MdxjsEsm(_) => "MdxjsEsm"@,
            MyNode::Toml(_) => "Toml"@,
            MyNode::Yaml(_) => "Yaml"@,
            MyNode::Break(_) => "Break"@,
            MyNode::InlineCode(_) => "InlineCode"@,
            MyNode::InlineMath(_) => "InlineMath"@,
            MyNode::Delete(_) => "Delete"@,
            MyNode::Emphasis(_) => "Emphasis"@,
            MyNode::MdxTextExpression(_) => "MdxTextExpression"@,
            MyNode::FootnoteReference(_) => "FootnoteReference"@,
            MyNode::Html(_) => "Html"@,
            MyNode::Image(_) => "Image"@,
            MyNode::ImageReference(_) => "ImageReference"@,
            MyNode::MdxJsxTextElement(_) => "MdxJsxTextElement"@,
            MyNode::Link(_) => "Link"@,
            MyNode::LinkReference(_) => "LinkReference"@,
            MyNode::Strong(_) => "Strong"@,
            MyNode::Text(_) => "Text"@,
            MyNode::Code(_) => "Code"@,
            MyNode::Math(_) => fallback_tag(),
            MyNode::MdxFlowExpression(_) => "MdxFlowExpression"@,
            MyNode::Heading(_) => "Heading"@,
            MyNode::Table(_) => "Table"@,
            MyNode::ThematicBreak(_) => "ThematicBreak"@,
            MyNode::TableRow(_) => "TableRow"@,
            MyNode::TableCell(_) => "TableCell"@,
            MyNode::ListItem(_) => "ListItem"@,
            MyNode::Definition(_) => "Definition"@,
            MyNode::Paragraph(_) => "Paragraph"@,
        }
    }

    /// Whether the projection has a shape for this kind of node.
    pub fn has_shape(&self) -> (mapped: bool)
        ensures
            mapped == self.is_mapped(),
    {
        match self {
            MyNode::Math(_) => false,
            _ => true,
        }
    }

    /// The discriminator written for this node.
    pub fn tag(&self) -> (tag: &'static str)
        ensures
            tag@ == self.tag_text(),
    {
        match self {
            MyNode::Root(_) => "Root",
            MyNode::BlockQuote(_) => "BlockQuote",
            MyNode::FootnoteDefinition(_) => "FootnoteDefinition",
            MyNode::MdxJsxFlowElement(_) => "MdxJsxFlowElement",
            MyNode::List(_) => "List",
            MyNode::MdxjsEsm(_) => "MdxjsEsm",
            MyNode::Toml(_) => "Toml",
            MyNode::Yaml(_) => "Yaml",
            MyNode::Break(_) => "Break",
            MyNode::InlineCode(_) => "InlineCode",
            MyNode::InlineMath(_) => "InlineMath",
            MyNode::Delete(_) => "Delete",
            MyNode::Emphasis(_) => "Emphasis",
            MyNode::MdxTextExpression(_) => "MdxTextExpression",
            MyNode::FootnoteReference(_) => "FootnoteReference",
            MyNode::Html(_) => "Html",
            MyNode::Image(_) => "Image",
            MyNode::ImageReference(_) => "ImageReference",
            MyNode::MdxJsxTextElement(_) => "MdxJsxTextElement",
            MyNode::Link(_) => "Link",
            MyNode::LinkReference(_) => "LinkReference",
            MyNode::Strong(_) => "Strong",
            MyNode::Text(_) => "Text",
            MyNode::Code(_) => "Code",
            MyNode::Math(_) => "_TODO",
            MyNode::MdxFlowExpression(_) => "MdxFlowExpression",
            MyNode::Heading(_) => "Heading",
            MyNode::Table(_) => "Table",
            MyNode::ThematicBreak(_) => "ThematicBreak",
            MyNode::TableRow(_) => "TableRow",
            MyNode::TableCell(_) => "TableCell",
            MyNode::ListItem(_) => "ListItem",
            MyNode::Definition(_) => "Definition",
            MyNode::Paragraph(_) => "Paragraph",
        }
    }
}

/// Reveals what each discriminator is, character by character.
pub proof fn lemma_tag_texts(node: MyNode)
    ensures
        !node.is_mapped() ==> node.tag_text() == seq!['_', 'T', 'O', 'D', 'O'],
        node is Root ==> node.tag_text() == seq!['R', 'o', 'o', 't'],
        node is BlockQuote ==> node.tag_text() == seq![
            'B', 'l', 'o', 'c', 'k', 'Q', 'u', 'o', 't', 'e',
        ],
        node is FootnoteDefinition ==> node.tag_text() == seq![
            'F', 'o', 'o', 't', 'n', 'o', 't', 'e', 'D', 'e', 'f', 'i', 'n', 'i', 't', 'i', 'o',
            'n',
        ],
        node is MdxJsxFlowElement ==> node.tag_text() == seq![
            'M', 'd', 'x', 'J', 's', 'x', 'F', 'l', 'o', 'w', 'E', 'l', 'e', 'm', 'e', 'n', 't',
        ],
        node is List ==> node.tag_text() == seq!['L', 'i', 's', 't'],
        node is MdxjsEsm ==> node.tag_text() == seq!['M', 'd', 'x', 'j', 's', 'E', 's', 'm'],
        node is Toml ==> node.tag_text() == seq!['T', 'o', 'm', 'l'],
        node is Yaml ==> node.tag_text() == seq!['Y', 'a', 'm', 'l'],
        node is Break ==> node.tag_text() == seq!['B', 'r', 'e', 'a', 'k'],
        node is InlineCode ==> node.tag_text() == seq![
            'I', 'n', 'l', 'i', 'n', 'e', 'C', 'o', 'd', 'e',
        ],
        node is InlineMath ==> node.tag_text() == seq![
            'I', 'n', 'l', 'i', 'n', 'e', 'M', 'a', 't', 'h',
        ],
        node is Delete ==> node.tag_text() == seq!['D', 'e', 'l', 'e', 't', 'e'],
        node is Emphasis ==> node.tag_text() == seq!['E', 'm', 'p', 'h', 'a', 's', 'i', 's'],
        node is MdxTextExpression ==> node.tag_text() == seq![
            'M', 'd', 'x', 'T', 'e', 'x', 't', 'E', 'x', 'p', 'r', 'e', 's', 's', 'i', 'o', 'n',
        ],
        node is FootnoteReference ==> node.tag_text() == seq![
            'F', 'o', 'o', 't', 'n', 'o', 't', 'e', 'R', 'e', 'f', 'e', 'r', 'e', 'n', 'c', 'e',
        ],
        node is Html ==> node.tag_text() == seq!['H', 't', 'm', 'l'],
        node is Image ==> node.tag_text() == seq!['I', 'm', 'a', 'g', 'e'],
        node is ImageReference ==> node.tag_text() == seq![
            'I', 'm', 'a', 'g', 'e', 'R', 'e', 'f', 'e', 'r', 'e', 'n', 'c', 'e',
        ],
        node is MdxJsxTextElement ==> node.tag_text() == seq![
            'M', 'd', 'x', 'J', 's', 'x', 'T', 'e', 'x', 't', 'E', 'l', 'e', 'm', 'e', 'n', 't',
        ],
        node is Link ==> node.tag_text() == seq!['L', 'i', 'n', 'k'],
        node is LinkReference ==> node.tag_text() == seq![
            'L', 'i', 'n', 'k', 'R', 'e', 'f', 'e', 'r', 'e', 'n', 'c', 'e',
        ],
        node is Strong ==> node.tag_text() == seq!['S', 't', 'r', 'o', 'n', 'g'],
        node is Text ==> node.tag_text() == seq!['T', 'e', 'x', 't'],
        node is Code ==> node.tag_text() == seq!['C', 'o', 'd', 'e'],
        node is MdxFlowExpression ==> node.tag_text() == seq![
            'M', 'd', 'x', 'F', 'l', 'o', 'w', 'E', 'x', 'p', 'r', 'e', 's', 's', 'i', 'o', 'n',
        ],
        node is Heading ==> node.tag_text() == seq!['H', 'e', 'a', 'd', 'i', 'n', 'g'],
        node is Table ==> node.tag_text() == seq!['T', 'a', 'b', 'l', 'e'],
        node is ThematicBreak ==> node.tag_text() == seq![
            'T', 'h', 'e', 'm', 'a', 't', 'i', 'c', 'B', 'r', 'e', 'a', 'k',
        ],
        node is TableRow ==> node.tag_text() == seq!['T', 'a', 'b', 'l', 'e', 'R', 'o', 'w'],
        node is TableCell ==> node.tag_text() == seq!['T', 'a', 'b', 'l', 'e', 'C', 'e', 'l', 'l'],
        node is ListItem ==> node.tag_text() == seq!['L', 'i', 's', 't', 'I', 't', 'e', 'm'],
        node is Definition ==> node.tag_text() == seq![
            'D', 'e', 'f', 'i', 'n', 'i', 't', 'i', 'o', 'n',
        ],
        node is Paragraph ==> node.tag_text() == seq!['P', 'a', 'r', 'a', 'g', 'r', 'a', 'p', 'h'],
{
    reveal_strlit("_TODO");
    reveal_strlit("Root");
    reveal_strlit("BlockQuote");
    reveal_strlit("FootnoteDefinition");
    reveal_strlit("MdxJsxFlowElement");
    reveal_strlit("List");
    reveal_strlit("MdxjsEsm");
    reveal_strlit("Toml");
    reveal_strlit("Yaml");
    reveal_strlit("Break");
    reveal_strlit("InlineCode");
    reveal_strlit("InlineMath");
    reveal_strlit("Delete");
    reveal_strlit("Emphasis");
    reveal_strlit("MdxTextExpression");
    reveal_strlit("FootnoteReference");
    reveal_strlit("Html");
    reveal_strlit("Image");
    reveal_strlit("ImageReference");
    reveal_strlit("MdxJsxTextElement");
    reveal_strlit("Link");
    reveal_strlit("LinkReference");
    reveal_strlit("Strong");
    reveal_strlit("Text");
    reveal_strlit("Code");
    reveal_strlit("MdxFlowExpression");
    reveal_strlit("Heading");
    reveal_strlit("Table");
    reveal_strlit("ThematicBreak");
    reveal_strlit("TableRow");
    reveal_strlit("TableCell");
    reveal_strlit("ListItem");
    reveal_strlit("Definition");
    reveal_strlit("Paragraph");
    match node {
        MyNode::Root(_) => {
            assert(node.tag_text() =~= seq!['R', 'o', 'o', 't']);
        },
        MyNode::BlockQuote(_) => {
            assert(node.tag_text() =~= seq!['B', 'l', 'o', 'c', 'k', 'Q', 'u', 'o', 't', 'e']);
        },
        MyNode::FootnoteDefinition(_) => {
            assert(node.tag_text() =~= seq![
                'F', 'o', 'o', 't', 'n', 'o', 't', 'e', 'D', 'e', 'f', 'i', 'n', 'i', 't', 'i', 'o',
                'n',
            ]);
        },
        MyNode::MdxJsxFlowElement(_) => {
            assert(node.tag_text() =~= seq![
                'M', 'd', 'x', 'J', 's', 'x', 'F', 'l', 'o', 'w', 'E', 'l', 'e', 'm', 'e', 'n', 't',
            ]);
        },
        MyNode::List(_) => {
            assert(node.tag_text() =~= seq!['L', 'i', 's', 't']);
        },
        MyNode::MdxjsEsm(_) => {
            assert(node.tag_text() =~= seq!['M', 'd', 'x', 'j', 's', 'E', 's', 'm']);
        },
        MyNode::Toml(_) => {
            assert(node.tag_text() =~= seq!['T', 'o', 'm', 'l']);
        },
        MyNode::Yaml(_) => {
            assert(node.tag_text() =~= seq!['Y', 'a', 'm', 'l']);
        },
        MyNode::Break(_) => {
            assert(node.tag_text() =~= seq!['B', 'r', 'e', 'a', 'k']);
        },
        MyNode::InlineCode(_) => {
            assert(node.tag_text() =~= seq!['I', 'n', 'l', 'i', 'n', 'e', 'C', 'o', 'd', 'e']);
        },
        MyNode::InlineMath(_) => {
            assert(node.tag_text() =~= seq!['I', 'n', 'l', 'i', 'n', 'e', 'M', 'a', 't', 'h']);
        },
        MyNode::Delete(_) => {
            assert(node.tag_text() =~= seq!['D', 'e', 'l', 'e', 't', 'e']);
        },
        MyNode::Emphasis(_) => {
            assert(node.tag_text() =~= seq!['E', 'm', 'p', 'h', 'a', 's', 'i', 's']);
        },
        MyNode::MdxTextExpression(_) => {
            assert(node.tag_text() =~= seq![
                'M', 'd', 'x', 'T', 'e', 'x', 't', 'E', 'x', 'p', 'r', 'e', 's', 's', 'i', 'o', 'n',
            ]);
        },
        MyNode::FootnoteReference(_) => {
            assert(node.tag_text() =~= seq![
                'F', 'o', 'o', 't', 'n', 'o', 't', 'e', 'R', 'e', 'f', 'e', 'r', 'e', 'n', 'c', 'e',
            ]);
        },
        MyNode::Html(_) => {
            assert(node.tag_text() =~= seq!['H', 't', 'm', 'l']);
        },
        MyNode::Image(_) => {
            assert(node.tag_text() =~= seq!['I', 'm', 'a', 'g', 'e']);
        },
        MyNode::ImageReference(_) => {
            assert(node.tag_text() =~= seq![
                'I', 'm', 'a', 'g', 'e', 'R', 'e', 'f', 'e', 'r', 'e', 'n', 'c', 'e',
            ]);
        },
        MyNode::MdxJsxTextElement(_) => {
            assert(node.tag_text() =~= seq![
                'M', 'd', 'x', 'J', 's', 'x', 'T', 'e', 'x', 't', 'E', 'l', 'e', 'm', 'e', 'n', 't',
            ]);
        },
        MyNode::Link(_) => {
            assert(node.tag_text() =~= seq!['L', 'i', 'n', 'k']);
        },
        MyNode::LinkReference(_) => {
            assert(node.tag_text() =~= seq![
                'L', 'i', 'n', 'k', 'R', 'e', 'f', 'e', 'r', 'e', 'n', 'c', 'e',
            ]);
        },
        MyNode::Strong(_) => {
            assert(node.tag_text() =~= seq!['S', 't', 'r', 'o', 'n', 'g']);
        },
        MyNode::Text(_) => {
            assert(node.tag_text() =~= seq!['T', 'e', 'x', 't']);
        },
        MyNode::Code(_) => {
            assert(node.tag_text() =~= seq!['C', 'o', 'd', 'e']);
        },
        MyNode::Math(_) => {
            assert(node.tag_text() =~= seq!['_', 'T', 'O', 'D', 'O']);
        },
        MyNode::MdxFlowExpression(_) => {
            assert(node.tag_text() =~= seq![
                'M', 'd', 'x', 'F', 'l', 'o', 'w', 'E', 'x', 'p', 'r', 'e', 's', 's', 'i', 'o', 'n',
            ]);
        },
        MyNode::Heading(_) => {
            assert(node.tag_text() =~= seq!['H', 'e', 'a', 'd', 'i', 'n', 'g']);
        },
        MyNode::Table(_) => {
            assert(node.tag_text() =~= seq!['T', 'a', 'b', 'l', 'e']);
        },
        MyNode::ThematicBreak(_) => {
            assert(node.tag_text() =~= seq![
                'T', 'h', 'e', 'm', 'a', 't', 'i', 'c', 'B', 'r', 'e', 'a', 'k',
            ]);
        },
        MyNode::TableRow(_) => {
            assert(node.tag_text() =~= seq!['T', 'a', 'b', 'l', 'e', 'R', 'o', 'w']);
        },
        MyNode::TableCell(_) => {
            assert(node.tag_text() =~= seq!['T', 'a', 'b', 'l', 'e', 'C', 'e', 'l', 'l']);
        },
        MyNode::ListItem(_) => {
            assert(node.tag_text() =~= seq!['L', 'i', 's', 't', 'I', 't', 'e', 'm']);
        },
        MyNode::Definition(_) => {
            assert(node.tag_text() =~= seq!['D', 'e', 'f', 'i', 'n', 'i', 't', 'i', 'o', 'n']);
        },
        MyNode::Paragraph(_) => {
            assert(node.tag_text() =~= seq!['P', 'a', 'r', 'a', 'g', 'r', 'a', 'p', 'h']);
        },
    }
}

/// The discriminator names the kind: two nodes that the projection has a
/// shape for are written with the same discriminator only if they are of the
/// same kind, and none of them is written with the fallback's.
pub proof fn lemma_tag_names_kind(a: MyNode, b: MyNode)
    requires
        a.is_mapped(),
        b.is_mapped(),
    ensures
        a.tag_text() == b.tag_text() <==> same_kind(a, b),
        a.tag_text() != fallback_tag(),
{
    lemma_tag_texts(a);
    lemma_tag_texts(b);
    reveal_strlit("_TODO");
    let s = a.tag_text();
    let t = b.tag_text();
    if !same_kind(a, b) {
        assert(s.len() != t.len() || s[0] != t[0] || s[1] != t[1] || s[2] != t[2] || s[3] != t[3]
            || s[6] != t[6]);
    }
    assert(s[0] != '_');
}

} // verus!
