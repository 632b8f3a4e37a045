//! The syntax tree that is projected.

use vstd::prelude::*;
use crate::attribute::{AttributeContent, Stop};
use crate::kinds::{AlignKind, ReferenceKind};
use crate::position::Position;

verus! {

/// The whole document.
#[derive(Debug, PartialEq, Eq)]
pub struct Root {
    /// The nodes below this one, in document order.
    pub children: Vec<MyNode>,
    /// Where the node stands in the source, if the parser recorded it.
    pub position: Option<Position>,
}

/// A block quote.
#[derive(Debug, PartialEq, Eq)]
pub struct BlockQuote {
    /// The nodes below this one, in document order.
    pub children: Vec<MyNode>,
    /// Where the node stands in the source, if the parser recorded it.
    pub position: Option<Position>,
}

/// The content of a footnote.
#[derive(Debug, PartialEq, Eq)]
pub struct FootnoteDefinition {
    /// The nodes below this one, in document order.
    pub children: Vec<MyNode>,
    /// Where the node stands in the source, if the parser recorded it.
    pub position: Option<Position>,
    /// The normalised name by which references find the footnote.
    pub identifier: String,
    /// The name as it was written.
    pub label: Option<String>,
}

/// A component that stands as a block of its own.
#[derive(Debug, PartialEq, Eq)]
pub struct MdxJsxFlowElement {
    /// The nodes below this one, in document order.
    pub children: Vec<MyNode>,
    /// Where the node stands in the source, if the parser recorded it.
    pub position: Option<Position>,
    /// The name of the component; a fragment has none.
    pub name: Option<String>,
    /// The attributes of the component, in the order written.
    pub attributes: Vec<AttributeContent>,
}

/// A list.
#[derive(Debug, PartialEq, Eq)]
pub struct List {
    /// The nodes below this one, in document order.
    pub children: Vec<MyNode>,
    /// Where the node stands in the source, if the parser recorded it.
    pub position: Option<Position>,
    /// Whether the items are numbered.
    pub ordered: bool,
    /// The number of the first item of a numbered list.
    pub start: Option<u32>,
    /// Whether blank lines separate the items.
    pub spread: bool,
}

/// An import or export statement.
#[derive(Debug, PartialEq, Eq)]
pub struct MdxjsEsm {
    /// The statement as written.
    pub value: String,
    /// Where the node stands in the source, if the parser recorded it.
    pub position: Option<Position>,
    /// The source mapping of the statement.
    pub stops: Vec<Stop>,
}

/// A front matter block in TOML.
#[derive(Debug, PartialEq, Eq)]
pub struct Toml {
    /// The content of the block.
    pub value: String,
    /// Where the node stands in the source, if the parser recorded it.
    pub position: Option<Position>,
}

/// A front matter block in YAML.
#[derive(Debug, PartialEq, Eq)]
pub struct Yaml {
    /// The content of the block.
    pub value: String,
    /// Where the node stands in the source, if the parser recorded it.
    pub position: Option<Position>,
}

/// A hard line break.
#[derive(Debug, PartialEq, Eq)]
pub struct Break {
    /// Where the node stands in the source, if the parser recorded it.
    pub position: Option<Position>,
}

/// Code within a line.
#[derive(Debug, PartialEq, Eq)]
pub struct InlineCode {
    /// The code.
    pub value: String,
    /// Where the node stands in the source, if the parser recorded it.
    pub position: Option<Position>,
}

/// A formula within a line.
#[derive(Debug, PartialEq, Eq)]
pub struct InlineMath {
    /// The formula.
    pub value: String,
    /// Where the node stands in the source, if the parser recorded it.
    pub position: Option<Position>,
}

/// Struck-through text.
#[derive(Debug, PartialEq, Eq)]
pub struct Delete {
    /// The nodes below this one, in document order.
    pub children: Vec<MyNode>,
    /// Where the node stands in the source, if the parser recorded it.
    pub position: Option<Position>,
}

/// Emphasised text.
#[derive(Debug, PartialEq, Eq)]
pub struct Emphasis {
    /// The nodes below this one, in document order.
    pub children: Vec<MyNode>,
    /// Where the node stands in the source, if the parser recorded it.
    pub position: Option<Position>,
}

/// An expression in braces within a line.
#[derive(Debug, PartialEq, Eq)]
pub struct MdxTextExpression {
    /// The source text of the expression.
    pub value: String,
    /// Where the node stands in the source, if the parser recorded it.
    pub position: Option<Position>,
    /// The source mapping of the expression.
    pub stops: Vec<Stop>,
}

/// A reference to a footnote.
#[derive(Debug, PartialEq, Eq)]
pub struct FootnoteReference {
    /// Where the node stands in the source, if the parser recorded it.
    pub position: Option<Position>,
    /// The normalised name of the footnote.
    pub identifier: String,
    /// The name as it was written.
    pub label: Option<String>,
}

/// Raw HTML.
#[derive(Debug, PartialEq, Eq)]
pub struct Html {
    /// The HTML as written.
    pub value: String,
    /// Where the node stands in the source, if the parser recorded it.
    pub position: Option<Position>,
}

/// An image.
#[derive(Debug, PartialEq, Eq)]
pub struct Image {
    /// Where the node stands in the source, if the parser recorded it.
    pub position: Option<Position>,
    /// The text that stands for the image.
    pub alt: String,
    /// The address of the image.
    pub url: String,
    /// The title of the image.
    pub title: Option<String>,
}

/// An image whose address is given by a definition.
#[derive(Debug, PartialEq, Eq)]
pub struct ImageReference {
    /// Where the node stands in the source, if the parser recorded it.
    pub position: Option<Position>,
    /// The text that stands for the image.
    pub alt: String,
    /// How the reference was written.
    pub reference_kind: ReferenceKind,
    /// The normalised name of the definition.
    pub identifier: String,
    /// The name as it was written.
    pub label: Option<String>,
}

/// A component within a line.
#[derive(Debug, PartialEq, Eq)]
pub struct MdxJsxTextElement {
    /// The nodes below this one, in document order.
    pub children: Vec<MyNode>,
    /// Where the node stands in the source, if the parser recorded it.
    pub position: Option<Position>,
    /// The name of the component; a fragment has none.
    pub name: Option<String>,
    /// The attributes of the component, in the order written.
    pub attributes: Vec<AttributeContent>,
}

/// A link.
#[derive(Debug, PartialEq, Eq)]
pub struct Link {
    /// The nodes below this one, in document order.
    pub children: Vec<MyNode>,
    /// Where the node stands in the source, if the parser recorded it.
    pub position: Option<Position>,
    /// The address the link leads to.
    pub url: String,
    /// The title of the link.
    pub title: Option<String>,
}

/// A link whose address is given by a definition.
#[derive(Debug, PartialEq, Eq)]
pub struct LinkReference {
    /// The nodes below this one, in document order.
    pub children: Vec<MyNode>,
    /// Where the node stands in the source, if the parser recorded it.
    pub position: Option<Position>,
    /// How the reference was written.
    pub reference_kind: ReferenceKind,
    /// The normalised name of the definition.
    pub identifier: String,
    /// The name as it was written.
    pub label: Option<String>,
}

/// Strongly emphasised text.
#[derive(Debug, PartialEq, Eq)]
pub struct Strong {
    /// The nodes below this one, in document order.
    pub children: Vec<MyNode>,
    /// Where the node stands in the source, if the parser recorded it.
    pub position: Option<Position>,
}

/// Plain text.
#[derive(Debug, PartialEq, Eq)]
pub struct Text {
    /// The text.
    pub value: String,
    /// Where the node stands in the source, if the parser recorded it.
    pub position: Option<Position>,
}

/// A block of code.
#[derive(Debug, PartialEq, Eq)]
pub struct Code {
    /// The code.
    pub value: String,
    /// Where the node stands in the source, if the parser recorded it.
    pub position: Option<Position>,
    /// The language named after the opening fence.
    pub lang: Option<String>,
    /// What follows the language on that line.
    pub meta: Option<String>,
}

/// A block formula.
#[derive(Debug, PartialEq, Eq)]
pub struct Math {
    /// The formula.
    pub value: String,
    /// Where the node stands in the source, if the parser recorded it.
    pub position: Option<Position>,
    /// What follows the opening fence on its line.
    pub meta: Option<String>,
}

/// An expression in braces that stands as a block of its own.
#[derive(Debug, PartialEq, Eq)]
pub struct MdxFlowExpression {
    /// The source text of the expression.
    pub value: String,
    /// Where the node stands in the source, if the parser recorded it.
    pub position: Option<Position>,
    /// The source mapping of the expression.
    pub stops: Vec<Stop>,
}

/// A heading.
#[derive(Debug, PartialEq, Eq)]
pub struct Heading {
    /// The nodes below this one, in document order.
    pub children: Vec<MyNode>,
    /// Where the node stands in the source, if the parser recorded it.
    pub position: Option<Position>,
    /// The rank of the heading, from 1 to 6.
    pub depth: u8,
}

/// A table.
#[derive(Debug, PartialEq, Eq)]
pub struct Table {
    /// The nodes below this one, in document order.
    pub children: Vec<MyNode>,
    /// Where the node stands in the source, if the parser recorded it.
    pub position: Option<Position>,
    /// The alignment of each column, from left to right.
    pub align: Vec<AlignKind>,
}

/// A thematic break.
#[derive(Debug, PartialEq, Eq)]
pub struct ThematicBreak {
    /// Where the node stands in the source, if the parser recorded it.
    pub position: Option<Position>,
}

/// A row of a table.
#[derive(Debug, PartialEq, Eq)]
pub struct TableRow {
    /// The nodes below this one, in document order.
    pub children: Vec<MyNode>,
    /// Where the node stands in the source, if the parser recorded it.
    pub position: Option<Position>,
}

/// A cell of a table row.
#[derive(Debug, PartialEq, Eq)]
pub struct TableCell {
    /// The nodes below this one, in document order.
    pub children: Vec<MyNode>,
    /// Where the node stands in the source, if the parser recorded it.
    pub position: Option<Position>,
}

/// An item of a list.
#[derive(Debug, PartialEq, Eq)]
pub struct ListItem {
    /// The nodes below this one, in document order.
    pub children: Vec<MyNode>,
    /// Where the node stands in the source, if the parser recorded it.
    pub position: Option<Position>,
    /// Whether blank lines separate the children of the item.
    pub spread: bool,
    /// The state of the checkbox of a task list item.
    pub checked: Option<bool>,
}

/// The definition that references resolve to.
#[derive(Debug, PartialEq, Eq)]
pub struct Definition {
    /// Where the node stands in the source, if the parser recorded it.
    pub position: Option<Position>,
    /// The address that is defined.
    pub url: String,
    /// The title that is defined.
    pub title: Option<String>,
    /// The normalised name of the definition.
    pub identifier: String,
    /// The name as it was written.
    pub label: Option<String>,
}

/// A paragraph.
#[derive(Debug, PartialEq, Eq)]
pub struct Paragraph {
    /// The nodes below this one, in document order.
    pub children: Vec<MyNode>,
    /// Where the node stands in the source, if the parser recorded it.
    pub position: Option<Position>,
}

/// One node of a document's syntax tree, with everything below it.
#[derive(Debug, PartialEq, Eq)]
pub enum MyNode {
    Root(Root),
    BlockQuote(BlockQuote),
    FootnoteDefinition(FootnoteDefinition),
    MdxJsxFlowElement(MdxJsxFlowElement),
    List(List),
    MdxjsEsm(MdxjsEsm),
    Toml(Toml),
    Yaml(Yaml),
    Break(Break),
    InlineCode(InlineCode),
    InlineMath(InlineMath),
    Delete(Delete),
    Emphasis(Emphasis),
    MdxTextExpression(MdxTextExpression),
    FootnoteReference(FootnoteReference),
    Html(Html),
    Image(Image),
    ImageReference(ImageReference),
    MdxJsxTextElement(MdxJsxTextElement),
    Link(Link),
    LinkReference(LinkReference),
    Strong(Strong),
    Text(Text),
    Code(Code),
    Math(Math),
    MdxFlowExpression(MdxFlowExpression),
    Heading(Heading),
    Table(Table),
    ThematicBreak(ThematicBreak),
    TableRow(TableRow),
    TableCell(TableCell),
    ListItem(ListItem),
    Definition(Definition),
    Paragraph(Paragraph),
}

impl MyNode {
    /// The nodes below this one, for the kinds that can have any; `None` for
    /// the others.
    pub open spec fn child_nodes(self) -> Option<Seq<MyNode>> {
        match self {
            MyNode::Root(node) => Some(node.children@),
            MyNode::BlockQuote(node) => Some(node.children@),
            MyNode::FootnoteDefinition(node) => Some(node.children@),
            MyNode::MdxJsxFlowElement(node) => Some(node.children@),
            MyNode::List(node) => Some(node.children@),
            MyNode::Delete(node) => Some(node.children@),
            MyNode::Emphasis(node) => Some(node.children@),
            MyNode::MdxJsxTextElement(node) => Some(node.children@),
            MyNode::Link(node) => Some(node.children@),
            MyNode::LinkReference(node) => Some(node.children@),
            MyNode::Strong(node) => Some(node.children@),
            MyNode::Heading(node) => Some(node.children@),
            MyNode::Table(node) => Some(node.children@),
            MyNode::TableRow(node) => Some(node.children@),
            MyNode::TableCell(node) => Some(node.children@),
            MyNode::ListItem(node) => Some(node.children@),
            MyNode::Paragraph(node) => Some(node.children@),
            _ => None,
        }
    }

    /// The source span of this node, if it has one.
    pub open spec fn span(self) -> Option<Position> {
        match self {
            MyNode::Root(node) => node.position,
            MyNode::BlockQuote(node) => node.position,
            MyNode::FootnoteDefinition(node) => node.position,
            MyNode::MdxJsxFlowElement(node) => node.position,
            MyNode::List(node) => node.position,
            MyNode::MdxjsEsm(node) => node.position,
            MyNode::Toml(node) => node.position,
            MyNode::Yaml(node) => node.position,
            MyNode::Break(node) => node.position,
            MyNode::InlineCode(node) => node.position,
            MyNode::InlineMath(node) => node.position,
            MyNode::Delete(node) => node.position,
            MyNode::Emphasis(node) => node.position,
            MyNode::MdxTextExpression(node) => node.position,
            MyNode::FootnoteReference(node) => node.position,
            MyNode::Html(node) => node.position,
            MyNode::Image(node) => node.position,
            MyNode::ImageReference(node) => node.position,
            MyNode::MdxJsxTextElement(node) => node.position,
            MyNode::Link(node) => node.position,
            MyNode::LinkReference(node) => node.position,
            MyNode::Strong(node) => node.position,
            MyNode::Text(node) => node.position,
            MyNode::Code(node) => node.position,
            MyNode::Math(node) => node.position,
            MyNode::MdxFlowExpression(node) => node.position,
            MyNode::Heading(node) => node.position,
            MyNode::Table(node) => node.position,
            MyNode::ThematicBreak(node) => node.position,
            MyNode::TableRow(node) => node.position,
            MyNode::TableCell(node) => node.position,
            MyNode::ListItem(node) => node.position,
            MyNode::Definition(node) => node.position,
            MyNode::Paragraph(node) => node.position,
        }
    }

    /// The nodes below this one, for the kinds that can have any.
    pub fn children(&self) -> (children: Option<&Vec<MyNode>>)
        ensures
            match children {
                Some(nodes) => self.child_nodes() == Some(nodes@),
                None => self.child_nodes() is None,
            },
    {
        match self {
            MyNode::Root(node) => Some(&node.children),
            MyNode::BlockQuote(node) => Some(&node.children),
            MyNode::FootnoteDefinition(node) => Some(&node.children),
            MyNode::MdxJsxFlowElement(node) => Some(&node.children),
            MyNode::List(node) => Some(&node.children),
            MyNode::Delete(node) => Some(&node.children),
            MyNode::Emphasis(node) => Some(&node.children),
            MyNode::MdxJsxTextElement(node) => Some(&node.children),
            MyNode::Link(node) => Some(&node.children),
            MyNode::LinkReference(node) => Some(&node.children),
            MyNode::Strong(node) => Some(&node.children),
            MyNode::Heading(node) => Some(&node.children),
            MyNode::Table(node) => Some(&node.children),
            MyNode::TableRow(node) => Some(&node.children),
            MyNode::TableCell(node) => Some(&node.children),
            MyNode::ListItem(node) => Some(&node.children),
            MyNode::Paragraph(node) => Some(&node.children),
            _ => None,
        }
    }

    /// The source span of this node, if it has one.
    pub fn position(&self) -> (position: Option<Position>)
        ensures
            position == self.span(),
    {
        match self {
            MyNode::Root(node) => node.position,
            MyNode::BlockQuote(node) => node.position,
            MyNode::FootnoteDefinition(node) => node.position,
            MyNode::MdxJsxFlowElement(node) => node.position,
            MyNode::List(node) => node.position,
            MyNode::MdxjsEsm(node) => node.position,
            MyNode::Toml(node) => node.position,
            MyNode::Yaml(node) => node.position,
            MyNode::Break(node) => node.position,
            MyNode::InlineCode(node) => node.position,
            MyNode::InlineMath(node) => node.position,
            MyNode::Delete(node) => node.position,
            MyNode::Emphasis(node) => node.position,
            MyNode::MdxTextExpression(node) => node.position,
            MyNode::FootnoteReference(node) => node.position,
            MyNode::Html(node) => node.position,
            MyNode::Image(node) => node.position,
            MyNode::ImageReference(node) => node.position,
            MyNode::MdxJsxTextElement(node) => node.position,
            MyNode::Link(node) => node.position,
            MyNode::LinkReference(node) => node.position,
            MyNode::Strong(node) => node.position,
            MyNode::Text(node) => node.position,
            MyNode::Code(node) => node.position,
            MyNode::Math(node) => node.position,
            MyNode::MdxFlowExpression(node) => node.position,
            MyNode::Heading(node) => node.position,
            MyNode::Table(node) => node.position,
            MyNode::ThematicBreak(node) => node.position,
            MyNode::TableRow(node) => node.position,
            MyNode::TableCell(node) => node.position,
            MyNode::ListItem(node) => node.position,
            MyNode::Definition(node) => node.position,
            MyNode::Paragraph(node) => node.position,
        }
    }
}

} // verus!
