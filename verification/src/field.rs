//! The keys of the objects that the projection writes.

use vstd::prelude::*;

verus! {

/// A key of the wire format.
///
/// The vocabulary is closed: every object that the projection writes takes
/// its keys from here.
#[derive(Clone, Copy, Debug, PartialEq, Eq, Structural)]
pub enum Field {
    /// `"type"`: the discriminator of a node or of an attribute entry.
    Type,
    /// `"depth"`: the rank of a heading.
    Depth,
    /// `"ordered"`: whether a list is numbered.
    Ordered,
    /// `"start"`: the first number of a list, and the first point of a span.
    Start,
    /// `"spread"`: whether the items of a list are separated by blank lines.
    Spread,
    /// `"checked"`: the state of a task list item.
    Checked,
    /// `"value"`: literal content.
    Value,
    /// `"lang"`: the language of a code block.
    Lang,
    /// `"meta"`: the rest of a code block's info string.
    Meta,
    /// `"stops"`: the source mapping of an expression.
    Stops,
    /// `"title"`: the title of a resource.
    Title,
    /// `"alt"`: the alternative text of an image.
    Alt,
    /// `"url"`: the address of a resource.
    Url,
    /// `"label"`: an association as it was written.
    Label,
    /// `"identifier"`: an association, normalised.
    Identifier,
    /// `"reference_kind"`: how a reference was written.
    ReferenceKind,
    /// `"align"`: the alignment of each column of a table.
    Align,
    /// `"name"`: the name of a component.
    Name,
    /// `"attributes"`: the attributes of a component.
    Attributes,
    /// `"children"`: the nodes below a node.
    Children,
    /// `"position"`: the source span of a node.
    Position,
    /// `"end"`: the last point of a span.
    End,
    /// `"line"`: the line of a point.
    Line,
    /// `"column"`: the column of a point.
    Column,
    /// `"offset"`: the offset of a point.
    Offset,
    /// `"expression"`: the source text of an expression.
    Expression,
}

impl Field {
    /// The key as it stands in the JSON text.
    pub open spec fn text(self) -> Seq<char> {
        match self {
            Field::Type => "type"@,
            Field::Depth => "depth"@,
            Field::Ordered => "ordered"@,
            Field::Start => "start"@,
            Field::Spread => "spread"@,
            Field::Checked => "checked"@,
            Field::Value => "value"@,
            Field::Lang => "lang"@,
            Field::Meta => "meta"@,
            Field::Stops => "stops"@,
            Field::Title => "title"@,
            Field::Alt => "alt"@,
            Field::Url => "url"@,
            Field::Label => "label"@,
            Field::Identifier => "identifier"@,
            Field::ReferenceKind => "reference_kind"@,
            Field::Align => "align"@,
            Field::Name => "name"@,
            Field::Attributes => "attributes"@,
            Field::Children => "children"@,
            Field::Position => "position"@,
            Field::End => "end"@,
            Field::Line => "line"@,
            Field::Column => "column"@,
            Field::Offset => "offset"@,
            Field::Expression => "expression"@,
        }
    }

    /// The key as it stands in the JSON text.
    pub fn name(self) -> (name: &'static str)
        ensures
            name@ == self.text(),
    {
        match self {
            Field::Type => "type",
            Field::Depth => "depth",
            Field::Ordered => "ordered",
            Field::Start => "start",
            Field::Spread => "spread",
            Field::Checked => "checked",
            Field::Value => "value",
            Field::Lang => "lang",
            Field::Meta => "meta",
            Field::Stops => "stops",
            Field::Title => "title",
            Field::Alt => "alt",
            Field::Url => "url",
            Field::Label => "label",
            Field::Identifier => "identifier",
            Field::ReferenceKind => "reference_kind",
            Field::Align => "align",
            Field::Name => "name",
            Field::Attributes => "attributes",
            Field::Children => "children",
            Field::Position => "position",
            Field::End => "end",
            Field::Line => "line",
            Field::Column => "column",
            Field::Offset => "offset",
            Field::Expression => "expression",
        }
    }
}

/// Reveals what each key is, character by character.
pub proof fn lemma_field_texts()
    ensures
        Field::Type.text() == seq!['t', 'y', 'p', 'e'],
        Field::Depth.text() == seq!['d', 'e', 'p', 't', 'h'],
        Field::Ordered.text() == seq!['o', 'r', 'd', 'e', 'r', 'e', 'd'],
        Field::Start.text() == seq!['s', 't', 'a', 'r', 't'],
        Field::Spread.text() == seq!['s', 'p', 'r', 'e', 'a', 'd'],
        Field::Checked.text() == seq!['c', 'h', 'e', 'c', 'k', 'e', 'd'],
        Field::Value.text() == seq!['v', 'a', 'l', 'u', 'e'],
        Field::Lang.text() == seq!['l', 'a', 'n', 'g'],
        Field::Meta.text() == seq!['m', 'e', 't', 'a'],
        Field::Stops.text() == seq!['s', 't', 'o', 'p', 's'],
        Field::Title.text() == seq!['t', 'i', 't', 'l', 'e'],
        Field::Alt.text() == seq!['a', 'l', 't'],
        Field::Url.text() == seq!['u', 'r', 'l'],
        Field::Label.text() == seq!['l', 'a', 'b', 'e', 'l'],
        Field::Identifier.text() == seq!['i', 'd', 'e', 'n', 't', 'i', 'f', 'i', 'e', 'r'],
        Field::ReferenceKind.text() == seq![
            'r', 'e', 'f', 'e', 'r', 'e', 'n', 'c', 'e', '_', 'k', 'i', 'n', 'd',
        ],
        Field::Align.text() == seq!['a', 'l', 'i', 'g', 'n'],
        Field::Name.text() == seq!['n', 'a', 'm', 'e'],
        Field::Attributes.text() == seq!['a', 't', 't', 'r', 'i', 'b', 'u', 't', 'e', 's'],
        Field::Children.text() == seq!['c', 'h', 'i', 'l', 'd', 'r', 'e', 'n'],
        Field::Position.text() == seq!['p', 'o', 's', 'i', 't', 'i', 'o', 'n'],
        Field::End.text() == seq!['e', 'n', 'd'],
        Field::Line.text() == seq!['l', 'i', 'n', 'e'],
        Field::Column.text() == seq!['c', 'o', 'l', 'u', 'm', 'n'],
        Field::Offset.text() == seq!['o', 'f', 'f', 's', 'e', 't'],
        Field::Expression.text() == seq!['e', 'x', 'p', 'r', 'e', 's', 's', 'i', 'o', 'n'],
{
    reveal_strlit("type");
    reveal_strlit("depth");
    reveal_strlit("ordered");
    reveal_strlit("start");
    reveal_strlit("spread");
    reveal_strlit("checked");
    reveal_strlit("value");
    reveal_strlit("lang");
    reveal_strlit("meta");
    reveal_strlit("stops");
    reveal_strlit("title");
    reveal_strlit("alt");
    reveal_strlit("url");
    reveal_strlit("label");
    reveal_strlit("identifier");
    reveal_strlit("reference_kind");
    reveal_strlit("align");
    reveal_strlit("name");
    reveal_strlit("attributes");
    reveal_strlit("children");
    reveal_strlit("position");
    reveal_strlit("end");
    reveal_strlit("line");
    reveal_strlit("column");
    reveal_strlit("offset");
    reveal_strlit("expression");
    assert(Field::Type.text() =~= seq!['t', 'y', 'p', 'e']);
    assert(Field::Depth.text() =~= seq!['d', 'e', 'p', 't', 'h']);
    assert(Field::Ordered.text() =~= seq!['o', 'r', 'd', 'e', 'r', 'e', 'd']);
    assert(Field::Start.text() =~= seq!['s', 't', 'a', 'r', 't']);
    assert(Field::Spread.text() =~= seq!['s', 'p', 'r', 'e', 'a', 'd']);
    assert(Field::Checked.text() =~= seq!['c', 'h', 'e', 'c', 'k', 'e', 'd']);
    assert(Field::Value.text() =~= seq!['v', 'a', 'l', 'u', 'e']);
    assert(Field::Lang.text() =~= seq!['l', 'a', 'n', 'g']);
    assert(Field::Meta.text() =~= seq!['m', 'e', 't', 'a']);
    assert(Field::Stops.text() =~= seq!['s', 't', 'o', 'p', 's']);
    assert(Field::Title.text() =~= seq!['t', 'i', 't', 'l', 'e']);
    assert(Field::Alt.text() =~= seq!['a', 'l', 't']);
    assert(Field::Url.text() =~= seq!['u', 'r', 'l']);
    assert(Field::Label.text() =~= seq!['l', 'a', 'b', 'e', 'l']);
    assert(Field::Identifier.text() =~= seq!['i', 'd', 'e', 'n', 't', 'i', 'f', 'i', 'e', 'r']);
    assert(Field::ReferenceKind.text() =~= seq![
        'r', 'e', 'f', 'e', 'r', 'e', 'n', 'c', 'e', '_', 'k', 'i', 'n', 'd',
    ]);
    assert(Field::Align.text() =~= seq!['a', 'l', 'i', 'g', 'n']);
    assert(Field::Name.text() =~= seq!['n', 'a', 'm', 'e']);
    assert(Field::Attributes.text() =~= seq!['a', 't', 't', 'r', 'i', 'b', 'u', 't', 'e', 's']);
    assert(Field::Children.text() =~= seq!['c', 'h', 'i', 'l', 'd', 'r', 'e', 'n']);
    assert(Field::Position.text() =~= seq!['p', 'o', 's', 'i', 't', 'i', 'o', 'n']);
    assert(Field::End.text() =~= seq!['e', 'n', 'd']);
    assert(Field::Line.text() =~= seq!['l', 'i', 'n', 'e']);
    assert(Field::Column.text() =~= seq!['c', 'o', 'l', 'u', 'm', 'n']);
    assert(Field::Offset.text() =~= seq!['o', 'f', 'f', 's', 'e', 't']);
    assert(Field::Expression.text() =~= seq!['e', 'x', 'p', 'r', 'e', 's', 's', 'i', 'o', 'n']);
}

/// Two different keys are two different texts.
pub proof fn lemma_field_text_injective(a: Field, b: Field)
    requires
        a != b,
    ensures
        a.text() != b.text(),
{
    lemma_field_texts();
    let s = a.text();
    let t = b.text();
    assert(s.len() != t.len() || s[0] != t[0] || s[1] != t[1] || s[2] != t[2]);
}

} // verus!
