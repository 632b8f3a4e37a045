//! The two enumerations that nodes carry: how a reference was written, and
//! how a table column is aligned.

use vstd::prelude::*;
use crate::json::Json;
use crate::value::{array_value, json_of, jsons_of, text_value};

verus! {

/// How a link or image reference was written.
#[derive(Clone, Copy, Debug, PartialEq, Eq, Structural)]
pub enum ReferenceKind {
    /// `[text][label]`: the label is written out.
    Full,
    /// `[text][]`: empty brackets follow the text.
    Collapsed,
    /// `[text]`: the label is the text itself, no brackets follow.
    Shortcut,
}

/// How the cells of a table column are aligned.
#[derive(Clone, Copy, Debug, PartialEq, Eq, Structural)]
pub enum AlignKind {
    /// `:--`
    Left,
    /// `:-:`
    Center,
    /// `--:`
    Right,
    /// `---`: no alignment is asked for.
    Unset,
}

impl ReferenceKind {
    /// The tag that stands for this kind in the JSON text.
    pub open spec fn text(self) -> Seq<char> {
        match self {
            ReferenceKind::Full => "Full"@,
            ReferenceKind::Collapsed => "Collapsed"@,
            ReferenceKind::Shortcut => "Shortcut"@,
        }
    }

    /// The JSON string written for this kind.
    pub open spec fn json(self) -> Json {
        Json::Text(self.text())
    }

    /// The tag that stands for this kind in the JSON text.
    pub fn name(self) -> (name: &'static str)
        ensures
            name@ == self.text(),
    {
        match self {
            ReferenceKind::Full => "Full",
            ReferenceKind::Collapsed => "Collapsed",
            ReferenceKind::Shortcut => "Shortcut",
        }
    }

    /// Writes the kind as a JSON string.
    pub fn to_json(self) -> (value: serde_json::Value)
        ensures
            json_of(value) == self.json(),
    {
        text_value(self.name().to_owned())
    }
}

impl AlignKind {
    /// The tag that stands for this alignment in the JSON text.
    pub open spec fn text(self) -> Seq<char> {
        match self {
            AlignKind::Left => "Left"@,
            AlignKind::Center => "Center"@,
            AlignKind::Right => "Right"@,
            AlignKind::Unset => "None"@,
        }
    }

    /// The JSON string written for this alignment.
    pub open spec fn json(self) -> Json {
        Json::Text(self.text())
    }

    /// The tag that stands for this alignment in the JSON text.
    pub fn name(self) -> (name: &'static str)
        ensures
            name@ == self.text(),
    {
        match self {
            AlignKind::Left => "Left",
            AlignKind::Center => "Center",
            AlignKind::Right => "Right",
            AlignKind::Unset => "None",
        }
    }

    /// Writes the alignment as a JSON string.
    pub fn to_json(self) -> (value: serde_json::Value)
        ensures
            json_of(value) == self.json(),
    {
        text_value(self.name().to_owned())
    }
}

/// The JSON array written for the alignments of a table's columns: one tag
/// for each column, from left to right.
pub open spec fn aligns_json(aligns: Seq<AlignKind>) -> Json {
    Json::Array(Seq::new(aligns.len(), |i: int| aligns[i].json()))
}

/// Writes the alignments of a table's columns as a JSON array.
pub fn aligns_to_json(aligns: &Vec<AlignKind>) -> (value: serde_json::Value)
    ensures
        json_of(value) == aligns_json(aligns@),
{
    let mut items: Vec<serde_json::Value> = Vec::new();
    let mut i: usize = 0;
    while i < aligns.len()
        invariant
            i <= aligns.len(),
            items@.len() == i,
            forall|k: int| 0 <= k < i ==> json_of(#[trigger] items@[k]) == aligns@[k].json(),
        decreases aligns.len() - i,
    {
        items.push(aligns[i].to_json());
        i += 1;
    }
    assert(jsons_of(items@) =~= Seq::new(aligns@.len(), |i: int| aligns@[i].json()));
    array_value(items)
}

/// Two different reference kinds are written as two different tags.
pub proof fn lemma_reference_kind_text_injective(a: ReferenceKind, b: ReferenceKind)
    requires
        a != b,
    ensures
        a.text() != b.text(),
{
    reveal_strlit("Full");
    reveal_strlit("Collapsed");
    reveal_strlit("Shortcut");
    assert(a.text().len() != b.text().len());
}

/// Two different alignments are written as two different tags.
pub proof fn lemma_align_kind_text_injective(a: AlignKind, b: AlignKind)
    requires
        a != b,
    ensures
        a.text() != b.text(),
{
    reveal_strlit("Left");
    reveal_strlit("Center");
    reveal_strlit("Right");
    reveal_strlit("None");
    assert(a.text().len() != b.text().len() || a.text()[0] != b.text()[0]);
}

} // verus!
