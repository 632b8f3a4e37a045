//! Where a node stands in the source text.

use vstd::prelude::*;
use crate::field::Field;
use crate::json::Json;
use crate::object::{fields_of, object, object_from};
use crate::value::{json_of, number_value};

verus! {

/// One place in the source text.
#[derive(Clone, Copy, Debug, PartialEq, Eq, Structural)]
pub struct Point {
    /// The line, counted from 1.
    pub line: usize,
    /// The column, counted from 1.
    pub column: usize,
    /// The offset from the start of the text, counted from 0.
    pub offset: usize,
}

/// The span of source text that a node was read from.
#[derive(Clone, Copy, Debug, PartialEq, Eq, Structural)]
pub struct Position {
    /// Where the span begins.
    pub start: Point,
    /// Where the span ends.
    pub end: Point,
}

impl Point {
    /// Lines and columns are counted from 1.
    pub open spec fn well_formed(self) -> bool {
        self.line >= 1 && self.column >= 1
    }

    /// The entries written for a point: line, column and offset, in this
    /// order.
    pub open spec fn fields(self) -> Seq<(Field, Json)> {
        seq![
            (Field::Line, Json::Number(self.line as int)),
            (Field::Column, Json::Number(self.column as int)),
            (Field::Offset, Json::Number(self.offset as int)),
        ]
    }

    /// The object written for a point.
    pub open spec fn json(self) -> Json {
        object(self.fields())
    }

    /// Whether lines and columns are counted from 1.
    pub fn is_well_formed(&self) -> (ok: bool)
        ensures
            ok == self.well_formed(),
    {
        self.line >= 1 && self.column >= 1
    }

    /// Writes the point as an object.
    pub fn to_json(&self) -> (value: serde_json::Value)
        ensures
            json_of(value) == self.json(),
    {
        let mut entries: Vec<(Field, serde_json::Value)> = Vec::new();
        entries.push((Field::Line, number_value(self.line as u64)));
        entries.push((Field::Column, number_value(self.column as u64)));
        entries.push((Field::Offset, number_value(self.offset as u64)));
        assert(fields_of(entries@) =~= self.fields());
        object_from(entries)
    }
}

impl Position {
    /// Both points are well formed and the span does not end before it
    /// begins.
    pub open spec fn well_formed(self) -> bool {
        &&& self.start.well_formed()
        &&& self.end.well_formed()
        &&& self.start.offset <= self.end.offset
    }

    /// The entries written for a span: its first point, then its last.
    pub open spec fn fields(self) -> Seq<(Field, Json)> {
        seq![(Field::Start, self.start.json()), (Field::End, self.end.json())]
    }

    /// The object written for a span.
    pub open spec fn json(self) -> Json {
        object(self.fields())
    }

    /// Whether both points are well formed and the span does not end before
    /// it begins.
    pub fn is_well_formed(&self) -> (ok: bool)
        ensures
            ok == self.well_formed(),
    {
        self.start.is_well_formed() && self.end.is_well_formed() && self.start.offset
            <= self.end.offset
    }

    /// Writes the span as an object.
    pub fn to_json(&self) -> (value: serde_json::Value)
        ensures
            json_of(value) == self.json(),
    {
        let mut entries: Vec<(Field, serde_json::Value)> = Vec::new();
        entries.push((Field::Start, self.start.to_json()));
        entries.push((Field::End, self.end.to_json()));
        assert(fields_of(entries@) =~= self.fields());
        object_from(entries)
    }
}

} // verus!
