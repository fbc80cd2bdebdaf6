//! What a view or a widget hands to the screen painter: a bordered box with an
//! optional title, a style, and a body of styled lines, list items or a table.

use vstd::prelude::*;
use crate::styles::{Span, Style};

verus! {

/// Horizontal placement of paragraph lines.
#[derive(Debug, Clone, Copy, PartialEq, Eq, Structural)]
pub enum Alignment {
    Left,
    Center,
}

/// A table row: its cells and the style of the whole row.
#[derive(Debug, Clone, PartialEq, Eq)]
pub struct Row {
    pub cells: Vec<String>,
    pub style: Style,
}

pub open spec fn cells_model(cells: Seq<String>) -> Seq<Seq<char>> {
    cells.map_values(|c: String| c@)
}

pub open spec fn spans_model(spans: Seq<Span>) -> Seq<(Seq<char>, Style)> {
    spans.map_values(|s: Span| s.model())
}

pub open spec fn rows_model(rows: Seq<Row>) -> Seq<(Seq<Seq<char>>, Style)> {
    rows.map_values(|r: Row| r.model())
}

impl Row {
    pub open spec fn model(&self) -> (Seq<Seq<char>>, Style) {
        (cells_model(self.cells@), self.style)
    }
}

/// The inside of a box.
#[derive(Debug, Clone, PartialEq, Eq)]
pub enum Body {
    Empty,
    Paragraph { lines: Vec<Span>, alignment: Alignment, wrap: bool },
    List { items: Vec<Span> },
    Table { header: Row, rows: Vec<Row>, widths: Vec<u16> },
}

pub enum BodyModel {
    Empty,
    Paragraph { lines: Seq<(Seq<char>, Style)>, alignment: Alignment, wrap: bool },
    List { items: Seq<(Seq<char>, Style)> },
    Table {
        header: (Seq<Seq<char>>, Style),
        rows: Seq<(Seq<Seq<char>>, Style)>,
        widths: Seq<u16>,
    },
}

impl Body {
    pub open spec fn model(&self) -> BodyModel {
        match self {
            Body::Empty => BodyModel::Empty,
            Body::Paragraph { lines, alignment, wrap } => BodyModel::Paragraph {
                lines: spans_model(lines@),
                alignment: *alignment,
                wrap: *wrap,
            },
            Body::List { items } => BodyModel::List { items: spans_model(items@) },
            Body::Table { header, rows, widths } => BodyModel::Table {
                header: header.model(),
                rows: rows_model(rows@),
                widths: widths@,
            },
        }
    }
}

/// A bordered box.
#[derive(Debug, Clone, PartialEq, Eq)]
pub struct Pane {
    pub title: Option<String>,
    pub block_style: Style,
    pub body: Body,
}

pub struct PaneModel {
    pub title: Option<Seq<char>>,
    pub block_style: Style,
    pub body: BodyModel,
}

pub open spec fn title_model(t: Option<String>) -> Option<Seq<char>> {
    match t {
        Some(s) => Some(s@),
        None => None,
    }
}

impl Pane {
    pub open spec fn model(&self) -> PaneModel {
        PaneModel {
            title: title_model(self.title),
            block_style: self.block_style,
            body: self.body.model(),
        }
    }
}

} // verus!
