//! The document tree vocabulary: the node kinds that the emitter translates.
//!
//! Every node owns its data: text content is an owned `String`, so a value of
//! these types has no tie to the buffer the document was parsed from.

use vstd::prelude::*;

verus! {

/// Column alignment of one table column.
#[derive(Debug, Clone, Copy, PartialEq, Eq)]
pub enum Alignment {
    Unspecified,
    Left,
    Center,
    Right,
}

/// The global style of a composite: which kind of block its compounds form.
#[derive(Debug, Clone, Copy, PartialEq, Eq)]
pub enum CompositeStyle {
    Paragraph,
    Header(u8),
    ListItem(u8),
    Code,
    Quote,
}

/// A leaf run of text with four independent style flags.
#[derive(Debug, Clone, PartialEq, Eq)]
pub struct Compound {
    pub src: String,
    pub bold: bool,
    pub italic: bool,
    pub code: bool,
    pub strikeout: bool,
}

/// One styled block of inline content: a style tag plus its compounds in order.
#[derive(Debug, Clone, PartialEq, Eq)]
pub struct Composite {
    pub style: CompositeStyle,
    pub compounds: Vec<Compound>,
}

/// One table row: its cells in column order.
#[derive(Debug, Clone, PartialEq, Eq)]
pub struct TableRow {
    pub cells: Vec<Composite>,
}

/// A table separator row: one alignment per column, in order.
#[derive(Debug, Clone, PartialEq, Eq)]
pub struct TableRule {
    pub cells: Vec<Alignment>,
}

/// One logical line of the document.
#[derive(Debug, Clone, PartialEq, Eq)]
pub enum Line {
    Normal(Composite),
    TableRow(TableRow),
    TableRule(TableRule),
    HorizontalRule,
    CodeFence(Composite),
}

/// A whole parsed document: its lines in order.
#[derive(Debug, Clone, PartialEq, Eq)]
pub struct Text {
    pub lines: Vec<Line>,
}

/// Mathematical value of a `Compound`: the text as a sequence of characters.
#[verifier::ext_equal]
pub struct CompoundV {
    pub src: Seq<char>,
    pub bold: bool,
    pub italic: bool,
    pub code: bool,
    pub strikeout: bool,
}

/// Mathematical value of a `Composite`.
#[verifier::ext_equal]
pub struct CompositeV {
    pub style: CompositeStyle,
    pub compounds: Seq<CompoundV>,
}

/// Mathematical value of a `TableRow`.
#[verifier::ext_equal]
pub struct TableRowV {
    pub cells: Seq<CompositeV>,
}

/// Mathematical value of a `TableRule`.
#[verifier::ext_equal]
pub struct TableRuleV {
    pub cells: Seq<Alignment>,
}

/// Mathematical value of a `Line`.
#[verifier::ext_equal]
pub enum LineV {
    Normal(CompositeV),
    TableRow(TableRowV),
    TableRule(TableRuleV),
    HorizontalRule,
    CodeFence(CompositeV),
}

/// Mathematical value of a `Text`.
#[verifier::ext_equal]
pub struct TextV {
    pub lines: Seq<LineV>,
}

impl View for Compound {
    type V = CompoundV;

    open spec fn view(&self) -> CompoundV {
        CompoundV {
            src: self.src@,
            bold: self.bold,
            italic: self.italic,
            code: self.code,
            strikeout: self.strikeout,
        }
    }
}

impl View for Composite {
    type V = CompositeV;

    open spec fn view(&self) -> CompositeV {
        CompositeV {
            style: self.style,
            compounds: self.compounds@.map(|i: int, c: Compound| c@),
        }
    }
}

impl View for TableRow {
    type V = TableRowV;

    open spec fn view(&self) -> TableRowV {
        TableRowV { cells: self.cells@.map(|i: int, c: Composite| c@) }
    }
}

impl View for TableRule {
    type V = TableRuleV;

    open spec fn view(&self) -> TableRuleV {
        TableRuleV { cells: self.cells@ }
    }
}

impl View for Line {
    type V = LineV;

    open spec fn view(&self) -> LineV {
        match self {
            Line::Normal(c) => LineV::Normal(c@),
            Line::TableRow(r) => LineV::TableRow(r@),
            Line::TableRule(r) => LineV::TableRule(r@),
            Line::HorizontalRule => LineV::HorizontalRule,
            Line::CodeFence(c) => LineV::CodeFence(c@),
        }
    }
}

impl View for Text {
    type V = TextV;

    open spec fn view(&self) -> TextV {
        TextV { lines: self.lines@.map(|i: int, l: Line| l@) }
    }
}

} // verus!
