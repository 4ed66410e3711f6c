//! The serializer: one emission rule per node kind of the vocabulary.
//!
//! Each rule maps a node to the construction expression that rebuilds it:
//! sequence-bearing nodes become element lists in source order, tagged
//! variants with a payload become constructor calls, tagged variants without
//! a payload become bare references, struct-shaped nodes name every field.
//! The spec functions state the exact expression; the `Emitter` methods are
//! proved to return it.

use vstd::prelude::*;

use crate::expr::{Expr, ExprV, Field, FieldName, FieldV, Root, VocabItem};
use crate::tree::{
    Alignment, Composite, CompositeStyle, CompositeV, Compound, CompoundV, Line, LineV, TableRow,
    TableRowV, TableRule, TableRuleV, Text, TextV,
};

verus! {

/// The emission rule for an `Alignment`: a bare variant reference.
pub open spec fn emit_alignment(root: Root, a: Alignment) -> ExprV {
    match a {
        Alignment::Unspecified => ExprV::Unit(root, VocabItem::AlignUnspecified),
        Alignment::Left => ExprV::Unit(root, VocabItem::AlignLeft),
        Alignment::Center => ExprV::Unit(root, VocabItem::AlignCenter),
        Alignment::Right => ExprV::Unit(root, VocabItem::AlignRight),
    }
}

/// The emission rule for a `CompositeStyle`: payload-free variants are bare
/// references, integer payloads are emitted as literals of the same value.
pub open spec fn emit_style(root: Root, s: CompositeStyle) -> ExprV {
    match s {
        CompositeStyle::Paragraph => ExprV::Unit(root, VocabItem::StyleParagraph),
        CompositeStyle::Header(level) => ExprV::Call(
            root,
            VocabItem::StyleHeader,
            Box::new(ExprV::ByteLit(level)),
        ),
        CompositeStyle::ListItem(depth) => ExprV::Call(
            root,
            VocabItem::StyleListItem,
            Box::new(ExprV::ByteLit(depth)),
        ),
        CompositeStyle::Code => ExprV::Unit(root, VocabItem::StyleCode),
        CompositeStyle::Quote => ExprV::Unit(root, VocabItem::StyleQuote),
    }
}

/// The emission rule for a `Compound`: every field named explicitly, the text
/// as a self-contained string literal, the flags as boolean literals.
pub open spec fn emit_compound(root: Root, c: CompoundV) -> ExprV {
    ExprV::Fields(
        root,
        VocabItem::CompoundTy,
        seq![
            FieldV { name: FieldName::Src, value: ExprV::StrLit(c.src) },
            FieldV { name: FieldName::Bold, value: ExprV::BoolLit(c.bold) },
            FieldV { name: FieldName::Italic, value: ExprV::BoolLit(c.italic) },
            FieldV { name: FieldName::Code, value: ExprV::BoolLit(c.code) },
            FieldV { name: FieldName::Strikeout, value: ExprV::BoolLit(c.strikeout) },
        ],
    )
}

/// The emission rule for a `Composite`: its style, then its compounds as a
/// list whose elements are the compounds' emissions in source order.
pub open spec fn emit_composite(root: Root, c: CompositeV) -> ExprV {
    ExprV::Fields(
        root,
        VocabItem::CompositeTy,
        seq![
            FieldV { name: FieldName::Style, value: emit_style(root, c.style) },
            FieldV {
                name: FieldName::Compounds,
                value: ExprV::List(c.compounds.map(|i: int, x: CompoundV| emit_compound(root, x))),
            },
        ],
    )
}

/// The emission rule for a `TableRow`: its cells' emissions in column order.
pub open spec fn emit_table_row(root: Root, r: TableRowV) -> ExprV {
    ExprV::Fields(
        root,
        VocabItem::TableRowTy,
        seq![
            FieldV {
                name: FieldName::Cells,
                value: ExprV::List(r.cells.map(|i: int, x: CompositeV| emit_composite(root, x))),
            },
        ],
    )
}

/// The emission rule for a `TableRule`: its alignments in column order.
pub open spec fn emit_table_rule(root: Root, r: TableRuleV) -> ExprV {
    ExprV::Fields(
        root,
        VocabItem::TableRuleTy,
        seq![
            FieldV {
                name: FieldName::Cells,
                value: ExprV::List(r.cells.map(|i: int, x: Alignment| emit_alignment(root, x))),
            },
        ],
    )
}

/// The emission rule for a `Line`: payload-bearing variants become calls of
/// the variant constructor on the payload's emission; `HorizontalRule` is a
/// bare reference with no call syntax.
pub open spec fn emit_line(root: Root, l: LineV) -> ExprV {
    match l {
        LineV::Normal(c) => ExprV::Call(
            root,
            VocabItem::LineNormal,
            Box::new(emit_composite(root, c)),
        ),
        LineV::TableRow(r) => ExprV::Call(
            root,
            VocabItem::LineTableRow,
            Box::new(emit_table_row(root, r)),
        ),
        LineV::TableRule(r) => ExprV::Call(
            root,
            VocabItem::LineTableRule,
            Box::new(emit_table_rule(root, r)),
        ),
        LineV::HorizontalRule => ExprV::Unit(root, VocabItem::LineHorizontalRule),
        LineV::CodeFence(c) => ExprV::Call(
            root,
            VocabItem::LineCodeFence,
            Box::new(emit_composite(root, c)),
        ),
    }
}

/// The emission rule for a whole `Text`: its lines' emissions in order.
pub open spec fn emit_text(root: Root, t: TextV) -> ExprV {
    ExprV::Fields(
        root,
        VocabItem::TextTy,
        seq![
            FieldV {
                name: FieldName::Lines,
                value: ExprV::List(t.lines.map(|i: int, x: LineV| emit_line(root, x))),
            },
        ],
    )
}

/// The serializer. It holds the one piece of configuration, the
/// qualification root, chosen once before emission begins; every method
/// emits the construction expression for one node kind under that root.
#[derive(Debug, Clone, Copy, PartialEq, Eq, Structural)]
pub struct Emitter {
    pub root: Root,
}

impl Emitter {
    /// An emitter whose every emitted path is qualified from `root`.
    pub fn new(root: Root) -> (e: Emitter)
        ensures
            e.root == root,
    {
        Emitter { root }
    }

    /// Emit the expression that reconstructs an alignment.
    pub fn alignment_expr(&self, a: &Alignment) -> (r: Expr)
        ensures
            r@ == emit_alignment(self.root, *a),
    {
        match a {
            Alignment::Unspecified => Expr::Unit(self.root, VocabItem::AlignUnspecified),
            Alignment::Left => Expr::Unit(self.root, VocabItem::AlignLeft),
            Alignment::Center => Expr::Unit(self.root, VocabItem::AlignCenter),
            Alignment::Right => Expr::Unit(self.root, VocabItem::AlignRight),
        }
    }

    /// Emit the expression that reconstructs a composite style.
    pub fn style_expr(&self, s: &CompositeStyle) -> (r: Expr)
        ensures
            r@ == emit_style(self.root, *s),
    {
        proof {
            reveal_with_fuel(crate::expr::expr_view, 2);
        }
        match s {
            CompositeStyle::Paragraph => Expr::Unit(self.root, VocabItem::StyleParagraph),
            CompositeStyle::Header(level) => Expr::Call(
                self.root,
                VocabItem::StyleHeader,
                Box::new(Expr::ByteLit(*level)),
            ),
            CompositeStyle::ListItem(depth) => Expr::Call(
                self.root,
                VocabItem::StyleListItem,
                Box::new(Expr::ByteLit(*depth)),
            ),
            CompositeStyle::Code => Expr::Unit(self.root, VocabItem::StyleCode),
            CompositeStyle::Quote => Expr::Unit(self.root, VocabItem::StyleQuote),
        }
    }

    /// Emit the expression that reconstructs a compound, its text embedded
    /// as an owned string literal.
    pub fn compound_expr(&self, c: &Compound) -> (r: Expr)
        ensures
            r@ == emit_compound(self.root, c@),
    {
        let mut fields: Vec<Field> = Vec::new();
        fields.push(Field { name: FieldName::Src, value: Expr::StrLit(c.src.clone()) });
        fields.push(Field { name: FieldName::Bold, value: Expr::BoolLit(c.bold) });
        fields.push(Field { name: FieldName::Italic, value: Expr::BoolLit(c.italic) });
        fields.push(Field { name: FieldName::Code, value: Expr::BoolLit(c.code) });
        fields.push(Field { name: FieldName::Strikeout, value: Expr::BoolLit(c.strikeout) });
        let r = Expr::Fields(self.root, VocabItem::CompoundTy, fields);
        proof {
            reveal_with_fuel(crate::expr::expr_view, 3);
            assert(r@->Fields_2 =~= emit_compound(self.root, c@)->Fields_2);
            assert(r@ == emit_compound(self.root, c@));
        }
        r
    }

    /// Emit the expression that reconstructs a composite, its compounds in
    /// source order.
    pub fn composite_expr(&self, c: &Composite) -> (r: Expr)
        ensures
            r@ == emit_composite(self.root, c@),
    {
        let style = self.style_expr(&c.style);
        let mut elems: Vec<Expr> = Vec::new();
        let mut i: usize = 0;
        while i < c.compounds.len()
            invariant
                i <= c.compounds.len(),
                elems@.len() == i,
                forall|j: int|
                    0 <= j < i ==> #[trigger] elems@[j]@ == emit_compound(
                        self.root,
                        c.compounds@[j]@,
                    ),
            decreases c.compounds.len() - i,
        {
            let e = self.compound_expr(&c.compounds[i]);
            elems.push(e);
            i = i + 1;
        }
        let mut fields: Vec<Field> = Vec::new();
        fields.push(Field { name: FieldName::Style, value: style });
        fields.push(Field { name: FieldName::Compounds, value: Expr::List(elems) });
        let r = Expr::Fields(self.root, VocabItem::CompositeTy, fields);
        proof {
            assert forall|j: int| 0 <= j < elems@.len() implies #[trigger] crate::expr::expr_view(
                elems@[j],
            ) == emit_compound(self.root, c.compounds@[j]@) by {
                assert(elems@[j]@ == emit_compound(self.root, c.compounds@[j]@));
            }
            reveal_with_fuel(crate::expr::expr_view, 3);
            let ghost lhs = r@;
            let ghost rhs = emit_composite(self.root, c@);
            assert(lhs->Fields_2[1].value->List_0.len() == elems@.len());
            assert(rhs->Fields_2[1].value->List_0.len() == c.compounds@.len());
            assert(elems@.len() == c.compounds@.len());
            assert forall|j: int| 0 <= j < elems@.len() implies lhs->Fields_2[1].value->List_0[j]
                == rhs->Fields_2[1].value->List_0[j] by {
                assert(lhs->Fields_2[1].value->List_0[j] == crate::expr::expr_view(elems@[j]));
                assert(rhs->Fields_2[1].value->List_0[j] == emit_compound(self.root, c@.compounds[j]));
                assert(c@.compounds[j] == c.compounds@[j]@);
            }
            assert(lhs->Fields_2[1].value->List_0 =~= rhs->Fields_2[1].value->List_0);
            assert(lhs->Fields_2[1].value == rhs->Fields_2[1].value);
            assert(lhs->Fields_2 =~= rhs->Fields_2);
            assert(lhs == rhs);
        }
        r
    }

    /// Emit the expression that reconstructs a table row, its cells in
    /// column order.
    pub fn table_row_expr(&self, row: &TableRow) -> (r: Expr)
        ensures
            r@ == emit_table_row(self.root, row@),
    {
        let mut elems: Vec<Expr> = Vec::new();
        let mut i: usize = 0;
        while i < row.cells.len()
            invariant
                i <= row.cells.len(),
                elems@.len() == i,
                forall|j: int|
                    0 <= j < i ==> #[trigger] elems@[j]@ == emit_composite(
                        self.root,
                        row.cells@[j]@,
                    ),
            decreases row.cells.len() - i,
        {
            let e = self.composite_expr(&row.cells[i]);
            elems.push(e);
            i = i + 1;
        }
        let mut fields: Vec<Field> = Vec::new();
        fields.push(Field { name: FieldName::Cells, value: Expr::List(elems) });
        let r = Expr::Fields(self.root, VocabItem::TableRowTy, fields);
        proof {
            assert forall|j: int| 0 <= j < elems@.len() implies #[trigger] crate::expr::expr_view(
                elems@[j],
            ) == emit_composite(self.root, row.cells@[j]@) by {
                assert(elems@[j]@ == emit_composite(self.root, row.cells@[j]@));
            }
            reveal_with_fuel(crate::expr::expr_view, 3);
            let ghost lhs = r@;
            let ghost rhs = emit_table_row(self.root, row@);
            assert(lhs->Fields_2[0].value->List_0.len() == elems@.len());
            assert(elems@.len() == row.cells@.len());
            assert forall|j: int| 0 <= j < elems@.len() implies lhs->Fields_2[0].value->List_0[j]
                == rhs->Fields_2[0].value->List_0[j] by {
                assert(lhs->Fields_2[0].value->List_0[j] == crate::expr::expr_view(elems@[j]));
                assert(rhs->Fields_2[0].value->List_0[j] == emit_composite(self.root, row@.cells[j]));
            }
            assert(lhs->Fields_2[0].value->List_0 =~= rhs->Fields_2[0].value->List_0);
            assert(lhs->Fields_2[0].value == rhs->Fields_2[0].value);
            assert(lhs->Fields_2 =~= rhs->Fields_2);
            assert(lhs == rhs);
        }
        r
    }

    /// Emit the expression that reconstructs a table rule, its alignments in
    /// column order.
    pub fn table_rule_expr(&self, rule: &TableRule) -> (r: Expr)
        ensures
            r@ == emit_table_rule(self.root, rule@),
    {
        let mut elems: Vec<Expr> = Vec::new();
        let mut i: usize = 0;
        while i < rule.cells.len()
            invariant
                i <= rule.cells.len(),
                elems@.len() == i,
                forall|j: int|
                    0 <= j < i ==> #[trigger] elems@[j]@ == emit_alignment(
                        self.root,
                        rule.cells@[j],
                    ),
            decreases rule.cells.len() - i,
        {
            let e = self.alignment_expr(&rule.cells[i]);
            elems.push(e);
            i = i + 1;
        }
        let mut fields: Vec<Field> = Vec::new();
        fields.push(Field { name: FieldName::Cells, value: Expr::List(elems) });
        let r = Expr::Fields(self.root, VocabItem::TableRuleTy, fields);
        proof {
            assert forall|j: int| 0 <= j < elems@.len() implies #[trigger] crate::expr::expr_view(
                elems@[j],
            ) == emit_alignment(self.root, rule.cells@[j]) by {
                assert(elems@[j]@ == emit_alignment(self.root, rule.cells@[j]));
            }
            reveal_with_fuel(crate::expr::expr_view, 3);
            let ghost lhs = r@;
            let ghost rhs = emit_table_rule(self.root, rule@);
            assert(lhs->Fields_2[0].value->List_0.len() == elems@.len());
            assert(elems@.len() == rule.cells@.len());
            assert forall|j: int| 0 <= j < elems@.len() implies lhs->Fields_2[0].value->List_0[j]
                == rhs->Fields_2[0].value->List_0[j] by {
                assert(lhs->Fields_2[0].value->List_0[j] == crate::expr::expr_view(elems@[j]));
                assert(rhs->Fields_2[0].value->List_0[j] == emit_alignment(self.root, rule@.cells[j]));
            }
            assert(lhs->Fields_2[0].value->List_0 =~= rhs->Fields_2[0].value->List_0);
            assert(lhs->Fields_2[0].value == rhs->Fields_2[0].value);
            assert(lhs->Fields_2 =~= rhs->Fields_2);
            assert(lhs == rhs);
        }
        r
    }

    /// Emit the expression that reconstructs one line.
    pub fn line_expr(&self, l: &Line) -> (r: Expr)
        ensures
            r@ == emit_line(self.root, l@),
    {
        match l {
            Line::Normal(c) => Expr::Call(
                self.root,
                VocabItem::LineNormal,
                Box::new(self.composite_expr(c)),
            ),
            Line::TableRow(row) => Expr::Call(
                self.root,
                VocabItem::LineTableRow,
                Box::new(self.table_row_expr(row)),
            ),
            Line::TableRule(rule) => Expr::Call(
                self.root,
                VocabItem::LineTableRule,
                Box::new(self.table_rule_expr(rule)),
            ),
            Line::HorizontalRule => Expr::Unit(self.root, VocabItem::LineHorizontalRule),
            Line::CodeFence(c) => Expr::Call(
                self.root,
                VocabItem::LineCodeFence,
                Box::new(self.composite_expr(c)),
            ),
        }
    }

    /// Emit the expression that reconstructs a whole document, its lines in
    /// source order.
    pub fn text_expr(&self, t: &Text) -> (r: Expr)
        ensures
            r@ == emit_text(self.root, t@),
    {
        let mut elems: Vec<Expr> = Vec::new();
        let mut i: usize = 0;
        while i < t.lines.len()
            invariant
                i <= t.lines.len(),
                elems@.len() == i,
                forall|j: int|
                    0 <= j < i ==> #[trigger] elems@[j]@ == emit_line(self.root, t.lines@[j]@),
            decreases t.lines.len() - i,
        {
            let e = self.line_expr(&t.lines[i]);
            elems.push(e);
            i = i + 1;
        }
        let mut fields: Vec<Field> = Vec::new();
        fields.push(Field { name: FieldName::Lines, value: Expr::List(elems) });
        let r = Expr::Fields(self.root, VocabItem::TextTy, fields);
        proof {
            assert forall|j: int| 0 <= j < elems@.len() implies #[trigger] crate::expr::expr_view(
                elems@[j],
            ) == emit_line(self.root, t.lines@[j]@) by {
                assert(elems@[j]@ == emit_line(self.root, t.lines@[j]@));
            }
            reveal_with_fuel(crate::expr::expr_view, 3);
            let ghost lhs = r@;
            let ghost rhs = emit_text(self.root, t@);
            assert(lhs->Fields_2[0].value->List_0.len() == elems@.len());
            assert(elems@.len() == t.lines@.len());
            assert forall|j: int| 0 <= j < elems@.len() implies lhs->Fields_2[0].value->List_0[j]
                == rhs->Fields_2[0].value->List_0[j] by {
                assert(lhs->Fields_2[0].value->List_0[j] == crate::expr::expr_view(elems@[j]));
                assert(rhs->Fields_2[0].value->List_0[j] == emit_line(self.root, t@.lines[j]));
            }
            assert(lhs->Fields_2[0].value->List_0 =~= rhs->Fields_2[0].value->List_0);
            assert(lhs->Fields_2[0].value == rhs->Fields_2[0].value);
            assert(lhs->Fields_2 =~= rhs->Fields_2);
            assert(lhs == rhs);
        }
        r
    }
}

} // verus!

