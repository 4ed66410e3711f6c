//! Reconstructing a tree value from an emitted expression.
//!
//! These functions perform, at run time, exactly the evaluation that
//! `eval_text` and its companions state: they accept an expression of the
//! shape the emitter produces and build the tree node it denotes, owning all
//! of its data, or return nothing for any other expression.

use vstd::prelude::*;

use crate::eval::{
    eval_alignment, eval_composite, eval_compound, eval_line, eval_seq, eval_style,
    eval_table_row, eval_table_rule, eval_text,
};
use crate::expr::{Expr, ExprV, FieldName, VocabItem};
use crate::tree::{Alignment, Composite, CompositeStyle, Compound, Line, TableRow, TableRule, Text};

verus! {

/// Build the alignment an expression denotes.
pub fn alignment_of(e: &Expr) -> (r: Option<Alignment>)
    ensures
        match r {
            Some(a) => eval_alignment(e@) == Some(a),
            None => eval_alignment(e@) is None,
        },
{
    match e {
        Expr::Unit(_, VocabItem::AlignUnspecified) => Some(Alignment::Unspecified),
        Expr::Unit(_, VocabItem::AlignLeft) => Some(Alignment::Left),
        Expr::Unit(_, VocabItem::AlignCenter) => Some(Alignment::Center),
        Expr::Unit(_, VocabItem::AlignRight) => Some(Alignment::Right),
        _ => None,
    }
}

/// Build the composite style an expression denotes.
pub fn style_of(e: &Expr) -> (r: Option<CompositeStyle>)
    ensures
        match r {
            Some(s) => eval_style(e@) == Some(s),
            None => eval_style(e@) is None,
        },
{
    proof {
        reveal_with_fuel(crate::expr::expr_view, 2);
    }
    match e {
        Expr::Unit(_, VocabItem::StyleParagraph) => Some(CompositeStyle::Paragraph),
        Expr::Unit(_, VocabItem::StyleCode) => Some(CompositeStyle::Code),
        Expr::Unit(_, VocabItem::StyleQuote) => Some(CompositeStyle::Quote),
        Expr::Call(_, VocabItem::StyleHeader, arg) => match &**arg {
            Expr::ByteLit(level) => Some(CompositeStyle::Header(*level)),
            _ => None,
        },
        Expr::Call(_, VocabItem::StyleListItem, arg) => match &**arg {
            Expr::ByteLit(depth) => Some(CompositeStyle::ListItem(*depth)),
            _ => None,
        },
        _ => None,
    }
}

/// Build the compound an expression denotes, its text owned by the result.
pub fn compound_of(e: &Expr) -> (r: Option<Compound>)
    ensures
        match r {
            Some(c) => eval_compound(e@) == Some(c@),
            None => eval_compound(e@) is None,
        },
{
    proof {
        reveal_with_fuel(crate::expr::expr_view, 3);
    }
    match e {
        Expr::Fields(_, VocabItem::CompoundTy, fs) => {
            if fs.len() != 5 {
                return None;
            }
            let src = match (&fs[0].name, &fs[0].value) {
                (FieldName::Src, Expr::StrLit(s)) => s.clone(),
                _ => {
                    return None;
                },
            };
            let bold = match (&fs[1].name, &fs[1].value) {
                (FieldName::Bold, Expr::BoolLit(b)) => *b,
                _ => {
                    return None;
                },
            };
            let italic = match (&fs[2].name, &fs[2].value) {
                (FieldName::Italic, Expr::BoolLit(b)) => *b,
                _ => {
                    return None;
                },
            };
            let code = match (&fs[3].name, &fs[3].value) {
                (FieldName::Code, Expr::BoolLit(b)) => *b,
                _ => {
                    return None;
                },
            };
            let strikeout = match (&fs[4].name, &fs[4].value) {
                (FieldName::Strikeout, Expr::BoolLit(b)) => *b,
                _ => {
                    return None;
                },
            };
            let c = Compound { src, bold, italic, code, strikeout };
            proof {
                assert(eval_compound(e@).unwrap() =~= c@);
            }
            Some(c)
        },
        _ => None,
    }
}

/// Build the composite an expression denotes, its compounds in order.
#[verifier::loop_isolation(false)]
pub fn composite_of(e: &Expr) -> (r: Option<Composite>)
    ensures
        match r {
            Some(c) => eval_composite(e@) == Some(c@),
            None => eval_composite(e@) is None,
        },
{
    proof {
        reveal_with_fuel(crate::expr::expr_view, 3);
    }
    match e {
        Expr::Fields(_, VocabItem::CompositeTy, fs) => {
            if fs.len() != 2 {
                return None;
            }
            let style = match &fs[0].name {
                FieldName::Style => match style_of(&fs[0].value) {
                    Some(st) => st,
                    None => {
                        return None;
                    },
                },
                _ => {
                    return None;
                },
            };
            let es = match (&fs[1].name, &fs[1].value) {
                (FieldName::Compounds, Expr::List(es)) => es,
                _ => {
                    return None;
                },
            };
            let ghost esv = e@->Fields_2[1].value->List_0;
            let ghost f = |x: ExprV| eval_compound(x);
            let mut compounds: Vec<Compound> = Vec::new();
            let mut i: usize = 0;
            while i < es.len()
                invariant
                    i <= es.len(),
                    compounds@.len() == i,
                    esv.len() == es@.len(),
                    forall|k: int| 0 <= k < es@.len() ==> #[trigger] esv[k] == es@[k]@,
                    forall|k: int|
                        0 <= k < i ==> f(#[trigger] esv[k]) == Some(compounds@[k]@),
                decreases es.len() - i,
            {
                match compound_of(&es[i]) {
                    Some(c) => compounds.push(c),
                    None => {
                        proof {
                            assert(f(esv[i as int]) is None);
                            assert(eval_seq(esv, f) is None);
                        }
                        return None;
                    },
                }
                i = i + 1;
            }
            let c = Composite { style, compounds };
            proof {
                assert forall|k: int| 0 <= k < esv.len() implies (#[trigger] f(esv[k])) is Some by {
                }
                assert(eval_seq(esv, f).unwrap() =~= c@.compounds);
                assert(eval_composite(e@).unwrap() =~= c@);
            }
            Some(c)
        },
        _ => None,
    }
}

/// Build the table row an expression denotes, its cells in order.
#[verifier::loop_isolation(false)]
pub fn table_row_of(e: &Expr) -> (r: Option<TableRow>)
    ensures
        match r {
            Some(t) => eval_table_row(e@) == Some(t@),
            None => eval_table_row(e@) is None,
        },
{
    proof {
        reveal_with_fuel(crate::expr::expr_view, 3);
    }
    match e {
        Expr::Fields(_, VocabItem::TableRowTy, fs) => {
            if fs.len() != 1 {
                return None;
            }
            let es = match (&fs[0].name, &fs[0].value) {
                (FieldName::Cells, Expr::List(es)) => es,
                _ => {
                    return None;
                },
            };
            let ghost esv = e@->Fields_2[0].value->List_0;
            let ghost f = |x: ExprV| eval_composite(x);
            let mut cells: Vec<Composite> = Vec::new();
            let mut i: usize = 0;
            while i < es.len()
                invariant
                    i <= es.len(),
                    cells@.len() == i,
                    esv.len() == es@.len(),
                    forall|k: int| 0 <= k < es@.len() ==> #[trigger] esv[k] == es@[k]@,
                    forall|k: int| 0 <= k < i ==> f(#[trigger] esv[k]) == Some(cells@[k]@),
                decreases es.len() - i,
            {
                match composite_of(&es[i]) {
                    Some(c) => cells.push(c),
                    None => {
                        proof {
                            assert(f(esv[i as int]) is None);
                            assert(eval_seq(esv, f) is None);
                        }
                        return None;
                    },
                }
                i = i + 1;
            }
            let t = TableRow { cells };
            proof {
                assert forall|k: int| 0 <= k < esv.len() implies (#[trigger] f(esv[k])) is Some by {
                }
                assert(eval_seq(esv, f).unwrap() =~= t@.cells);
                assert(eval_table_row(e@).unwrap() =~= t@);
            }
            Some(t)
        },
        _ => None,
    }
}

/// Build the table rule an expression denotes, its alignments in order.
#[verifier::loop_isolation(false)]
pub fn table_rule_of(e: &Expr) -> (r: Option<TableRule>)
    ensures
        match r {
            Some(t) => eval_table_rule(e@) == Some(t@),
            None => eval_table_rule(e@) is None,
        },
{
    proof {
        reveal_with_fuel(crate::expr::expr_view, 3);
    }
    match e {
        Expr::Fields(_, VocabItem::TableRuleTy, fs) => {
            if fs.len() != 1 {
                return None;
            }
            let es = match (&fs[0].name, &fs[0].value) {
                (FieldName::Cells, Expr::List(es)) => es,
                _ => {
                    return None;
                },
            };
            let ghost esv = e@->Fields_2[0].value->List_0;
            let ghost f = |x: ExprV| eval_alignment(x);
            let mut cells: Vec<Alignment> = Vec::new();
            let mut i: usize = 0;
            while i < es.len()
                invariant
                    i <= es.len(),
                    cells@.len() == i,
                    esv.len() == es@.len(),
                    forall|k: int| 0 <= k < es@.len() ==> #[trigger] esv[k] == es@[k]@,
                    forall|k: int| 0 <= k < i ==> f(#[trigger] esv[k]) == Some(cells@[k]),
                decreases es.len() - i,
            {
                match alignment_of(&es[i]) {
                    Some(a) => cells.push(a),
                    None => {
                        proof {
                            assert(f(esv[i as int]) is None);
                            assert(eval_seq(esv, f) is None);
                        }
                        return None;
                    },
                }
                i = i + 1;
            }
            let t = TableRule { cells };
            proof {
                assert forall|k: int| 0 <= k < esv.len() implies (#[trigger] f(esv[k])) is Some by {
                }
                assert(eval_seq(esv, f).unwrap() =~= t@.cells);
                assert(eval_table_rule(e@).unwrap() =~= t@);
            }
            Some(t)
        },
        _ => None,
    }
}

/// Build the line an expression denotes.
pub fn line_of(e: &Expr) -> (r: Option<Line>)
    ensures
        match r {
            Some(l) => eval_line(e@) == Some(l@),
            None => eval_line(e@) is None,
        },
{
    proof {
        reveal_with_fuel(crate::expr::expr_view, 2);
    }
    match e {
        Expr::Call(_, VocabItem::LineNormal, arg) => match composite_of(arg) {
            Some(c) => Some(Line::Normal(c)),
            None => None,
        },
        Expr::Call(_, VocabItem::LineTableRow, arg) => match table_row_of(arg) {
            Some(t) => Some(Line::TableRow(t)),
            None => None,
        },
        Expr::Call(_, VocabItem::LineTableRule, arg) => match table_rule_of(arg) {
            Some(t) => Some(Line::TableRule(t)),
            None => None,
        },
        Expr::Unit(_, VocabItem::LineHorizontalRule) => Some(Line::HorizontalRule),
        Expr::Call(_, VocabItem::LineCodeFence, arg) => match composite_of(arg) {
            Some(c) => Some(Line::CodeFence(c)),
            None => None,
        },
        _ => None,
    }
}

/// Build the document an expression denotes, its lines in order.
#[verifier::loop_isolation(false)]
pub fn text_of(e: &Expr) -> (r: Option<Text>)
    ensures
        match r {
            Some(t) => eval_text(e@) == Some(t@),
            None => eval_text(e@) is None,
        },
{
    proof {
        reveal_with_fuel(crate::expr::expr_view, 3);
    }
    match e {
        Expr::Fields(_, VocabItem::TextTy, fs) => {
            if fs.len() != 1 {
                return None;
            }
            let es = match (&fs[0].name, &fs[0].value) {
                (FieldName::Lines, Expr::List(es)) => es,
                _ => {
                    return None;
                },
            };
            let ghost esv = e@->Fields_2[0].value->List_0;
            let ghost f = |x: ExprV| eval_line(x);
            let mut lines: Vec<Line> = Vec::new();
            let mut i: usize = 0;
            while i < es.len()
                invariant
                    i <= es.len(),
                    lines@.len() == i,
                    esv.len() == es@.len(),
                    forall|k: int| 0 <= k < es@.len() ==> #[trigger] esv[k] == es@[k]@,
                    forall|k: int| 0 <= k < i ==> f(#[trigger] esv[k]) == Some(lines@[k]@),
                decreases es.len() - i,
            {
                match line_of(&es[i]) {
                    Some(l) => lines.push(l),
                    None => {
                        proof {
                            assert(f(esv[i as int]) is None);
                            assert(eval_seq(esv, f) is None);
                        }
                        return None;
                    },
                }
                i = i + 1;
            }
            let t = Text { lines };
            proof {
                assert forall|k: int| 0 <= k < esv.len() implies (#[trigger] f(esv[k])) is Some by {
                }
                assert(eval_seq(esv, f).unwrap() =~= t@.lines);
                assert(eval_text(e@).unwrap() =~= t@);
            }
            Some(t)
        },
        _ => None,
    }
}

} // verus!
