//! The meaning of an emitted expression, and the laws of the serializer.
//!
//! `eval_text` and its companions give the value an emitted expression
//! constructs when compiled: the unique tree node of the expected kind, or
//! nothing if the expression does not have the shape the emitter produces.
//! On top of them stand the serializer's laws: evaluating an emission gives
//! back the original node (round trip), emission keeps sequence order,
//! every path in an emission carries the configured qualification root, and
//! emission is deterministic.

use vstd::prelude::*;

use crate::emit::{
    emit_alignment, emit_composite, emit_compound, emit_line, emit_style, emit_table_row,
    emit_table_rule, emit_text,
};
use crate::expr::{ExprV, FieldName, Root, VocabItem, roots_consistent};
use crate::tree::{
    Alignment, CompositeStyle, CompositeV, CompoundV, LineV, TableRowV, TableRuleV, TextV,
};

verus! {

/// Evaluate every element of `es` with `f`; the whole list evaluates only if
/// every element does, to the elements' values in unchanged order.
pub open spec fn eval_seq<T>(es: Seq<ExprV>, f: spec_fn(ExprV) -> Option<T>) -> Option<Seq<T>> {
    if forall|i: int| 0 <= i < es.len() ==> (#[trigger] f(es[i])) is Some {
        Some(Seq::new(es.len(), |i: int| f(es[i]).unwrap()))
    } else {
        None
    }
}

/// The alignment an expression reconstructs: a bare reference to one of the
/// four alignment variants, and nothing else.
pub open spec fn eval_alignment(e: ExprV) -> Option<Alignment> {
    match e {
        ExprV::Unit(_, VocabItem::AlignUnspecified) => Some(Alignment::Unspecified),
        ExprV::Unit(_, VocabItem::AlignLeft) => Some(Alignment::Left),
        ExprV::Unit(_, VocabItem::AlignCenter) => Some(Alignment::Center),
        ExprV::Unit(_, VocabItem::AlignRight) => Some(Alignment::Right),
        _ => None,
    }
}

/// The composite style an expression reconstructs: a bare reference for the
/// payload-free variants, a constructor call on a byte literal for the rest.
pub open spec fn eval_style(e: ExprV) -> Option<CompositeStyle> {
    match e {
        ExprV::Unit(_, VocabItem::StyleParagraph) => Some(CompositeStyle::Paragraph),
        ExprV::Unit(_, VocabItem::StyleCode) => Some(CompositeStyle::Code),
        ExprV::Unit(_, VocabItem::StyleQuote) => Some(CompositeStyle::Quote),
        ExprV::Call(_, VocabItem::StyleHeader, arg) => match *arg {
            ExprV::ByteLit(level) => Some(CompositeStyle::Header(level)),
            _ => None,
        },
        ExprV::Call(_, VocabItem::StyleListItem, arg) => match *arg {
            ExprV::ByteLit(depth) => Some(CompositeStyle::ListItem(depth)),
            _ => None,
        },
        _ => None,
    }
}

/// The compound an expression reconstructs: a construction of the compound
/// type naming all five fields in order, with literal values.
pub open spec fn eval_compound(e: ExprV) -> Option<CompoundV> {
    match e {
        ExprV::Fields(_, VocabItem::CompoundTy, fs) => if fs.len() == 5 && fs[0].name
            == FieldName::Src && fs[0].value is StrLit && fs[1].name == FieldName::Bold
            && fs[1].value is BoolLit && fs[2].name == FieldName::Italic
            && fs[2].value is BoolLit && fs[3].name == FieldName::Code && fs[3].value is BoolLit
            && fs[4].name == FieldName::Strikeout && fs[4].value is BoolLit {
            Some(
                CompoundV {
                    src: fs[0].value->StrLit_0,
                    bold: fs[1].value->BoolLit_0,
                    italic: fs[2].value->BoolLit_0,
                    code: fs[3].value->BoolLit_0,
                    strikeout: fs[4].value->BoolLit_0,
                },
            )
        } else {
            None
        },
        _ => None,
    }
}

/// The composite an expression reconstructs: a construction naming the style
/// and the compound list, every list element itself a compound emission.
pub open spec fn eval_composite(e: ExprV) -> Option<CompositeV> {
    match e {
        ExprV::Fields(_, VocabItem::CompositeTy, fs) => if fs.len() == 2 && fs[0].name
            == FieldName::Style && fs[1].name == FieldName::Compounds && fs[1].value is List {
            match (eval_style(fs[0].value), eval_seq(
                fs[1].value->List_0,
                |x: ExprV| eval_compound(x),
            )) {
                (Some(style), Some(compounds)) => Some(CompositeV { style, compounds }),
                _ => None,
            }
        } else {
            None
        },
        _ => None,
    }
}

/// The table row an expression reconstructs.
pub open spec fn eval_table_row(e: ExprV) -> Option<TableRowV> {
    match e {
        ExprV::Fields(_, VocabItem::TableRowTy, fs) => if fs.len() == 1 && fs[0].name
            == FieldName::Cells && fs[0].value is List {
            match eval_seq(fs[0].value->List_0, |x: ExprV| eval_composite(x)) {
                Some(cells) => Some(TableRowV { cells }),
                None => None,
            }
        } else {
            None
        },
        _ => None,
    }
}

/// The table rule an expression reconstructs.
pub open spec fn eval_table_rule(e: ExprV) -> Option<TableRuleV> {
    match e {
        ExprV::Fields(_, VocabItem::TableRuleTy, fs) => if fs.len() == 1 && fs[0].name
            == FieldName::Cells && fs[0].value is List {
            match eval_seq(fs[0].value->List_0, |x: ExprV| eval_alignment(x)) {
                Some(cells) => Some(TableRuleV { cells }),
                None => None,
            }
        } else {
            None
        },
        _ => None,
    }
}

/// The line an expression reconstructs: a constructor call for the
/// payload-bearing variants, a bare reference for the horizontal rule.
pub open spec fn eval_line(e: ExprV) -> Option<LineV> {
    match e {
        ExprV::Call(_, VocabItem::LineNormal, arg) => match eval_composite(*arg) {
            Some(c) => Some(LineV::Normal(c)),
            None => None,
        },
        ExprV::Call(_, VocabItem::LineTableRow, arg) => match eval_table_row(*arg) {
            Some(r) => Some(LineV::TableRow(r)),
            None => None,
        },
        ExprV::Call(_, VocabItem::LineTableRule, arg) => match eval_table_rule(*arg) {
            Some(r) => Some(LineV::TableRule(r)),
            None => None,
        },
        ExprV::Unit(_, VocabItem::LineHorizontalRule) => Some(LineV::HorizontalRule),
        ExprV::Call(_, VocabItem::LineCodeFence, arg) => match eval_composite(*arg) {
            Some(c) => Some(LineV::CodeFence(c)),
            None => None,
        },
        _ => None,
    }
}

/// The document an expression reconstructs.
pub open spec fn eval_text(e: ExprV) -> Option<TextV> {
    match e {
        ExprV::Fields(_, VocabItem::TextTy, fs) => if fs.len() == 1 && fs[0].name
            == FieldName::Lines && fs[0].value is List {
            match eval_seq(fs[0].value->List_0, |x: ExprV| eval_line(x)) {
                Some(lines) => Some(TextV { lines }),
                None => None,
            }
        } else {
            None
        },
        _ => None,
    }
}

/// Round trip for alignments: evaluating an alignment's emission gives back
/// exactly that alignment, whichever root was configured.
pub proof fn lemma_round_trip_alignment(root: Root, a: Alignment)
    ensures
        eval_alignment(emit_alignment(root, a)) == Some(a),
{
}

/// Round trip for composite styles, with levels and depths unchanged.
pub proof fn lemma_round_trip_style(root: Root, s: CompositeStyle)
    ensures
        eval_style(emit_style(root, s)) == Some(s),
{
}

/// Round trip for compounds: the text content and all four flags survive.
pub proof fn lemma_round_trip_compound(root: Root, c: CompoundV)
    ensures
        eval_compound(emit_compound(root, c)) == Some(c),
{
}

/// Round trip for composites, their compounds in unchanged order.
pub proof fn lemma_round_trip_composite(root: Root, c: CompositeV)
    ensures
        eval_composite(emit_composite(root, c)) == Some(c),
{
    let e = emit_composite(root, c);
    let es = e->Fields_2[1].value->List_0;
    let f = |x: ExprV| eval_compound(x);
    assert forall|i: int| 0 <= i < es.len() implies (#[trigger] f(es[i])) is Some && f(es[i])
        == Some(c.compounds[i]) by {
        lemma_round_trip_compound(root, c.compounds[i]);
    }
    lemma_round_trip_style(root, c.style);
    assert(eval_seq(es, f).unwrap() =~= c.compounds);
    assert(eval_composite(e).unwrap() =~= c);
}

/// Round trip for table rows, their cells in unchanged order.
pub proof fn lemma_round_trip_table_row(root: Root, r: TableRowV)
    ensures
        eval_table_row(emit_table_row(root, r)) == Some(r),
{
    let e = emit_table_row(root, r);
    let es = e->Fields_2[0].value->List_0;
    let f = |x: ExprV| eval_composite(x);
    assert forall|i: int| 0 <= i < es.len() implies (#[trigger] f(es[i])) is Some && f(es[i])
        == Some(r.cells[i]) by {
        lemma_round_trip_composite(root, r.cells[i]);
    }
    assert(eval_seq(es, f).unwrap() =~= r.cells);
    assert(eval_table_row(e).unwrap() =~= r);
}

/// Round trip for table rules, their alignments in unchanged order.
pub proof fn lemma_round_trip_table_rule(root: Root, r: TableRuleV)
    ensures
        eval_table_rule(emit_table_rule(root, r)) == Some(r),
{
    let e = emit_table_rule(root, r);
    let es = e->Fields_2[0].value->List_0;
    let f = |x: ExprV| eval_alignment(x);
    assert forall|i: int| 0 <= i < es.len() implies (#[trigger] f(es[i])) is Some && f(es[i])
        == Some(r.cells[i]) by {
        lemma_round_trip_alignment(root, r.cells[i]);
    }
    assert(eval_seq(es, f).unwrap() =~= r.cells);
    assert(eval_table_rule(e).unwrap() =~= r);
}

/// Round trip for lines: every variant of the line vocabulary is emitted so
/// that evaluation chooses the same variant again with an equal payload.
pub proof fn lemma_round_trip_line(root: Root, l: LineV)
    ensures
        eval_line(emit_line(root, l)) == Some(l),
{
    match l {
        LineV::Normal(c) => lemma_round_trip_composite(root, c),
        LineV::TableRow(r) => lemma_round_trip_table_row(root, r),
        LineV::TableRule(r) => lemma_round_trip_table_rule(root, r),
        LineV::HorizontalRule => {
        },
        LineV::CodeFence(c) => lemma_round_trip_composite(root, c),
    }
}

/// Round trip for whole documents: compiling and evaluating the emission of
/// a tree yields a tree equal at every level — same variants, same order,
/// same text, same flags, same levels — under either qualification root.
pub proof fn lemma_round_trip(root: Root, t: TextV)
    ensures
        eval_text(emit_text(root, t)) == Some(t),
{
    let e = emit_text(root, t);
    let es = e->Fields_2[0].value->List_0;
    let f = |x: ExprV| eval_line(x);
    assert forall|i: int| 0 <= i < es.len() implies (#[trigger] f(es[i])) is Some && f(es[i])
        == Some(t.lines[i]) by {
        lemma_round_trip_line(root, t.lines[i]);
    }
    assert(eval_seq(es, f).unwrap() =~= t.lines);
    assert(eval_text(e).unwrap() =~= t);
}

/// Coverage of the vocabulary: every variant of each tagged type has an
/// emission rule, and what that rule emits evaluates back to a value, so no
/// variant is silently dropped. The emission functions' case analyses have
/// no default arm, so a variant added to the vocabulary without a rule
/// stops the build instead of losing data.
pub proof fn lemma_exhaustive(root: Root, l: LineV, s: CompositeStyle, a: Alignment)
    ensures
        eval_line(emit_line(root, l)) is Some,
        eval_style(emit_style(root, s)) is Some,
        eval_alignment(emit_alignment(root, a)) is Some,
{
    lemma_round_trip_line(root, l);
    lemma_round_trip_style(root, s);
    lemma_round_trip_alignment(root, a);
}

/// Order preservation for documents: element `i` of the emitted line list is
/// the emission of line `i` of the input.
pub proof fn lemma_order_preserved_text(root: Root, t: TextV)
    ensures
        emit_text(root, t)->Fields_2[0].value->List_0.len() == t.lines.len(),
        forall|i: int|
            0 <= i < t.lines.len() ==> emit_text(root, t)->Fields_2[0].value->List_0[i]
                == emit_line(root, #[trigger] t.lines[i]),
{
}

/// Order preservation for composites: element `i` of the emitted compound
/// list is the emission of compound `i` of the input.
pub proof fn lemma_order_preserved_composite(root: Root, c: CompositeV)
    ensures
        emit_composite(root, c)->Fields_2[1].value->List_0.len() == c.compounds.len(),
        forall|i: int|
            0 <= i < c.compounds.len() ==> emit_composite(root, c)->Fields_2[1].value->List_0[i]
                == emit_compound(root, #[trigger] c.compounds[i]),
{
}

/// Order preservation for table rows.
pub proof fn lemma_order_preserved_table_row(root: Root, r: TableRowV)
    ensures
        emit_table_row(root, r)->Fields_2[0].value->List_0.len() == r.cells.len(),
        forall|i: int|
            0 <= i < r.cells.len() ==> emit_table_row(root, r)->Fields_2[0].value->List_0[i]
                == emit_composite(root, #[trigger] r.cells[i]),
{
}

/// Order preservation for table rules.
pub proof fn lemma_order_preserved_table_rule(root: Root, r: TableRuleV)
    ensures
        emit_table_rule(root, r)->Fields_2[0].value->List_0.len() == r.cells.len(),
        forall|i: int|
            0 <= i < r.cells.len() ==> emit_table_rule(root, r)->Fields_2[0].value->List_0[i]
                == emit_alignment(root, #[trigger] r.cells[i]),
{
}

/// Qualification consistency for styles.
pub proof fn lemma_qualified_style(root: Root, s: CompositeStyle)
    ensures
        roots_consistent(emit_style(root, s), root),
{
    reveal_with_fuel(roots_consistent, 2);
}

/// Qualification consistency for compounds.
pub proof fn lemma_qualified_compound(root: Root, c: CompoundV)
    ensures
        roots_consistent(emit_compound(root, c), root),
{
    let fs = emit_compound(root, c)->Fields_2;
    assert forall|i: int| 0 <= i < fs.len() implies roots_consistent(
        #[trigger] fs[i].value,
        root,
    ) by {
        reveal_with_fuel(roots_consistent, 2);
    }
}

/// Qualification consistency for composites.
pub proof fn lemma_qualified_composite(root: Root, c: CompositeV)
    ensures
        roots_consistent(emit_composite(root, c), root),
{
    let fs = emit_composite(root, c)->Fields_2;
    lemma_qualified_style(root, c.style);
    let es = fs[1].value->List_0;
    assert forall|j: int| 0 <= j < es.len() implies roots_consistent(#[trigger] es[j], root) by {
        lemma_qualified_compound(root, c.compounds[j]);
    }
    assert forall|i: int| 0 <= i < fs.len() implies roots_consistent(
        #[trigger] fs[i].value,
        root,
    ) by {
    }
}

/// Qualification consistency for table rows.
pub proof fn lemma_qualified_table_row(root: Root, r: TableRowV)
    ensures
        roots_consistent(emit_table_row(root, r), root),
{
    let fs = emit_table_row(root, r)->Fields_2;
    let es = fs[0].value->List_0;
    assert forall|j: int| 0 <= j < es.len() implies roots_consistent(#[trigger] es[j], root) by {
        lemma_qualified_composite(root, r.cells[j]);
    }
    assert forall|i: int| 0 <= i < fs.len() implies roots_consistent(
        #[trigger] fs[i].value,
        root,
    ) by {
    }
}

/// Qualification consistency for table rules.
pub proof fn lemma_qualified_table_rule(root: Root, r: TableRuleV)
    ensures
        roots_consistent(emit_table_rule(root, r), root),
{
    let fs = emit_table_rule(root, r)->Fields_2;
    let es = fs[0].value->List_0;
    assert forall|j: int| 0 <= j < es.len() implies roots_consistent(#[trigger] es[j], root) by {
        reveal_with_fuel(roots_consistent, 2);
    }
    assert forall|i: int| 0 <= i < fs.len() implies roots_consistent(
        #[trigger] fs[i].value,
        root,
    ) by {
    }
}

/// Qualification consistency for lines.
pub proof fn lemma_qualified_line(root: Root, l: LineV)
    ensures
        roots_consistent(emit_line(root, l), root),
{
    match l {
        LineV::Normal(c) => lemma_qualified_composite(root, c),
        LineV::TableRow(r) => lemma_qualified_table_row(root, r),
        LineV::TableRule(r) => lemma_qualified_table_rule(root, r),
        LineV::HorizontalRule => {
        },
        LineV::CodeFence(c) => lemma_qualified_composite(root, c),
    }
}

/// Qualification consistency for whole documents: every vocabulary path in
/// one emission run is qualified by the one configured root; no emission
/// mixes the two roots.
pub proof fn lemma_qualified(root: Root, t: TextV)
    ensures
        roots_consistent(emit_text(root, t), root),
{
    let fs = emit_text(root, t)->Fields_2;
    let es = fs[0].value->List_0;
    assert forall|j: int| 0 <= j < es.len() implies roots_consistent(#[trigger] es[j], root) by {
        lemma_qualified_line(root, t.lines[j]);
    }
    assert forall|i: int| 0 <= i < fs.len() implies roots_consistent(
        #[trigger] fs[i].value,
        root,
    ) by {
    }
}

/// Determinism: two emissions of the same node under the same qualification
/// root are the same expression; emission depends on nothing else.
pub proof fn lemma_deterministic(root: Root, t: TextV, e1: ExprV, e2: ExprV)
    requires
        e1 == emit_text(root, t),
        e2 == emit_text(root, t),
    ensures
        e1 == e2,
{
}

} // verus!

