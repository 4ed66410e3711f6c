//! The shape of emitted code: a closed expression over the tree vocabulary.
//!
//! An emission is represented as a small expression tree before it is turned
//! into source text: literals, bare variant references, variant constructor
//! calls, field-by-field struct construction, and element lists. Every
//! reference to the vocabulary carries the qualification root it is written
//! against, so consistency of qualification is a checkable property of the
//! expression itself.

use vstd::prelude::*;

verus! {

/// The qualification root every emitted vocabulary path starts from.
///
/// Exactly one root is chosen per emission run:
/// - `Direct`: paths resolve against the document-model library's own
///   public root, for consumers that depend on that library directly.
/// - `Reexport`: paths resolve against this crate's published root, which
///   re-exports the vocabulary, for consumers that depend only on this crate.
#[derive(Debug, Clone, Copy, PartialEq, Eq, Structural)]
pub enum Root {
    Direct,
    Reexport,
}

/// A name of the tree vocabulary that emitted code may refer to:
/// a type to construct, or a variant of one of its tagged types.
#[derive(Debug, Clone, Copy, PartialEq, Eq, Structural)]
pub enum VocabItem {
    TextTy,
    LineNormal,
    LineTableRow,
    LineTableRule,
    LineHorizontalRule,
    LineCodeFence,
    CompositeTy,
    StyleParagraph,
    StyleHeader,
    StyleListItem,
    StyleCode,
    StyleQuote,
    CompoundTy,
    TableRowTy,
    TableRuleTy,
    AlignUnspecified,
    AlignLeft,
    AlignCenter,
    AlignRight,
}

/// A field name that a struct construction expression may spell out.
#[derive(Debug, Clone, Copy, PartialEq, Eq, Structural)]
pub enum FieldName {
    Lines,
    Style,
    Compounds,
    Src,
    Bold,
    Italic,
    Code,
    Strikeout,
    Cells,
}

/// One `name: value` pair of a struct construction expression.
#[derive(Debug, PartialEq, Eq)]
pub struct Field {
    pub name: FieldName,
    pub value: Expr,
}

/// A closed construction expression: what one emission run produces.
///
/// The expression owns all of its data; in particular a string literal holds
/// its characters, never a reference into the input the tree was parsed from.
#[derive(Debug, PartialEq, Eq)]
pub enum Expr {
    /// A string literal.
    StrLit(String),
    /// An unsigned byte literal (header level, list depth).
    ByteLit(u8),
    /// A boolean literal.
    BoolLit(bool),
    /// A bare reference to a variant without payload: no call syntax.
    Unit(Root, VocabItem),
    /// A call of a variant constructor on one serialized payload.
    Call(Root, VocabItem, Box<Expr>),
    /// A struct construction naming every field explicitly.
    Fields(Root, VocabItem, Vec<Field>),
    /// A collection construction: its elements in order.
    List(Vec<Expr>),
}

/// Mathematical value of a `Field`.
#[verifier::ext_equal]
pub struct FieldV {
    pub name: FieldName,
    pub value: ExprV,
}

/// Mathematical value of an `Expr`.
#[verifier::ext_equal]
pub enum ExprV {
    StrLit(Seq<char>),
    ByteLit(u8),
    BoolLit(bool),
    Unit(Root, VocabItem),
    Call(Root, VocabItem, Box<ExprV>),
    Fields(Root, VocabItem, Seq<FieldV>),
    List(Seq<ExprV>),
}

/// The mathematical value of an expression: literals become their values,
/// collections become sequences, structure is kept.
pub open spec fn expr_view(e: Expr) -> ExprV
    decreases e,
{
    match e {
        Expr::StrLit(s) => ExprV::StrLit(s@),
        Expr::ByteLit(n) => ExprV::ByteLit(n),
        Expr::BoolLit(b) => ExprV::BoolLit(b),
        Expr::Unit(r, v) => ExprV::Unit(r, v),
        Expr::Call(r, v, arg) => ExprV::Call(r, v, Box::new(expr_view(*arg))),
        Expr::Fields(r, v, fields) => ExprV::Fields(
            r,
            v,
            Seq::new(
                fields@.len(),
                |i: int|
                    if 0 <= i < fields@.len() {
                        FieldV { name: fields@[i].name, value: expr_view(fields@[i].value) }
                    } else {
                        FieldV { name: FieldName::Lines, value: ExprV::BoolLit(false) }
                    },
            ),
        ),
        Expr::List(es) => ExprV::List(
            Seq::new(
                es@.len(),
                |i: int|
                    if 0 <= i < es@.len() {
                        expr_view(es@[i])
                    } else {
                        ExprV::BoolLit(false)
                    },
            ),
        ),
    }
}

impl View for Expr {
    type V = ExprV;

    open spec fn view(&self) -> ExprV {
        expr_view(*self)
    }
}

impl View for Field {
    type V = FieldV;

    open spec fn view(&self) -> FieldV {
        FieldV { name: self.name, value: expr_view(self.value) }
    }
}

/// Every vocabulary path inside `e` is qualified by exactly the root `root`.
pub open spec fn roots_consistent(e: ExprV, root: Root) -> bool
    decreases e,
{
    match e {
        ExprV::StrLit(_) => true,
        ExprV::ByteLit(_) => true,
        ExprV::BoolLit(_) => true,
        ExprV::Unit(r, _) => r == root,
        ExprV::Call(r, _, arg) => r == root && roots_consistent(*arg, root),
        ExprV::Fields(r, _, fields) => r == root && (forall|i: int|
            0 <= i < fields.len() ==> roots_consistent(#[trigger] fields[i].value, root)),
        ExprV::List(es) => forall|i: int|
            0 <= i < es.len() ==> roots_consistent(#[trigger] es[i], root),
    }
}

} // verus!
