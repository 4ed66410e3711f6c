//! Turning an expression into source text.
//!
//! `render_expr` states, character by character, the text an expression is
//! written as: qualified paths from the configured root, string literals
//! with the characters that need it escaped, decimal byte literals, comma
//! separated element lists. The exec functions build exactly that text.

use vstd::prelude::*;
use vstd::string::StrSliceExecFns;
use vstd::string::StringExecFns;

use crate::expr::{Expr, ExprV, FieldName, FieldV, Root, VocabItem};

verus! {

/// Relies on std's `String::push`: it appends the given character to the
/// end of the string and changes nothing else.
pub assume_specification[ String::push ](s: &mut String, ch: char)
    ensures
        final(s)@ == old(s)@.push(ch),
;

/// The textual prefix of the configured qualification root.
pub open spec fn root_prefix(r: Root) -> Seq<char> {
    match r {
        Root::Direct => "::minimad"@,
        Root::Reexport => "::mad_emit"@,
    }
}

/// The path of a vocabulary item below the qualification root.
pub open spec fn vocab_path(v: VocabItem) -> Seq<char> {
    match v {
        VocabItem::TextTy => "::Text"@,
        VocabItem::LineNormal => "::Line::Normal"@,
        VocabItem::LineTableRow => "::Line::TableRow"@,
        VocabItem::LineTableRule => "::Line::TableRule"@,
        VocabItem::LineHorizontalRule => "::Line::HorizontalRule"@,
        VocabItem::LineCodeFence => "::Line::CodeFence"@,
        VocabItem::CompositeTy => "::Composite"@,
        VocabItem::StyleParagraph => "::CompositeStyle::Paragraph"@,
        VocabItem::StyleHeader => "::CompositeStyle::Header"@,
        VocabItem::StyleListItem => "::CompositeStyle::ListItem"@,
        VocabItem::StyleCode => "::CompositeStyle::Code"@,
        VocabItem::StyleQuote => "::CompositeStyle::Quote"@,
        VocabItem::CompoundTy => "::Compound"@,
        VocabItem::TableRowTy => "::TableRow"@,
        VocabItem::TableRuleTy => "::TableRule"@,
        VocabItem::AlignUnspecified => "::Alignment::Unspecified"@,
        VocabItem::AlignLeft => "::Alignment::Left"@,
        VocabItem::AlignCenter => "::Alignment::Center"@,
        VocabItem::AlignRight => "::Alignment::Right"@,
    }
}

/// The source spelling of a field name.
pub open spec fn field_text(f: FieldName) -> Seq<char> {
    match f {
        FieldName::Lines => "lines"@,
        FieldName::Style => "style"@,
        FieldName::Compounds => "compounds"@,
        FieldName::Src => "src"@,
        FieldName::Bold => "bold"@,
        FieldName::Italic => "italic"@,
        FieldName::Code => "code"@,
        FieldName::Strikeout => "strikeout"@,
        FieldName::Cells => "cells"@,
    }
}

/// How one character is written inside a string literal: backslash, quote,
/// newline, carriage return and tab are escaped, every other character
/// stands as itself.
pub open spec fn escape_char(c: char) -> Seq<char> {
    if c == '\\' {
        "\\\\"@
    } else if c == '"' {
        "\\\""@
    } else if c == '\n' {
        "\\n"@
    } else if c == '\r' {
        "\\r"@
    } else if c == '\t' {
        "\\t"@
    } else {
        seq![c]
    }
}

/// The body of a string literal: every character escaped, in order.
pub open spec fn escape_str(s: Seq<char>) -> Seq<char>
    decreases s.len(),
{
    if s.len() == 0 {
        Seq::empty()
    } else {
        escape_str(s.drop_last()) + escape_char(s.last())
    }
}

/// The decimal digit characters.
pub open spec fn digit_char(d: u8) -> char {
    if d == 0 {
        '0'
    } else if d == 1 {
        '1'
    } else if d == 2 {
        '2'
    } else if d == 3 {
        '3'
    } else if d == 4 {
        '4'
    } else if d == 5 {
        '5'
    } else if d == 6 {
        '6'
    } else if d == 7 {
        '7'
    } else if d == 8 {
        '8'
    } else {
        '9'
    }
}

/// The decimal spelling of a byte, without leading zeros.
pub open spec fn dec_u8(n: u8) -> Seq<char> {
    (if n >= 100 {
        seq![digit_char(n / 100)]
    } else {
        Seq::empty()
    }) + (if n >= 10 {
        seq![digit_char((n / 10) % 10)]
    } else {
        Seq::empty()
    }) + seq![digit_char(n % 10)]
}

/// The source text of an expression.
pub open spec fn render_expr(e: ExprV) -> Seq<char>
    decreases e,
{
    match e {
        ExprV::StrLit(s) => "\""@ + escape_str(s) + "\""@,
        ExprV::ByteLit(n) => dec_u8(n) + "u8"@,
        ExprV::BoolLit(b) => if b {
            "true"@
        } else {
            "false"@
        },
        ExprV::Unit(r, v) => root_prefix(r) + vocab_path(v),
        ExprV::Call(r, v, arg) => root_prefix(r) + vocab_path(v) + "("@ + render_expr(*arg)
            + ")"@,
        ExprV::Fields(r, v, fs) => root_prefix(r) + vocab_path(v) + " { "@ + render_fields(fs)
            + " }"@,
        ExprV::List(es) => "::std::vec!["@ + render_elems(es) + "]"@,
    }
}

/// The source text of a comma separated element list.
pub open spec fn render_elems(es: Seq<ExprV>) -> Seq<char>
    decreases es,
{
    if es.len() == 0 {
        Seq::empty()
    } else if es.len() == 1 {
        render_expr(es[0])
    } else {
        render_elems(es.drop_last()) + ", "@ + render_expr(es.last())
    }
}

/// The source text of a comma separated `name: value` field list.
pub open spec fn render_fields(fs: Seq<FieldV>) -> Seq<char>
    decreases fs,
{
    if fs.len() == 0 {
        Seq::empty()
    } else if fs.len() == 1 {
        field_text(fs[0].name) + ": "@ + render_expr(fs[0].value)
    } else {
        render_fields(fs.drop_last()) + ", "@ + field_text(fs.last().name) + ": "@ + render_expr(
            fs.last().value,
        )
    }
}

/// Append the escaped form of one character.
fn push_escaped_char(out: &mut String, c: char)
    ensures
        final(out)@ == old(out)@ + escape_char(c),
{
    match c {
        '\\' => out.append("\\\\"),
        '"' => out.append("\\\""),
        '\n' => out.append("\\n"),
        '\r' => out.append("\\r"),
        '\t' => out.append("\\t"),
        _ => {
            out.push(c);
            proof {
                assert(old(out)@.push(c) =~= old(out)@ + seq![c]);
            }
        },
    }
}

/// Append the escaped form of a whole string.
fn push_escaped(out: &mut String, s: &str)
    ensures
        final(out)@ == old(out)@ + escape_str(s@),
{
    let ghost pre = out@;
    let n = s.unicode_len();
    proof {
        assert(pre + escape_str(s@.take(0)) =~= pre);
    }
    let mut i: usize = 0;
    while i < n
        invariant
            n == s@.len(),
            i <= n,
            out@ == pre + escape_str(s@.take(i as int)),
        decreases n - i,
    {
        let c = s.get_char(i);
        push_escaped_char(out, c);
        proof {
            assert(s@.take(i as int + 1).drop_last() =~= s@.take(i as int));
            assert(s@.take(i as int + 1).last() == s@[i as int]);
            assert(pre + escape_str(s@.take(i as int)) + escape_char(s@[i as int]) =~= pre
                + escape_str(s@.take(i as int + 1)));
        }
        i = i + 1;
    }
    proof {
        assert(s@.take(n as int) =~= s@);
    }
}

/// Append one decimal digit character.
fn push_digit(out: &mut String, d: u8)
    requires
        d < 10,
    ensures
        final(out)@ == old(out)@ + seq![digit_char(d)],
{
    let c: char = if d == 0 {
        '0'
    } else if d == 1 {
        '1'
    } else if d == 2 {
        '2'
    } else if d == 3 {
        '3'
    } else if d == 4 {
        '4'
    } else if d == 5 {
        '5'
    } else if d == 6 {
        '6'
    } else if d == 7 {
        '7'
    } else if d == 8 {
        '8'
    } else {
        '9'
    };
    out.push(c);
    proof {
        assert(old(out)@.push(c) =~= old(out)@ + seq![digit_char(d)]);
    }
}

/// Append the decimal spelling of a byte.
fn push_dec_u8(out: &mut String, n: u8)
    ensures
        final(out)@ == old(out)@ + dec_u8(n),
{
    let ghost pre = out@;
    if n >= 100 {
        push_digit(out, n / 100);
    }
    if n >= 10 {
        push_digit(out, (n / 10) % 10);
    }
    push_digit(out, n % 10);
    proof {
        assert(out@ =~= pre + dec_u8(n));
    }
}

/// Append the prefix of the qualification root.
fn push_root(out: &mut String, r: &Root)
    ensures
        final(out)@ == old(out)@ + root_prefix(*r),
{
    match r {
        Root::Direct => out.append("::minimad"),
        Root::Reexport => out.append("::mad_emit"),
    }
}

/// Append the path of a vocabulary item below the root.
fn push_vocab(out: &mut String, v: &VocabItem)
    ensures
        final(out)@ == old(out)@ + vocab_path(*v),
{
    match v {
        VocabItem::TextTy => out.append("::Text"),
        VocabItem::LineNormal => out.append("::Line::Normal"),
        VocabItem::LineTableRow => out.append("::Line::TableRow"),
        VocabItem::LineTableRule => out.append("::Line::TableRule"),
        VocabItem::LineHorizontalRule => out.append("::Line::HorizontalRule"),
        VocabItem::LineCodeFence => out.append("::Line::CodeFence"),
        VocabItem::CompositeTy => out.append("::Composite"),
        VocabItem::StyleParagraph => out.append("::CompositeStyle::Paragraph"),
        VocabItem::StyleHeader => out.append("::CompositeStyle::Header"),
        VocabItem::StyleListItem => out.append("::CompositeStyle::ListItem"),
        VocabItem::StyleCode => out.append("::CompositeStyle::Code"),
        VocabItem::StyleQuote => out.append("::CompositeStyle::Quote"),
        VocabItem::CompoundTy => out.append("::Compound"),
        VocabItem::TableRowTy => out.append("::TableRow"),
        VocabItem::TableRuleTy => out.append("::TableRule"),
        VocabItem::AlignUnspecified => out.append("::Alignment::Unspecified"),
        VocabItem::AlignLeft => out.append("::Alignment::Left"),
        VocabItem::AlignCenter => out.append("::Alignment::Center"),
        VocabItem::AlignRight => out.append("::Alignment::Right"),
    }
}

/// Append the source spelling of a field name.
fn push_field_name(out: &mut String, f: &FieldName)
    ensures
        final(out)@ == old(out)@ + field_text(*f),
{
    match f {
        FieldName::Lines => out.append("lines"),
        FieldName::Style => out.append("style"),
        FieldName::Compounds => out.append("compounds"),
        FieldName::Src => out.append("src"),
        FieldName::Bold => out.append("bold"),
        FieldName::Italic => out.append("italic"),
        FieldName::Code => out.append("code"),
        FieldName::Strikeout => out.append("strikeout"),
        FieldName::Cells => out.append("cells"),
    }
}

/// Append the source text of an expression.
#[verifier::loop_isolation(false)]
#[verifier::rlimit(100)]
fn push_expr(out: &mut String, e: &Expr)
    ensures
        final(out)@ == old(out)@ + render_expr(e@),
    decreases e,
{
    let ghost pre = out@;
    match e {
        Expr::StrLit(s) => {
            out.append("\"");
            push_escaped(out, s.as_str());
            out.append("\"");
            proof {
                assert(out@ =~= pre + render_expr(e@));
            }
        },
        Expr::ByteLit(n) => {
            push_dec_u8(out, *n);
            out.append("u8");
            proof {
                assert(out@ =~= pre + render_expr(e@));
            }
        },
        Expr::BoolLit(b) => {
            if *b {
                out.append("true");
            } else {
                out.append("false");
            }
            proof {
                assert(out@ =~= pre + render_expr(e@));
            }
        },
        Expr::Unit(r, v) => {
            push_root(out, r);
            push_vocab(out, v);
            proof {
                assert(out@ =~= pre + render_expr(e@));
            }
        },
        Expr::Call(r, v, arg) => {
            push_root(out, r);
            push_vocab(out, v);
            out.append("(");
            push_expr(out, arg);
            out.append(")");
            proof {
                assert(out@ =~= pre + render_expr(e@));
            }
        },
        Expr::Fields(r, v, fs) => {
            push_root(out, r);
            push_vocab(out, v);
            out.append(" { ");
            let ghost fsv = e@->Fields_2;
            let ghost mid = out@;
            proof {
                assert(mid + render_fields(fsv.take(0)) =~= mid);
            }
            let mut i: usize = 0;
            while i < fs.len()
                invariant
                    i <= fs.len(),
                    fsv.len() == fs@.len(),
                    forall|k: int|
                        0 <= k < fs@.len() ==> #[trigger] fsv[k] == (FieldV {
                            name: fs@[k].name,
                            value: crate::expr::expr_view(fs@[k].value),
                        }),
                    out@ == mid + render_fields(fsv.take(i as int)),
                decreases fs.len() - i,
            {
                if i > 0 {
                    out.append(", ");
                }
                push_field_name(out, &fs[i].name);
                out.append(": ");
                push_expr(out, &fs[i].value);
                proof {
                    assert(fsv.take(i as int + 1).drop_last() =~= fsv.take(i as int));
                    assert(fsv.take(i as int + 1).last() == fsv[i as int]);
                    assert(out@ =~= mid + render_fields(fsv.take(i as int + 1)));
                }
                i = i + 1;
            }
            out.append(" }");
            proof {
                assert(fsv.take(fs@.len() as int) =~= fsv);
                assert(out@ =~= pre + render_expr(e@));
            }
        },
        Expr::List(es) => {
            out.append("::std::vec![");
            let ghost esv = e@->List_0;
            let ghost mid = out@;
            proof {
                assert(mid + render_elems(esv.take(0)) =~= mid);
            }
            let mut i: usize = 0;
            while i < es.len()
                invariant
                    i <= es.len(),
                    esv.len() == es@.len(),
                    forall|k: int|
                        0 <= k < es@.len() ==> #[trigger] esv[k] == crate::expr::expr_view(
                            es@[k],
                        ),
                    out@ == mid + render_elems(esv.take(i as int)),
                decreases es.len() - i,
            {
                if i > 0 {
                    out.append(", ");
                }
                push_expr(out, &es[i]);
                proof {
                    assert(esv.take(i as int + 1).drop_last() =~= esv.take(i as int));
                    assert(esv.take(i as int + 1).last() == esv[i as int]);
                    assert(out@ =~= mid + render_elems(esv.take(i as int + 1)));
                }
                i = i + 1;
            }
            out.append("]");
            proof {
                assert(esv.take(es@.len() as int) =~= esv);
                assert(out@ =~= pre + render_expr(e@));
            }
        },
    }
}

/// The source text of an expression, exactly as `render_expr` states it.
pub fn render(e: &Expr) -> (r: String)
    ensures
        r@ == render_expr(e@),
{
    let mut out = String::new();
    push_expr(&mut out, e);
    proof {
        assert(Seq::<char>::empty() + render_expr(e@) =~= render_expr(e@));
    }
    out
}

} // verus!
