//! From emitted text to a real token stream.
//!
//! The host splices emissions into generated programs as token streams, so
//! the emitter's text is handed to the `proc_macro2` lexer here. Which lexer
//! answers depends on the process (the host compiler's inside a procedural
//! macro, the crate's own fallback elsewhere), so only what holds on every
//! path is assumed: a text that the fallback lexer rejects is never accepted.

use vstd::prelude::*;

use crate::emit::{Emitter, emit_line, emit_text};
use crate::expr::Expr;
use crate::render::{render, render_expr};
use crate::tree::{Line, Text};

verus! {

#[verifier::external_type_specification]
#[verifier::external_body]
pub struct ExTokenStream(proc_macro2::TokenStream);

/// Whether `proc_macro2`'s own fallback lexer accepts a text as a
/// well-formed Rust token stream. The fallback lexer reads nothing but the
/// characters, so this is a function of the text alone.
pub uninterp spec fn rust_lexes(s: Seq<char>) -> bool;

/// Relies on `proc_macro2::TokenStream`'s `FromStr` impl. It lexes with the
/// host compiler inside a procedural macro and with the crate's fallback
/// lexer elsewhere, but the compiler path pre-validates the text with the
/// fallback lexer, so on every path success implies the fallback lexer's
/// acceptance. The two lexers can disagree the other way round, so no more
/// is assumed: acceptance by the fallback lexer does not promise success.
#[verifier::external_body]
fn lex_str(s: &str) -> (r: Option<proc_macro2::TokenStream>)
    ensures
        r is Some ==> rust_lexes(s@),
{
    s.parse::<proc_macro2::TokenStream>().ok()
}

/// The token stream an expression's source text lexes to, or nothing where
/// the lexer refuses the text.
pub fn expr_tokens(e: &Expr) -> (r: Option<proc_macro2::TokenStream>)
    ensures
        r is Some ==> rust_lexes(render_expr(e@)),
{
    let code = render(e);
    lex_str(code.as_str())
}

impl Emitter {
    /// The source text that reconstructs one line: the rendering of the
    /// line's emission under the configured root.
    pub fn line_code(&self, l: &Line) -> (r: String)
        ensures
            r@ == render_expr(emit_line(self.root, l@)),
    {
        let e = self.line_expr(l);
        render(&e)
    }

    /// The source text that reconstructs a whole document.
    pub fn text_code(&self, t: &Text) -> (r: String)
        ensures
            r@ == render_expr(emit_text(self.root, t@)),
    {
        let e = self.text_expr(t);
        render(&e)
    }

    /// The token stream that reconstructs one line, lexed from the emitted
    /// text, or nothing where the lexer refuses the text.
    pub fn line_tokens(&self, l: &Line) -> (r: Option<proc_macro2::TokenStream>)
        ensures
            r is Some ==> rust_lexes(render_expr(emit_line(self.root, l@))),
    {
        let e = self.line_expr(l);
        expr_tokens(&e)
    }

    /// The token stream that reconstructs a whole document, lexed from the
    /// emitted text, or nothing where the lexer refuses the text.
    pub fn text_tokens(&self, t: &Text) -> (r: Option<proc_macro2::TokenStream>)
        ensures
            r is Some ==> rust_lexes(render_expr(emit_text(self.root, t@))),
    {
        let e = self.text_expr(t);
        expr_tokens(&e)
    }
}

} // verus!
