//! Calls into the parser and lexer crates. Nothing in this file is proved:
//! each contract states what the called function is trusted to do.
//!
//! The lexer crate lexes and prints with the compiler's own lexer and printer
//! where the process is a compiler, and with its own elsewhere. Every function
//! here switches the crate to its own for the length of the call, and hands
//! out strings, numbers and booleans only. What comes back is therefore a
//! function of the text that went in, in every process.
use crate::decl::{FnDecl, FnDeclView};
use crate::text::result_view;
use proc_macro2::fallback::{force, unforce};
use proc_macro2::{Literal, Spacing, TokenStream, TokenTree};
use quote::ToTokens;
use syn::{parse_str, ExprClosure, ItemFn, Path, ReturnType, Type};
use vstd::prelude::*;

verus! {

/// One token tree at the top level of a token stream.
#[derive(Clone, Debug, PartialEq, Eq)]
pub struct Lexeme {
    /// The token tree's source text.
    pub text: String,
    /// Whether the token is a punctuation character that is followed by
    /// another without space between them, as the `-` of `->` is.
    pub joint: bool,
}

/// What a [`Lexeme`] holds, as mathematical values.
pub struct LexemeView {
    pub text: Seq<char>,
    pub joint: bool,
}

impl View for Lexeme {
    type V = LexemeView;

    open spec fn view(&self) -> LexemeView {
        LexemeView { text: self.text@, joint: self.joint }
    }
}

/// The view of each lexeme, in order.
pub open spec fn lexeme_views(lexemes: Seq<Lexeme>) -> Seq<LexemeView> {
    lexemes.map_values(|lexeme: Lexeme| lexeme@)
}

/// The views of the lexemes of an optional list.
pub open spec fn opt_lexeme_views(lexemes: Option<Vec<Lexeme>>) -> Option<Seq<LexemeView>> {
    match lexemes {
        Some(list) => Some(lexeme_views(list@)),
        None => None,
    }
}

/// What `syn` reads a source text as, when asked for a function item: the
/// function's parts, each as the text that `proc_macro2` prints for it, or the
/// message of the syntax error.
pub uninterp spec fn parsed_function(source: Seq<char>) -> Result<FnDeclView, Seq<char>>;

/// The top-level token trees that `proc_macro2` lexes a source text into;
/// `None` where the text is not a sequence of tokens.
pub uninterp spec fn lexed(source: Seq<char>) -> Option<Seq<LexemeView>>;

/// Whether `syn` reads the whole of a source text as a type.
pub uninterp spec fn reads_as_type(source: Seq<char>) -> bool;

/// Whether `syn` reads the whole of a source text as a closure expression.
pub uninterp spec fn reads_as_closure(source: Seq<char>) -> bool;

/// Whether `syn` reads the whole of a source text as a path.
pub uninterp spec fn reads_as_path(source: Seq<char>) -> bool;

/// The string literal that `proc_macro2` writes for a text: the text between
/// double quotes, with escapes where it needs them.
pub uninterp spec fn quoted(text: Seq<char>) -> Seq<char>;

/// Parses a function item with `syn::parse_str`, between
/// `proc_macro2::fallback::force` and `unforce`. On success the parts of the
/// function are handed back: the attributes, the visibility, the return type
/// and the statements as the text that `proc_macro2` prints for them, the
/// parameters by their number. On failure the result is the error's message.
/// Trusted: the result is the one that `parsed_function` names.
#[verifier::external_body]
pub(crate) fn parse_function(source: &str) -> (result: Result<FnDecl, String>)
    ensures
        result_view(result) == parsed_function(source@),
{
    force();
    let parsed = parse_str::<ItemFn>(source).map(|item| FnDecl {
        attrs: item.attrs.iter().map(|a| a.to_token_stream().to_string()).collect(),
        vis: item.vis.to_token_stream().to_string(),
        is_async: item.sig.asyncness.is_some(),
        name: item.sig.ident.to_string(),
        parameters: item.sig.inputs.len(),
        body: item.block.stmts.iter().map(|s| s.to_token_stream().to_string()).collect(),
        output: match item.sig.output {
            ReturnType::Type(_, ty) => Some(ty.to_token_stream().to_string()),
            ReturnType::Default => None,
        },
    });
    unforce();
    parsed.map_err(|e| e.to_string())
}

/// Lexes a source text with `proc_macro2::TokenStream::from_str`, between
/// `proc_macro2::fallback::force` and `unforce`, and hands back its top-level
/// token trees, each with the text that `proc_macro2` prints for it and, for a
/// punctuation character, its spacing; `None` where the text is not a
/// sequence of tokens. Trusted: the result is the one that `lexed` names.
#[verifier::external_body]
pub(crate) fn lex(source: &str) -> (result: Option<Vec<Lexeme>>)
    ensures
        opt_lexeme_views(result) == lexed(source@),
{
    force();
    let lexemes = source.parse::<TokenStream>().ok().map(|stream| {
        stream.into_iter().map(|tree| Lexeme {
            joint: match &tree {
                TokenTree::Punct(p) => match p.spacing() {
                    Spacing::Joint => true,
                    Spacing::Alone => false,
                },
                _ => false,
            },
            text: tree.to_string(),
        }).collect()
    });
    unforce();
    lexemes
}

/// Asks `syn::parse_str`, between `proc_macro2::fallback::force` and
/// `unforce`, whether a text is a type. Trusted: the answer is the one that
/// `reads_as_type` names.
#[verifier::external_body]
pub(crate) fn is_type(source: &str) -> (result: bool)
    ensures
        result == reads_as_type(source@),
{
    force();
    let answer = parse_str::<Type>(source).is_ok();
    unforce();
    answer
}

/// Asks `syn::parse_str`, between `proc_macro2::fallback::force` and
/// `unforce`, whether a text is a closure expression. Trusted: the answer is
/// the one that `reads_as_closure` names.
#[verifier::external_body]
pub(crate) fn is_closure(source: &str) -> (result: bool)
    ensures
        result == reads_as_closure(source@),
{
    force();
    let answer = parse_str::<ExprClosure>(source).is_ok();
    unforce();
    answer
}

/// Asks `syn::parse_str`, between `proc_macro2::fallback::force` and
/// `unforce`, whether a text is a path. Trusted: the answer is the one that
/// `reads_as_path` names.
#[verifier::external_body]
pub(crate) fn is_path(source: &str) -> (result: bool)
    ensures
        result == reads_as_path(source@),
{
    force();
    let answer = parse_str::<Path>(source).is_ok();
    unforce();
    answer
}

/// Writes a text as a string literal with `proc_macro2::Literal::string`,
/// between `proc_macro2::fallback::force` and `unforce`. Trusted: the result
/// is the one that `quoted` names.
#[verifier::external_body]
pub(crate) fn quote_string(text: &str) -> (out: String)
    ensures
        out@ == quoted(text@),
{
    force();
    let out = Literal::string(text).to_string();
    unforce();
    out
}

} // verus!
