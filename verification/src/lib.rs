//! Rewrites a function declaration into a wrapper that evaluates the function's
//! body once and caches the result.
//!
//! The three entry points take the attribute's arguments and the annotated item
//! as source text, and hand back the generated fragment or a diagnostic.
pub mod __internal;
pub mod args;
pub mod decl;
pub mod diag;
pub mod emit;
pub mod expand;
pub mod grammar;
pub mod laws;
pub mod render;
pub mod resolve;
pub mod syntax;
pub mod text;
pub mod validate;

use crate::args::{LazyArgs, LazyArgsView};
use crate::diag::Diagnostic;
use crate::emit::Fragment;
use crate::expand::{lazy_map_spec, rewrite, rewrite_spec};
use crate::grammar::parse_map_args;
use crate::resolve::Discovery;
use crate::text::result_view;
use vstd::prelude::*;

verus! {

/// The attribute `lazy`: caches the value that the function computes. The
/// attribute takes no arguments; whatever `_attr` holds is ignored.
pub fn lazy(_attr: &str, item: &str, async_support: bool, discovery: &Discovery) -> (result: Result<
    Fragment,
    Diagnostic,
>)
    ensures
        result_view(result) == rewrite_spec(
            LazyArgsView::Plain,
            item@,
            async_support,
            discovery@,
        ),
{
    rewrite(&LazyArgs::Plain, item, async_support, discovery)
}

/// The attribute `lazy_ref`: caches the value that the function computes. The
/// attribute takes no arguments; whatever `_attr` holds is ignored.
pub fn lazy_ref(_attr: &str, item: &str, async_support: bool, discovery: &Discovery) -> (result:
    Result<Fragment, Diagnostic>)
    ensures
        result_view(result) == rewrite_spec(LazyArgsView::Ref, item@, async_support, discovery@),
{
    rewrite(&LazyArgs::Ref, item, async_support, discovery)
}

/// The attribute `lazy_map`: caches what a transform makes of the value that
/// the function computes. `attr` holds the type of the cached value, a `,`
/// and the transform; it is read before the item, so that a fault in the
/// arguments is reported whatever the item holds.
pub fn lazy_map(attr: &str, item: &str, async_support: bool, discovery: &Discovery) -> (result:
    Result<Fragment, Diagnostic>)
    ensures
        result_view(result) == lazy_map_spec(attr@, item@, async_support, discovery@),
{
    match parse_map_args(attr) {
        Err(diagnostic) => Err(diagnostic),
        Ok(args) => rewrite(&LazyArgs::Mapped(args), item, async_support, discovery),
    }
}

} // verus!
