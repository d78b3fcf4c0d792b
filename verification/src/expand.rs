//! The rewrite as a whole: check the shape, name the facility, generate.
use crate::args::{facility_of, LazyArgs, LazyArgsView};
use crate::decl::{FnDecl, FnDeclView};
use crate::diag::{diagnostic_text, Diagnostic, DiagnosticView};
use crate::emit::{emit, emit_spec, Fragment, FragmentView};
use crate::grammar::map_args_spec;
use crate::render::fragment_text;
use crate::resolve::{resolve, resolve_spec, Discovery, DiscoveryView};
use crate::syntax::{parse_function, parsed_function};
use crate::text::result_view;
use crate::validate::{validate, validate_spec};
use vstd::prelude::*;

verus! {

/// The outcome of rewriting a declaration: the shape is checked first, then
/// the facility is named, and only then is anything generated.
pub open spec fn expand_spec(
    args: LazyArgsView,
    decl: FnDeclView,
    async_support: bool,
    discovery: DiscoveryView,
) -> Result<FragmentView, DiagnosticView> {
    match validate_spec(decl, async_support) {
        Err(diagnostic) => Err(diagnostic),
        Ok(_) => match resolve_spec(facility_of(args), discovery) {
            Err(diagnostic) => Err(diagnostic),
            Ok(facility) => Ok(emit_spec(args, decl, facility)),
        },
    }
}

/// The outcome of rewriting what the parser made of an item: its error is
/// handed on with its message, and a declaration is rewritten.
pub open spec fn parse_outcome(
    args: LazyArgsView,
    parsed: Result<FnDeclView, Seq<char>>,
    async_support: bool,
    discovery: DiscoveryView,
) -> Result<FragmentView, DiagnosticView> {
    match parsed {
        Err(message) => Err(DiagnosticView::MalformedFunction(message)),
        Ok(decl) => expand_spec(args, decl, async_support, discovery),
    }
}

/// The outcome of rewriting an item given as source text, in a given mode.
pub open spec fn rewrite_spec(
    args: LazyArgsView,
    item: Seq<char>,
    async_support: bool,
    discovery: DiscoveryView,
) -> Result<FragmentView, DiagnosticView> {
    parse_outcome(args, parsed_function(item), async_support, discovery)
}

/// The outcome of the map attribute on source text: the arguments are read
/// before the item.
pub open spec fn lazy_map_spec(
    attr: Seq<char>,
    item: Seq<char>,
    async_support: bool,
    discovery: DiscoveryView,
) -> Result<FragmentView, DiagnosticView> {
    match map_args_spec(attr) {
        Err(diagnostic) => Err(diagnostic),
        Ok(args) => rewrite_spec(LazyArgsView::Mapped(args), item, async_support, discovery),
    }
}

/// An outcome as source text: the generated code, or else the diagnostic.
pub open spec fn outcome_text(outcome: Result<FragmentView, DiagnosticView>) -> Seq<char> {
    match outcome {
        Ok(fragment) => fragment_text(fragment),
        Err(diagnostic) => diagnostic_text(diagnostic),
    }
}

/// Rewrites a declaration. `async_support` says whether `async` functions are
/// accepted; `discovery` is what the search for the facility among the
/// dependencies came back with.
pub fn expand(args: &LazyArgs, decl: FnDecl, async_support: bool, discovery: &Discovery) -> (result:
    Result<Fragment, Diagnostic>)
    ensures
        result_view(result) == expand_spec(args@, decl@, async_support, discovery@),
{
    match validate(&decl, async_support) {
        Err(diagnostic) => Err(diagnostic),
        Ok(_) => match resolve(args.facility(), discovery) {
            Err(diagnostic) => Err(diagnostic),
            Ok(facility) => Ok(emit(args, decl, facility)),
        },
    }
}

/// Rewrites what the parser made of an item: a declaration, or the message of
/// a syntax error, which is handed on as it is.
pub fn outcome_of_parse(
    args: &LazyArgs,
    parsed: Result<FnDecl, String>,
    async_support: bool,
    discovery: &Discovery,
) -> (result: Result<Fragment, Diagnostic>)
    ensures
        result_view(result) == parse_outcome(
            args@,
            result_view(parsed),
            async_support,
            discovery@,
        ),
{
    match parsed {
        Err(message) => Err(Diagnostic::MalformedFunction(message)),
        Ok(decl) => expand(args, decl, async_support, discovery),
    }
}

/// Parses an item and rewrites it in the given mode.
pub fn rewrite(args: &LazyArgs, item: &str, async_support: bool, discovery: &Discovery) -> (result:
    Result<Fragment, Diagnostic>)
    ensures
        result_view(result) == rewrite_spec(args@, item@, async_support, discovery@),
{
    outcome_of_parse(args, parse_function(item), async_support, discovery)
}

/// Writes an outcome as source text: the generated code on success, the
/// diagnostic on failure, and never nothing.
pub fn serialize(outcome: &Result<Fragment, Diagnostic>) -> (out: String)
    ensures
        out@ == outcome_text(result_view(*outcome)),
        out@.len() > 0,
{
    proof {
        reveal_strlit(":: core :: compile_error ! { ");
        reveal_strlit("#[allow(non_upper_case_globals)] static ");
    }
    match outcome {
        Ok(fragment) => fragment.render(),
        Err(diagnostic) => diagnostic.render(),
    }
}

} // verus!
