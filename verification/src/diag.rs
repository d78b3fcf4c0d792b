//! The diagnostics that a failed rewrite reports.
use crate::syntax::{quote_string, quoted};
use vstd::prelude::*;

verus! {

/// The part of the input that a diagnostic points at.
#[derive(Clone, Copy, Debug, PartialEq, Eq, Structural)]
pub enum Anchor {
    /// The annotated item as a whole.
    Item,
    /// The attribute's arguments.
    Arguments,
    /// The function's parameter list.
    ParameterList,
    /// The function's `async` marker.
    AsyncMarker,
    /// The function's name.
    FunctionName,
}

/// The two attribute facilities, each published as a package of its own.
#[derive(Clone, Copy, Debug, PartialEq, Eq, Structural)]
pub enum Facility {
    /// The facility with the single attribute `lazy`.
    LazyAttr,
    /// The facility with the attributes `lazy_ref` and `lazy_map`.
    LazyAttribute,
}

/// The part of the map attribute's grammar that the arguments fail to match.
#[derive(Clone, Copy, Debug, PartialEq, Eq, Structural)]
pub enum Expected {
    /// No type followed by a `,` stands at the front of the arguments.
    TypeThenComma,
    /// What follows the `,` is neither a closure nor a path.
    ClosureOrPath,
}

/// Why a rewrite failed.
#[derive(Clone, Debug, PartialEq, Eq)]
pub enum Diagnostic {
    /// The annotated item is not a function; holds the parser's message.
    MalformedFunction(String),
    /// The map attribute's arguments do not read as a type, a `,` and a
    /// closure or path.
    MalformedArguments(Expected),
    /// The function declares one or more parameters.
    UnsupportedParameters,
    /// The function is `async` and support for that is switched off.
    UnsupportedAsync,
    /// The facility is not among the dependencies of the crate being compiled.
    MissingFacility(Facility),
}

/// What a [`Diagnostic`] holds, as mathematical values.
pub enum DiagnosticView {
    MalformedFunction(Seq<char>),
    MalformedArguments(Expected),
    UnsupportedParameters,
    UnsupportedAsync,
    MissingFacility(Facility),
}

impl View for Diagnostic {
    type V = DiagnosticView;

    open spec fn view(&self) -> DiagnosticView {
        match *self {
            Diagnostic::MalformedFunction(message) => DiagnosticView::MalformedFunction(message@),
            Diagnostic::MalformedArguments(expected) => DiagnosticView::MalformedArguments(
                expected,
            ),
            Diagnostic::UnsupportedParameters => DiagnosticView::UnsupportedParameters,
            Diagnostic::UnsupportedAsync => DiagnosticView::UnsupportedAsync,
            Diagnostic::MissingFacility(facility) => DiagnosticView::MissingFacility(facility),
        }
    }
}

/// The package name under which a facility is published.
pub open spec fn published_name(facility: Facility) -> Seq<char> {
    match facility {
        Facility::LazyAttr => "lazy-attr"@,
        Facility::LazyAttribute => "lazy-attribute"@,
    }
}

/// The part of the input that a diagnostic is anchored to.
pub open spec fn anchor_of(diagnostic: DiagnosticView) -> Anchor {
    match diagnostic {
        DiagnosticView::MalformedFunction(_) => Anchor::Item,
        DiagnosticView::MalformedArguments(_) => Anchor::Arguments,
        DiagnosticView::UnsupportedParameters => Anchor::ParameterList,
        DiagnosticView::UnsupportedAsync => Anchor::AsyncMarker,
        DiagnosticView::MissingFacility(_) => Anchor::FunctionName,
    }
}

/// The text that a diagnostic shows.
pub open spec fn message_of(diagnostic: DiagnosticView) -> Seq<char> {
    match diagnostic {
        DiagnosticView::MalformedFunction(message) => message,
        DiagnosticView::MalformedArguments(Expected::TypeThenComma) => {
            "Expected a type followed by `,` and a closure or path"@
        },
        DiagnosticView::MalformedArguments(Expected::ClosureOrPath) => {
            "Expected closure or path"@
        },
        DiagnosticView::UnsupportedParameters => {
            "Arguments are not supported on lazy functions"@
        },
        DiagnosticView::UnsupportedAsync => {
            "Async functions are only supported when the async feature is enabled"@
        },
        DiagnosticView::MissingFacility(facility) => {
            "Could not find `"@ + published_name(facility) + "` crate in your `Cargo.toml`"@
        },
    }
}

/// A diagnostic as source text: a call of `compile_error` on the diagnostic's
/// message, written as a string literal.
pub open spec fn diagnostic_text(diagnostic: DiagnosticView) -> Seq<char> {
    compile_error_text(quoted(message_of(diagnostic)))
}

/// A call of `compile_error` on a string literal, as source text.
pub open spec fn compile_error_text(literal: Seq<char>) -> Seq<char> {
    ":: core :: compile_error ! { "@ + literal + " }"@
}

/// Writes a call of `compile_error` on a string literal.
pub fn compile_error_of(literal: &str) -> (out: String)
    ensures
        out@ == compile_error_text(literal@),
{
    let mut out = String::from_str(":: core :: compile_error ! { ");
    out.append(literal);
    out.append(" }");
    out
}

impl Facility {
    /// The package name under which the facility is published.
    pub fn published(&self) -> (name: &'static str)
        ensures
            name@ == published_name(*self),
    {
        match self {
            Facility::LazyAttr => "lazy-attr",
            Facility::LazyAttribute => "lazy-attribute",
        }
    }
}

impl Diagnostic {
    /// The part of the input that the diagnostic points at.
    pub fn anchor(&self) -> (anchor: Anchor)
        ensures
            anchor == anchor_of(self@),
    {
        match self {
            Diagnostic::MalformedFunction(_) => Anchor::Item,
            Diagnostic::MalformedArguments(_) => Anchor::Arguments,
            Diagnostic::UnsupportedParameters => Anchor::ParameterList,
            Diagnostic::UnsupportedAsync => Anchor::AsyncMarker,
            Diagnostic::MissingFacility(_) => Anchor::FunctionName,
        }
    }

    /// The text that the diagnostic shows.
    pub fn message(&self) -> (message: String)
        ensures
            message@ == message_of(self@),
    {
        match self {
            Diagnostic::MalformedFunction(message) => message.clone(),
            Diagnostic::MalformedArguments(Expected::TypeThenComma) => String::from_str(
                "Expected a type followed by `,` and a closure or path",
            ),
            Diagnostic::MalformedArguments(Expected::ClosureOrPath) => String::from_str(
                "Expected closure or path",
            ),
            Diagnostic::UnsupportedParameters => String::from_str(
                "Arguments are not supported on lazy functions",
            ),
            Diagnostic::UnsupportedAsync => String::from_str(
                "Async functions are only supported when the async feature is enabled",
            ),
            Diagnostic::MissingFacility(facility) => {
                let mut message = String::from_str("Could not find `");
                message.append(facility.published());
                message.append("` crate in your `Cargo.toml`");
                message
            },
        }
    }

    /// The diagnostic as source text that fails the compilation with the
    /// diagnostic's message.
    pub fn render(&self) -> (out: String)
        ensures
            out@ == diagnostic_text(self@),
    {
        let message = self.message();
        let literal = quote_string(message.as_str());
        compile_error_of(literal.as_str())
    }
}

} // verus!
