//! How the generated code names the facility's crate.
use crate::diag::{published_name, Diagnostic, DiagnosticView, Facility};
use crate::text::{result_view, sanitize, underscored};
use vstd::prelude::*;

verus! {

/// What a search for the facility among the dependencies of the crate being
/// compiled came back with.
#[derive(Clone, Debug, PartialEq, Eq)]
pub enum Discovery {
    /// The crate being compiled is the facility itself.
    Itself,
    /// The facility is a dependency, imported under this name.
    Alias(String),
    /// The facility is not among the dependencies.
    NotFound,
}

/// What a [`Discovery`] holds, as mathematical values.
pub enum DiscoveryView {
    Itself,
    Alias(Seq<char>),
    NotFound,
}

impl View for Discovery {
    type V = DiscoveryView;

    open spec fn view(&self) -> DiscoveryView {
        match *self {
            Discovery::Itself => DiscoveryView::Itself,
            Discovery::Alias(name) => DiscoveryView::Alias(name@),
            Discovery::NotFound => DiscoveryView::NotFound,
        }
    }
}

/// The identifier by which generated code names the facility's crate: the
/// facility's own name, as an identifier, inside the facility; elsewhere the
/// name it is imported under. There is none where the facility was not found.
pub open spec fn resolve_spec(facility: Facility, discovery: DiscoveryView) -> Result<
    Seq<char>,
    DiagnosticView,
> {
    match discovery {
        DiscoveryView::Itself => Ok(underscored(published_name(facility))),
        DiscoveryView::Alias(name) => Ok(name),
        DiscoveryView::NotFound => Err(DiagnosticView::MissingFacility(facility)),
    }
}

/// Turns the outcome of the search into the identifier that generated code
/// uses for the facility's crate, or into the diagnostic that names the
/// missing dependency.
pub fn resolve(facility: Facility, discovery: &Discovery) -> (result: Result<String, Diagnostic>)
    ensures
        result_view(result) == resolve_spec(facility, discovery@),
{
    match discovery {
        Discovery::Itself => Ok(sanitize(facility.published())),
        Discovery::Alias(name) => Ok(name.clone()),
        Discovery::NotFound => Err(Diagnostic::MissingFacility(facility)),
    }
}

} // verus!
