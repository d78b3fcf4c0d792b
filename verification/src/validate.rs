//! The shapes of function that can be rewritten.
use crate::decl::{FnDecl, FnDeclView};
use crate::diag::{Diagnostic, DiagnosticView};
use crate::text::result_view;
use vstd::prelude::*;

verus! {

/// The verdict on a declaration's shape. Parameters are refused first; an
/// `async` function is refused only while support for it is switched off.
pub open spec fn validate_spec(decl: FnDeclView, async_support: bool) -> Result<
    (),
    DiagnosticView,
> {
    if decl.parameters > 0 {
        Err(DiagnosticView::UnsupportedParameters)
    } else if decl.is_async && !async_support {
        Err(DiagnosticView::UnsupportedAsync)
    } else {
        Ok(())
    }
}

/// Checks that a declaration has a shape that can be rewritten.
pub fn validate(decl: &FnDecl, async_support: bool) -> (result: Result<(), Diagnostic>)
    ensures
        result_view(result) == validate_spec(decl@, async_support),
{
    if decl.parameters > 0 {
        Err(Diagnostic::UnsupportedParameters)
    } else if decl.is_async && !async_support {
        Err(Diagnostic::UnsupportedAsync)
    } else {
        Ok(())
    }
}

} // verus!
