//! Writing a generated fragment out as source text.
use crate::emit::{Fragment, FragmentView, Replacement, ReplacementView, Storage, StorageView};
use crate::text::{join_spaced, spaced};
use vstd::prelude::*;

verus! {

/// The path of the cell type: the synchronous cell, or the one for `async`
/// initialisers, reached through the facility's crate.
pub open spec fn cell_path(facility: Seq<char>, is_async: bool) -> Seq<char> {
    if is_async {
        facility + " :: __internal :: async_once_cell :: OnceCell"@
    } else {
        facility + " :: __internal :: once_cell :: sync :: OnceCell"@
    }
}

/// The declaration of the cell: a private `static`, typed by the cached type
/// and created empty.
pub open spec fn storage_text(storage: StorageView) -> Seq<char> {
    "#[allow(non_upper_case_globals)] static "@ + storage.name + " : "@ + cell_path(
        storage.facility,
        storage.is_async,
    ) + " < "@ + storage.cached_type + " > = "@ + cell_path(storage.facility, storage.is_async)
        + " :: new () ;"@
}

/// The expression that runs the statements of the original body and yields
/// the value they compute.
pub open spec fn computed_text(function: ReplacementView) -> Seq<char> {
    if function.is_async {
        "(async move { "@ + spaced(function.stmts) + "}) . await"@
    } else {
        "(|| -> "@ + function.original_type + " { "@ + spaced(function.stmts) + "}) ()"@
    }
}

/// The initialiser of the cell: it computes the original value, then applies
/// the transform to it. The value and the transform are bound in one `let`, so
/// that neither the statements nor the transform are read where a name of the
/// generated code is in scope; the transform is bound to the type of a
/// function from the original type to the cached one.
pub open spec fn initialiser_text(function: ReplacementView) -> Seq<char> {
    "let (__lazy_value , __lazy_transform) : ("@ + function.original_type + " , fn ("@
        + function.original_type + ") -> "@ + function.cached_type + ") = ("@ + computed_text(
        function,
    ) + " , "@ + function.transform + ") ; __lazy_transform (__lazy_value)"@
}

/// The body of the replacement: the cell's value, initialised on first use.
/// An `async` replacement hands the cell an `async` block and awaits the cell.
pub open spec fn body_text(function: ReplacementView) -> Seq<char> {
    if function.is_async {
        function.storage + " . get_or_init (async move { "@ + initialiser_text(function)
            + " }) . await"@
    } else {
        function.storage + " . get_or_init (|| { "@ + initialiser_text(function) + " })"@
    }
}

/// The declaration of the replacement: the attributes, visibility, `async`
/// marker and name of the original, no parameters, and a `'static` reference
/// to the cached type as the return type.
pub open spec fn function_text(function: ReplacementView) -> Seq<char> {
    spaced(function.attrs) + function.vis + (if function.is_async {
        " async fn "@
    } else {
        " fn "@
    }) + function.name + " () -> & 'static "@ + function.cached_type + " { "@ + body_text(
        function,
    ) + " }"@
}

/// The fragment as source text: the cell's declaration, then the replacement.
pub open spec fn fragment_text(fragment: FragmentView) -> Seq<char> {
    storage_text(fragment.storage) + " "@ + function_text(fragment.function)
}

fn cell_path_of(facility: &str, is_async: bool) -> (out: String)
    ensures
        out@ == cell_path(facility@, is_async),
{
    let mut out = String::from_str(facility);
    if is_async {
        out.append(" :: __internal :: async_once_cell :: OnceCell");
    } else {
        out.append(" :: __internal :: once_cell :: sync :: OnceCell");
    }
    out
}

fn computed_of(function: &Replacement) -> (out: String)
    ensures
        out@ == computed_text(function@),
{
    let stmts = join_spaced(&function.stmts);
    if function.is_async {
        let mut out = String::from_str("(async move { ");
        out.append(stmts.as_str());
        out.append("}) . await");
        out
    } else {
        let mut out = String::from_str("(|| -> ");
        out.append(function.original_type.as_str());
        out.append(" { ");
        out.append(stmts.as_str());
        out.append("}) ()");
        out
    }
}

fn initialiser_of(function: &Replacement) -> (out: String)
    ensures
        out@ == initialiser_text(function@),
{
    let computed = computed_of(function);
    let mut out = String::from_str("let (__lazy_value , __lazy_transform) : (");
    out.append(function.original_type.as_str());
    out.append(" , fn (");
    out.append(function.original_type.as_str());
    out.append(") -> ");
    out.append(function.cached_type.as_str());
    out.append(") = (");
    out.append(computed.as_str());
    out.append(" , ");
    out.append(function.transform.as_str());
    out.append(") ; __lazy_transform (__lazy_value)");
    out
}

fn body_of(function: &Replacement) -> (out: String)
    ensures
        out@ == body_text(function@),
{
    let initialiser = initialiser_of(function);
    let mut out = function.storage.clone();
    if function.is_async {
        out.append(" . get_or_init (async move { ");
        out.append(initialiser.as_str());
        out.append(" }) . await");
    } else {
        out.append(" . get_or_init (|| { ");
        out.append(initialiser.as_str());
        out.append(" })");
    }
    out
}

impl Storage {
    /// The cell's declaration as source text.
    pub fn render(&self) -> (out: String)
        ensures
            out@ == storage_text(self@),
    {
        let cell = cell_path_of(self.facility.as_str(), self.is_async);
        let mut out = String::from_str("#[allow(non_upper_case_globals)] static ");
        out.append(self.name.as_str());
        out.append(" : ");
        out.append(cell.as_str());
        out.append(" < ");
        out.append(self.cached_type.as_str());
        out.append(" > = ");
        out.append(cell.as_str());
        out.append(" :: new () ;");
        out
    }
}

impl Replacement {
    /// The replacement's declaration as source text.
    pub fn render(&self) -> (out: String)
        ensures
            out@ == function_text(self@),
    {
        let body = body_of(self);
        let mut out = join_spaced(&self.attrs);
        out.append(self.vis.as_str());
        if self.is_async {
            out.append(" async fn ");
        } else {
            out.append(" fn ");
        }
        out.append(self.name.as_str());
        out.append(" () -> & 'static ");
        out.append(self.cached_type.as_str());
        out.append(" { ");
        out.append(body.as_str());
        out.append(" }");
        out
    }
}

impl Fragment {
    /// The fragment as source text: the cell's declaration, then the
    /// replacement.
    pub fn render(&self) -> (out: String)
        ensures
            out@ == fragment_text(self@),
    {
        let function = self.function.render();
        let mut out = self.storage.render();
        out.append(" ");
        out.append(function.as_str());
        out
    }
}

} // verus!
