//! The generated fragment: what it holds and how it is written out.
use crate::args::{LazyArgs, LazyArgsView, MapArgs, Transform, TransformView};
use crate::decl::{original_type, FnDecl, FnDeclView};
use crate::text::{strip_raw, texts, unraw};
use vstd::prelude::*;

verus! {

/// The hidden declaration of the cell that caches the value.
#[derive(Clone, Debug, PartialEq, Eq)]
pub struct Storage {
    /// The cell's name, derived from the function's.
    pub name: String,
    /// The identifier by which the facility's crate is named.
    pub facility: String,
    /// Whether the cell is the one for `async` initialisers.
    pub is_async: bool,
    /// The type of the cached value.
    pub cached_type: String,
}

/// The function that takes the place of the annotated one. It has no
/// parameters and returns a `'static` reference to the cached value.
#[derive(Clone, Debug, PartialEq, Eq)]
pub struct Replacement {
    /// The attributes of the annotated function.
    pub attrs: Vec<String>,
    /// The visibility of the annotated function.
    pub vis: String,
    /// Whether the function is `async`.
    pub is_async: bool,
    /// The name of the annotated function.
    pub name: String,
    /// The type of the cached value, to which the function returns a reference.
    pub cached_type: String,
    /// The name of the cell that the body reads.
    pub storage: String,
    /// The type of the value that the annotated function's body computes.
    pub original_type: String,
    /// The statements of the annotated function's body.
    pub stmts: Vec<String>,
    /// The function value that makes the cached value from the computed one.
    pub transform: String,
}

/// What a rewrite generates: the cell, then the function that reads it.
#[derive(Clone, Debug, PartialEq, Eq)]
pub struct Fragment {
    pub storage: Storage,
    pub function: Replacement,
}

/// What a [`Storage`] holds, as mathematical values.
pub struct StorageView {
    pub name: Seq<char>,
    pub facility: Seq<char>,
    pub is_async: bool,
    pub cached_type: Seq<char>,
}

/// What a [`Replacement`] holds, as mathematical values.
pub struct ReplacementView {
    pub attrs: Seq<Seq<char>>,
    pub vis: Seq<char>,
    pub is_async: bool,
    pub name: Seq<char>,
    pub cached_type: Seq<char>,
    pub storage: Seq<char>,
    pub original_type: Seq<char>,
    pub stmts: Seq<Seq<char>>,
    pub transform: Seq<char>,
}

/// What a [`Fragment`] holds, as mathematical values.
pub struct FragmentView {
    pub storage: StorageView,
    pub function: ReplacementView,
}

impl View for Storage {
    type V = StorageView;

    open spec fn view(&self) -> StorageView {
        StorageView {
            name: self.name@,
            facility: self.facility@,
            is_async: self.is_async,
            cached_type: self.cached_type@,
        }
    }
}

impl View for Replacement {
    type V = ReplacementView;

    open spec fn view(&self) -> ReplacementView {
        ReplacementView {
            attrs: texts(self.attrs@),
            vis: self.vis@,
            is_async: self.is_async,
            name: self.name@,
            cached_type: self.cached_type@,
            storage: self.storage@,
            original_type: self.original_type@,
            stmts: texts(self.stmts@),
            transform: self.transform@,
        }
    }
}

impl View for Fragment {
    type V = FragmentView;

    open spec fn view(&self) -> FragmentView {
        FragmentView { storage: self.storage@, function: self.function@ }
    }
}

/// The name of the cell that caches the value of the function `name`: a fixed
/// prefix, then the function's name without the mark of a raw identifier.
pub open spec fn storage_name(name: Seq<char>) -> Seq<char> {
    "__lazy_static_"@ + unraw(name)
}

/// The type of the cached value: the map attribute's type, else the type that
/// the function returns.
pub open spec fn cached_type(args: LazyArgsView, decl: FnDeclView) -> Seq<char> {
    match args {
        LazyArgsView::Mapped(map) => map.ty,
        _ => original_type(decl),
    }
}

/// The function value that makes the cached value from the computed one: the
/// closure as it was written, a closure that calls the path on its one
/// argument, or the identity. The argument's name begins with `__lazy_`, as
/// every name does that the generated code brings in.
pub open spec fn value_production(args: LazyArgsView) -> Seq<char> {
    match args {
        LazyArgsView::Mapped(map) => match map.transform {
            TransformView::Closure(closure) => closure,
            TransformView::Path(path) => "|__lazy_value| "@ + path + " (__lazy_value)"@,
        },
        _ => "|__lazy_value| __lazy_value"@,
    }
}

/// The fragment generated for a declaration, in a given mode and with a given
/// name for the facility's crate.
pub open spec fn emit_spec(args: LazyArgsView, decl: FnDeclView, facility: Seq<char>)
    -> FragmentView {
    FragmentView {
        storage: StorageView {
            name: storage_name(decl.name),
            facility,
            is_async: decl.is_async,
            cached_type: cached_type(args, decl),
        },
        function: ReplacementView {
            attrs: decl.attrs,
            vis: decl.vis,
            is_async: decl.is_async,
            name: decl.name,
            cached_type: cached_type(args, decl),
            storage: storage_name(decl.name),
            original_type: original_type(decl),
            stmts: decl.body,
            transform: value_production(args),
        },
    }
}

/// Whether the two halves of a fragment belong together: the function reads
/// the cell that is declared, and both agree on the cached type and on
/// whether they are `async`.
pub open spec fn coherent(fragment: FragmentView) -> bool {
    &&& fragment.function.storage == fragment.storage.name
    &&& fragment.function.cached_type == fragment.storage.cached_type
    &&& fragment.function.is_async == fragment.storage.is_async
}

/// The name of the cell that caches the value of the function `name`.
pub fn storage_name_of(name: &str) -> (out: String)
    ensures
        out@ == storage_name(name@),
{
    let mut out = String::from_str("__lazy_static_");
    let bare = strip_raw(name);
    out.append(bare.as_str());
    out
}

/// The function value that makes the cached value from the computed one.
pub fn value_production_of(args: &LazyArgs) -> (out: String)
    ensures
        out@ == value_production(args@),
{
    match args {
        LazyArgs::Mapped(MapArgs { transform: Transform::Closure(closure), .. }) => {
            closure.clone()
        },
        LazyArgs::Mapped(MapArgs { transform: Transform::Path(path), .. }) => {
            let mut out = String::from_str("|__lazy_value| ");
            out.append(path.as_str());
            out.append(" (__lazy_value)");
            out
        },
        _ => String::from_str("|__lazy_value| __lazy_value"),
    }
}

/// Builds the fragment for a declaration without parameters.
pub fn emit(args: &LazyArgs, decl: FnDecl, facility: String) -> (fragment: Fragment)
    requires
        decl@.parameters == 0,
    ensures
        fragment@ == emit_spec(args@, decl@, facility@),
        coherent(fragment@),
{
    let original = decl.return_type();
    let cached = match args {
        LazyArgs::Mapped(map) => map.ty.clone(),
        _ => original.clone(),
    };
    let storage = storage_name_of(decl.name.as_str());
    let transform = value_production_of(args);
    Fragment {
        storage: Storage {
            name: storage.clone(),
            facility,
            is_async: decl.is_async,
            cached_type: cached.clone(),
        },
        function: Replacement {
            attrs: decl.attrs,
            vis: decl.vis,
            is_async: decl.is_async,
            name: decl.name,
            cached_type: cached,
            storage,
            original_type: original,
            stmts: decl.body,
            transform,
        },
    }
}

} // verus!
