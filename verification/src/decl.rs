//! The function declaration that a rewrite starts from.
use crate::text::{opt_text, texts};
use vstd::prelude::*;

verus! {

/// A function declaration, each part held as the source text of its tokens.
///
/// Only the parts that the rewrite reads are kept: a declaration's generics,
/// qualifiers other than `async` and calling convention are not.
#[derive(Clone, Debug, PartialEq, Eq)]
pub struct FnDecl {
    /// The attributes above the function, outermost first.
    pub attrs: Vec<String>,
    /// The visibility qualifier; empty for a private function.
    pub vis: String,
    /// Whether the function is marked `async`.
    pub is_async: bool,
    /// The function's name.
    pub name: String,
    /// The number of declared parameters.
    pub parameters: usize,
    /// The declared return type; `None` where the declaration gives none.
    pub output: Option<String>,
    /// The statements of the body, in order.
    pub body: Vec<String>,
}

/// What a [`FnDecl`] holds, as mathematical values.
pub struct FnDeclView {
    pub attrs: Seq<Seq<char>>,
    pub vis: Seq<char>,
    pub is_async: bool,
    pub name: Seq<char>,
    pub parameters: usize,
    pub output: Option<Seq<char>>,
    pub body: Seq<Seq<char>>,
}

impl View for FnDecl {
    type V = FnDeclView;

    open spec fn view(&self) -> FnDeclView {
        FnDeclView {
            attrs: texts(self.attrs@),
            vis: self.vis@,
            is_async: self.is_async,
            name: self.name@,
            parameters: self.parameters,
            output: opt_text(self.output),
            body: texts(self.body@),
        }
    }
}

/// The type that a function returns: the declared one, or the unit type where
/// the declaration gives none.
pub open spec fn original_type(decl: FnDeclView) -> Seq<char> {
    match decl.output {
        Some(ty) => ty,
        None => "()"@,
    }
}

impl FnDecl {
    /// The type that the function returns, the unit type `()` where none is
    /// declared.
    pub fn return_type(&self) -> (ty: String)
        ensures
            ty@ == original_type(self@),
    {
        match &self.output {
            Some(ty) => ty.clone(),
            None => String::from_str("()"),
        }
    }
}

} // verus!
