//! The arguments of the attribute: the mode of a rewrite.
use crate::diag::Facility;
use vstd::prelude::*;

verus! {

/// The function that turns the computed value into the cached one.
#[derive(Clone, Debug, PartialEq, Eq)]
pub enum Transform {
    /// A closure written in place, such as `|x| x.field`.
    Closure(String),
    /// The path of a function, such as `some_module::convert`.
    Path(String),
}

/// The arguments of the map attribute: a type, then a `,`, then a transform.
#[derive(Clone, Debug, PartialEq, Eq)]
pub struct MapArgs {
    /// The type of the cached value.
    pub ty: String,
    /// How the cached value is made from what the function computes.
    pub transform: Transform,
}

/// The three spellings of the attribute.
#[derive(Clone, Debug, PartialEq, Eq)]
pub enum LazyArgs {
    /// `lazy`: the computed value is cached as it is.
    Plain,
    /// `lazy_ref`: the computed value is cached as it is.
    Ref,
    /// `lazy_map`: the computed value is transformed, then cached.
    Mapped(MapArgs),
}

/// What a [`Transform`] holds, as mathematical values.
pub enum TransformView {
    Closure(Seq<char>),
    Path(Seq<char>),
}

/// What a [`MapArgs`] holds, as mathematical values.
pub struct MapArgsView {
    pub ty: Seq<char>,
    pub transform: TransformView,
}

/// What a [`LazyArgs`] holds, as mathematical values.
pub enum LazyArgsView {
    Plain,
    Ref,
    Mapped(MapArgsView),
}

impl View for Transform {
    type V = TransformView;

    open spec fn view(&self) -> TransformView {
        match *self {
            Transform::Closure(text) => TransformView::Closure(text@),
            Transform::Path(text) => TransformView::Path(text@),
        }
    }
}

impl View for MapArgs {
    type V = MapArgsView;

    open spec fn view(&self) -> MapArgsView {
        MapArgsView { ty: self.ty@, transform: self.transform@ }
    }
}

impl View for LazyArgs {
    type V = LazyArgsView;

    open spec fn view(&self) -> LazyArgsView {
        match *self {
            LazyArgs::Plain => LazyArgsView::Plain,
            LazyArgs::Ref => LazyArgsView::Ref,
            LazyArgs::Mapped(args) => LazyArgsView::Mapped(args@),
        }
    }
}

/// The facility that an attribute belongs to.
pub open spec fn facility_of(args: LazyArgsView) -> Facility {
    match args {
        LazyArgsView::Plain => Facility::LazyAttr,
        LazyArgsView::Ref => Facility::LazyAttribute,
        LazyArgsView::Mapped(_) => Facility::LazyAttribute,
    }
}

impl LazyArgs {
    /// The facility that the attribute belongs to.
    pub fn facility(&self) -> (facility: Facility)
        ensures
            facility == facility_of(self@),
    {
        match self {
            LazyArgs::Plain => Facility::LazyAttr,
            LazyArgs::Ref => Facility::LazyAttribute,
            LazyArgs::Mapped(_) => Facility::LazyAttribute,
        }
    }
}

} // verus!
