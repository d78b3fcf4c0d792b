//! The grammar of the map attribute's arguments: a type, a `,`, then a
//! closure or a path.
use crate::args::{MapArgs, MapArgsView, Transform, TransformView};
use crate::diag::{Diagnostic, DiagnosticView, Expected};
use crate::syntax::{
    is_closure, is_path, is_type, lex, lexed, lexeme_views, reads_as_closure, reads_as_path,
    reads_as_type, Lexeme, LexemeView,
};
use crate::text::result_view;
use vstd::prelude::*;

verus! {

/// What stands between the lexeme at `at` and the one before it: nothing at
/// the front and behind a joint punctuation character, else one space.
pub open spec fn gap(lexemes: Seq<LexemeView>, at: int) -> Seq<char> {
    if 0 < at <= lexemes.len() && !lexemes[at - 1].joint {
        " "@
    } else {
        Seq::empty()
    }
}

/// The source text of a run of lexemes.
pub open spec fn lexemes_text(lexemes: Seq<LexemeView>) -> Seq<char>
    decreases lexemes.len(),
{
    if lexemes.len() == 0 {
        Seq::empty()
    } else {
        lexemes_text(lexemes.drop_last()) + gap(lexemes, lexemes.len() - 1) + lexemes.last().text
    }
}

/// Whether the lexeme at `at` is a `,` with a type in front of it: the place
/// where the arguments divide.
pub open spec fn divides_at(lexemes: Seq<LexemeView>, at: int) -> bool {
    &&& 0 <= at < lexemes.len()
    &&& lexemes[at].text == ","@
    &&& reads_as_type(lexemes_text(lexemes.take(at)))
}

/// The first place at or behind `from` where the arguments divide.
pub open spec fn first_divide(lexemes: Seq<LexemeView>, from: int) -> Option<int>
    decreases lexemes.len() - from,
{
    if from < 0 || from >= lexemes.len() {
        None
    } else if divides_at(lexemes, from) {
        Some(from)
    } else {
        first_divide(lexemes, from + 1)
    }
}

/// What a text is as a transform, given whether it reads as a closure and
/// whether it reads as a path. A closure is tried first.
pub open spec fn transform_spec(text: Seq<char>, closure: bool, path: bool) -> Result<
    TransformView,
    DiagnosticView,
> {
    if closure {
        Ok(TransformView::Closure(text))
    } else if path {
        Ok(TransformView::Path(text))
    } else {
        Err(DiagnosticView::MalformedArguments(Expected::ClosureOrPath))
    }
}

/// Whether arguments hold what the grammar asks for: a text that reads as a
/// type, and a transform that reads as what it is held as. A text is held as a
/// path only where it does not read as a closure.
pub open spec fn well_formed(args: MapArgsView) -> bool {
    &&& reads_as_type(args.ty)
    &&& match args.transform {
        TransformView::Closure(text) => reads_as_closure(text),
        TransformView::Path(text) => reads_as_path(text) && !reads_as_closure(text),
    }
}

/// The arguments that a list of lexemes stands for: the type in front of the
/// first dividing `,` and the transform behind it.
pub open spec fn map_args_of(lexemes: Seq<LexemeView>) -> Result<MapArgsView, DiagnosticView> {
    match first_divide(lexemes, 0) {
        None => Err(DiagnosticView::MalformedArguments(Expected::TypeThenComma)),
        Some(at) => {
            let rest = lexemes_text(lexemes.skip(at + 1));
            match transform_spec(rest, reads_as_closure(rest), reads_as_path(rest)) {
                Ok(transform) => Ok(
                    MapArgsView { ty: lexemes_text(lexemes.take(at)), transform },
                ),
                Err(diagnostic) => Err(diagnostic),
            }
        },
    }
}

/// The arguments that a source text stands for: those of the lexemes that it
/// is lexed into. A text that is no sequence of tokens has no type at its
/// front.
pub open spec fn map_args_spec(source: Seq<char>) -> Result<MapArgsView, DiagnosticView> {
    match lexed(source) {
        None => Err(DiagnosticView::MalformedArguments(Expected::TypeThenComma)),
        Some(lexemes) => map_args_of(lexemes),
    }
}

/// The first dividing place is a dividing place, and no place before it is
/// one.
pub proof fn lemma_first_divide_is_least(lexemes: Seq<LexemeView>, from: int)
    requires
        0 <= from,
    ensures
        match first_divide(lexemes, from) {
            Some(at) => from <= at && divides_at(lexemes, at) && forall|k: int|
                from <= k < at ==> !divides_at(lexemes, k),
            None => forall|k: int| from <= k ==> !divides_at(lexemes, k),
        },
    decreases lexemes.len() - from,
{
    if from < lexemes.len() && !divides_at(lexemes, from) {
        lemma_first_divide_is_least(lexemes, from + 1);
    }
}

/// The arguments that a list of lexemes stands for, where it stands for any,
/// hold what the grammar asks for.
pub proof fn lemma_map_args_are_well_formed(lexemes: Seq<LexemeView>)
    ensures
        map_args_of(lexemes) matches Ok(args) ==> well_formed(args),
{
    lemma_first_divide_is_least(lexemes, 0);
}

/// Appends the text of the lexeme at `at` to the text of those in front of it.
fn push_lexeme(out: &mut String, lexemes: &Vec<Lexeme>, start: usize, at: usize)
    requires
        start <= at < lexemes.len(),
        old(out)@ == lexemes_text(lexeme_views(lexemes@).subrange(start as int, at as int)),
    ensures
        final(out)@ == lexemes_text(lexeme_views(lexemes@).subrange(start as int, at + 1)),
{
    let ghost before = lexeme_views(lexemes@).subrange(start as int, at as int);
    let ghost after = lexeme_views(lexemes@).subrange(start as int, at + 1);
    proof {
        assert(after.drop_last() =~= before);
        assert(after.last() == lexemes@[at as int]@);
    }
    if at > start && !lexemes[at - 1].joint {
        out.append(" ");
        proof {
            assert(after[after.len() - 2] == lexemes@[at - 1]@);
        }
    } else {
        proof {
            if at > start {
                assert(after[after.len() - 2] == lexemes@[at - 1]@);
            }
            assert(out@ + Seq::<char>::empty() =~= out@);
        }
    }
    out.append(lexemes[at].text.as_str());
}

/// Decides what a text is as a transform from the two answers of the parser.
pub fn classify_transform(text: String, closure: bool, path: bool) -> (result: Result<
    Transform,
    Diagnostic,
>)
    ensures
        result_view(result) == transform_spec(text@, closure, path),
{
    if closure {
        Ok(Transform::Closure(text))
    } else if path {
        Ok(Transform::Path(text))
    } else {
        Err(Diagnostic::MalformedArguments(Expected::ClosureOrPath))
    }
}

/// Reads a text as a transform: as a closure if the parser takes it for one,
/// else as a path if the parser takes it for one.
pub fn read_transform(text: String) -> (result: Result<Transform, Diagnostic>)
    ensures
        result_view(result) == transform_spec(
            text@,
            reads_as_closure(text@),
            reads_as_path(text@),
        ),
{
    let closure = is_closure(text.as_str());
    let path = if closure {
        false
    } else {
        is_path(text.as_str())
    };
    classify_transform(text, closure, path)
}

/// Reads a list of lexemes as the arguments of the map attribute.
pub fn split_map_args(lexemes: &Vec<Lexeme>) -> (result: Result<MapArgs, Diagnostic>)
    ensures
        result_view(result) == map_args_of(lexeme_views(lexemes@)),
        result matches Ok(args) ==> well_formed(args@),
{
    let ghost views = lexeme_views(lexemes@);
    proof {
        lemma_map_args_are_well_formed(views);
    }
    let comma = String::from_str(",");
    let mut front = String::new();
    let mut at: usize = 0;
    while at < lexemes.len()
        invariant
            at <= lexemes.len(),
            views == lexeme_views(lexemes@),
            comma@ == ","@,
            front@ == lexemes_text(views.subrange(0, at as int)),
            first_divide(views, 0) == first_divide(views, at as int),
        decreases lexemes.len() - at,
    {
        proof {
            assert(views.subrange(0, at as int) =~= views.take(at as int));
            assert(views[at as int] == lexemes@[at as int]@);
        }
        if lexemes[at].text == comma && is_type(front.as_str()) {
            let mut rest = String::new();
            let mut next: usize = at + 1;
            proof {
                assert(views.subrange(at + 1, next as int) =~= Seq::<LexemeView>::empty());
            }
            while next < lexemes.len()
                invariant
                    at < next <= lexemes.len(),
                    views == lexeme_views(lexemes@),
                    rest@ == lexemes_text(views.subrange(at + 1, next as int)),
                decreases lexemes.len() - next,
            {
                push_lexeme(&mut rest, lexemes, at + 1, next);
                next += 1;
            }
            proof {
                assert(views.subrange(at + 1, lexemes.len() as int) =~= views.skip(at + 1));
            }
            return match read_transform(rest) {
                Ok(transform) => Ok(MapArgs { ty: front, transform }),
                Err(diagnostic) => Err(diagnostic),
            };
        }
        push_lexeme(&mut front, lexemes, 0, at);
        at += 1;
    }
    Err(Diagnostic::MalformedArguments(Expected::TypeThenComma))
}

/// Reads a source text as the arguments of the map attribute: a type, a `,`,
/// then a closure or a path.
pub fn parse_map_args(source: &str) -> (result: Result<MapArgs, Diagnostic>)
    ensures
        result_view(result) == map_args_spec(source@),
        result matches Ok(args) ==> well_formed(args@),
{
    match lex(source) {
        None => Err(Diagnostic::MalformedArguments(Expected::TypeThenComma)),
        Some(lexemes) => split_map_args(&lexemes),
    }
}

} // verus!
