//! Small operations on source text that the other modules build on.
use vstd::prelude::*;

verus! {

/// The text of each string of `parts`, in order.
pub open spec fn texts(parts: Seq<String>) -> Seq<Seq<char>> {
    parts.map_values(|part: String| part@)
}

/// The text of an optional string.
pub open spec fn opt_text(part: Option<String>) -> Option<Seq<char>> {
    match part {
        Some(text) => Some(text@),
        None => None,
    }
}

/// The view of a result, taken on either side.
pub open spec fn result_view<T: View, E: View>(result: Result<T, E>) -> Result<T::V, E::V> {
    match result {
        Ok(value) => Ok(value@),
        Err(error) => Err(error@),
    }
}

/// `parts` written one after the other, each followed by a single space.
pub open spec fn spaced(parts: Seq<Seq<char>>) -> Seq<char>
    decreases parts.len(),
{
    if parts.len() == 0 {
        Seq::empty()
    } else {
        spaced(parts.drop_last()) + parts.last() + " "@
    }
}

/// An identifier's name without the `r#` that marks a raw identifier.
pub open spec fn unraw(name: Seq<char>) -> Seq<char> {
    if name.len() >= 2 && name[0] == 'r' && name[1] == '#' {
        name.subrange(2, name.len() as int)
    } else {
        name
    }
}

/// A package name as an identifier: every `-` becomes `_`.
pub open spec fn underscored(name: Seq<char>) -> Seq<char> {
    name.map_values(|c: char| if c == '-' { '_' } else { c })
}

/// Writes the parts one after the other, each followed by a single space.
pub fn join_spaced(parts: &Vec<String>) -> (out: String)
    ensures
        out@ == spaced(texts(parts@)),
{
    let mut out = String::new();
    let mut i: usize = 0;
    while i < parts.len()
        invariant
            i <= parts.len(),
            out@ == spaced(texts(parts@).take(i as int)),
        decreases parts.len() - i,
    {
        out.append(parts[i].as_str());
        out.append(" ");
        proof {
            let next = texts(parts@).take(i + 1);
            assert(next.drop_last() =~= texts(parts@).take(i as int));
            assert(next.last() == parts@[i as int]@);
        }
        i += 1;
    }
    proof {
        assert(texts(parts@).take(parts.len() as int) =~= texts(parts@));
    }
    out
}

/// Drops the `r#` of a raw identifier; any other name is returned as it is.
pub fn strip_raw(name: &str) -> (out: String)
    ensures
        out@ == unraw(name@),
{
    let n: usize = name.unicode_len();
    if n >= 2 && name.get_char(0) == 'r' && name.get_char(1) == '#' {
        String::from_str(name.substring_char(2, n))
    } else {
        String::from_str(name)
    }
}

/// Replaces every `-` of a package name by `_`.
pub fn sanitize(name: &str) -> (out: String)
    ensures
        out@ == underscored(name@),
{
    let n: usize = name.unicode_len();
    let mut out = String::new();
    let mut i: usize = 0;
    while i < n
        invariant
            n == name@.len(),
            i <= n,
            out@ == underscored(name@.take(i as int)),
        decreases n - i,
    {
        let c: char = name.get_char(i);
        if c == '-' {
            out.append("_");
            proof {
                reveal_strlit("_");
                assert("_"@ =~= seq!['_']);
            }
        } else {
            out.append(name.substring_char(i, i + 1));
            assert(name@.subrange(i as int, i + 1) =~= seq![c]);
        }
        assert(underscored(name@.take(i + 1)) =~= underscored(name@.take(i as int)).push(
            if c == '-' { '_' } else { c },
        ));
        i += 1;
    }
    proof {
        assert(name@.take(n as int) =~= name@);
    }
    out
}

} // verus!
