//! Strings as sequences of characters.

use vstd::prelude::*;
use vstd::std_specs::iter::IteratorSpec;

verus! {

/// The characters of an optional string slice.
pub open spec fn slice_text(value: Option<&str>) -> Option<Seq<char>> {
    match value {
        Some(text) => Some(text@),
        None => None,
    }
}

/// The characters of each string of a list.
pub open spec fn texts(list: Seq<String>) -> Seq<Seq<char>> {
    Seq::new(list.len(), |i: int| list[i]@)
}

/// The characters of a string, one by one.
pub fn to_chars(text: &str) -> (chars: Vec<char>)
    ensures
        chars@ == text@,
{
    let mut chars: Vec<char> = Vec::new();
    let mut rest = text.chars();
    loop
        invariant_except_break
            chars@.len() <= text@.len(),
            chars@ == text@.subrange(0, chars@.len() as int),
            rest.remaining() == text@.subrange(chars@.len() as int, text@.len() as int),
        ensures
            chars@ == text@,
        decreases text@.len() - chars@.len(),
    {
        match rest.next() {
            None => {
                assert(chars@.len() == text@.len());
                assert(text@.subrange(0, text@.len() as int) =~= text@);
                break ;
            },
            Some(c) => {
                let ghost before = chars@;
                chars.push(c);
                proof {
                    assert(c == text@[before.len() as int]);
                    assert(chars@ =~= text@.subrange(0, before.len() as int + 1));
                    assert(rest.remaining() =~= text@.subrange(
                        before.len() as int + 1,
                        text@.len() as int,
                    ));
                }
            },
        }
    }
    chars
}

} // verus!
