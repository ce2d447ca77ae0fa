//! Patterns over event types.
//!
//! A pattern that ends in `.*` matches every text that begins with what
//! stands before the `.*`. Any other pattern that holds a `*` is a glob: its
//! literal parts, the stretches between the stars, must occur in the text in
//! order and without overlap, the first of them at the start of the text
//! unless the pattern begins with a star. A pattern without a star matches
//! the text equal to it.

use crate::text::{
    chars_eq, copy_range, find_from, first_of, lemma_first_of, matches_at, occurs_at, scan_for,
};
use vstd::prelude::*;

verus! {

/// The index of the first `*` in `s`, or the length of `s` where it has none.
pub open spec fn first_star(s: Seq<char>) -> int {
    first_of(s, '*')
}

/// Whether the literal parts of the glob `pattern` occur in `text` in order
/// and without overlap. With `anchored`, the first part stands at the start.
pub open spec fn glob_embeds(pattern: Seq<char>, text: Seq<char>, anchored: bool) -> bool
    decreases pattern.len(),
{
    let k = first_star(pattern);
    let part = pattern.take(k);
    exists|at: int|
        {
            &&& #[trigger] occurs_at(text, part, at)
            &&& anchored && part.len() > 0 ==> at == 0
            &&& 0 <= k < pattern.len() ==> glob_embeds(
                pattern.skip(k + 1),
                text.skip(at + part.len()),
                false,
            )
        }
}

/// Whether `pattern` ends in `.*`.
pub open spec fn is_prefix_pattern(pattern: Seq<char>) -> bool {
    pattern.len() >= 2 && pattern[pattern.len() - 2] == '.' && pattern[pattern.len() - 1] == '*'
}

/// Whether `pattern` matches `text`.
pub open spec fn pattern_matches(pattern: Seq<char>, text: Seq<char>) -> bool {
    if is_prefix_pattern(pattern) {
        occurs_at(text, pattern.take(pattern.len() - 2), 0)
    } else if first_star(pattern) < pattern.len() {
        glob_embeds(pattern, text, true)
    } else {
        text == pattern
    }
}

/// What embeds in a later stretch of a text embeds in an earlier one: the
/// parts of an unanchored glob may stand anywhere.
pub proof fn lemma_glob_embeds_earlier(pattern: Seq<char>, text: Seq<char>, a: int, b: int)
    requires
        0 <= a <= b <= text.len(),
        glob_embeds(pattern, text.skip(b), false),
    ensures
        glob_embeds(pattern, text.skip(a), false),
{
    let k = first_star(pattern);
    let part = pattern.take(k);
    let at = choose|at: int|
        {
            &&& #[trigger] occurs_at(text.skip(b), part, at)
            &&& 0 <= k < pattern.len() ==> glob_embeds(
                pattern.skip(k + 1),
                text.skip(b).skip(at + part.len()),
                false,
            )
        };
    let moved = at + (b - a);
    assert(text.skip(a).subrange(moved, moved + part.len()) =~= text.skip(b).subrange(
        at,
        at + part.len(),
    ));
    assert(occurs_at(text.skip(a), part, moved));
    assert(text.skip(a).skip(moved + part.len()) =~= text.skip(b).skip(at + part.len()));
}

/// Whether `pattern` matches `text`, both given by their characters.
pub fn pattern_matches_chars(pattern: &Vec<char>, text: &Vec<char>) -> (b: bool)
    ensures
        b == pattern_matches(pattern@, text@),
{
    let n = pattern.len();
    if n >= 2 && pattern[n - 2] == '.' && pattern[n - 1] == '*' {
        let prefix = copy_range(pattern, 0, n - 2);
        return matches_at(text, &prefix, 0);
    }
    let star = scan_for(pattern, 0, '*');
    proof {
        assert(pattern@.skip(0) =~= pattern@);
    }
    if star < n {
        proof {
            assert(text@.skip(0) =~= text@);
        }
        glob_from(pattern, text)
    } else {
        chars_eq(text, pattern)
    }
}

/// Matches a glob part by part, taking for each part its leftmost occurrence
/// after the part before.
fn glob_from(pattern: &Vec<char>, text: &Vec<char>) -> (b: bool)
    ensures
        b == glob_embeds(pattern@, text@, true),
{
    let mut p: usize = 0;
    let mut pos: usize = 0;
    let mut anchored: bool = true;
    proof {
        assert(pattern@.skip(0) =~= pattern@);
        assert(text@.skip(0) =~= text@);
    }
    loop
        invariant
            p <= pattern@.len(),
            pos <= text@.len(),
            glob_embeds(pattern@, text@, true) == glob_embeds(
                pattern@.skip(p as int),
                text@.skip(pos as int),
                anchored,
            ),
        decreases pattern@.len() - p,
    {
        let k = scan_for(pattern, p, '*');
        let part = copy_range(pattern, p, k);
        let ghost here = pattern@.skip(p as int);
        let ghost rest = text@.skip(pos as int);
        proof {
            assert(here.take(k - p) =~= part@);
            lemma_first_of(here, '*');
            assert(first_star(here) == k - p);
        }
        let mut next: usize = pos;
        if part.len() > 0 {
            match find_from(text, &part, pos) {
                None => {
                    proof {
                        assert forall|at: int| !occurs_at(rest, part@, at) by {
                            if occurs_at(rest, part@, at) {
                                assert(text@.subrange(pos + at, pos + at + part@.len())
                                    =~= rest.subrange(at, at + part@.len()));
                                assert(occurs_at(text@, part@, pos + at));
                            }
                        }
                    }
                    return false;
                },
                Some(found) => {
                    proof {
                        assert(rest.subrange(found - pos, found - pos + part@.len())
                            =~= text@.subrange(found as int, found + part@.len()));
                        assert(occurs_at(rest, part@, found - pos));
                        assert forall|at: int| occurs_at(rest, part@, at) implies at >= found
                            - pos by {
                            assert(text@.subrange(pos + at, pos + at + part@.len())
                                =~= rest.subrange(at, at + part@.len()));
                            assert(occurs_at(text@, part@, pos + at));
                        }
                    }
                    if anchored && found != pos {
                        return false;
                    }
                    assert(found + part@.len() <= text.len());
                    next = found + part.len();
                },
            }
        } else {
            proof {
                assert(rest.subrange(0, 0) =~= part@);
                assert(occurs_at(rest, part@, 0));
            }
        }
        if k >= pattern.len() {
            proof {
                assert(occurs_at(rest, part@, next - part@.len() - pos));
            }
            return true;
        }
        proof {
            let tail = here.skip(k - p + 1);
            assert(tail =~= pattern@.skip(k + 1));
            let after = text@.skip(next as int);
            // The leftmost occurrence serves as well as any other.
            if glob_embeds(here, rest, anchored) {
                let at = choose|at: int|
                    {
                        &&& #[trigger] occurs_at(rest, part@, at)
                        &&& anchored && part@.len() > 0 ==> at == 0
                        &&& glob_embeds(tail, rest.skip(at + part@.len()), false)
                    };
                assert(rest.skip(at + part@.len()) =~= text@.skip(pos + at + part@.len()));
                lemma_glob_embeds_earlier(tail, text@, next as int, pos + at + part@.len());
            }
            if glob_embeds(tail, after, false) {
                let at = next - part@.len() - pos;
                assert(occurs_at(rest, part@, at));
                assert(rest.skip(at + part@.len()) =~= after);
            }
        }
        p = k + 1;
        pos = next;
        anchored = false;
    }
}

} // verus!
