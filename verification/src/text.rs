//! Plain-text search and substitution over strings.
//!
//! The template engine performs literal token replacement, so everything
//! here is defined over sequences of characters: an occurrence of a pattern,
//! the leftmost occurrence from a starting point, and left-to-right
//! replacement of every occurrence.

use vstd::prelude::*;

verus! {

/// The pattern `pat` occurs in `text` at position `i`.
pub open spec fn match_at(text: Seq<char>, pat: Seq<char>, i: int) -> bool {
    0 <= i && i + pat.len() <= text.len() && text.subrange(i, i + pat.len() as int) == pat
}

/// The position of the leftmost occurrence of `pat` in `text` at or after
/// `start`, if there is one.
pub open spec fn find_from_spec(text: Seq<char>, pat: Seq<char>, start: int) -> Option<int>
    decreases text.len() - start,
{
    if start < 0 || start + pat.len() > text.len() {
        None
    } else if pat.len() == 0 || match_at(text, pat, start) {
        Some(start)
    } else {
        find_from_spec(text, pat, start + 1)
    }
}

/// `text` with every occurrence of `pat` replaced by `to`, scanning left to
/// right and resuming after each replacement.  An empty pattern matches
/// nowhere and leaves the text unchanged.
pub open spec fn replace_spec(text: Seq<char>, pat: Seq<char>, to: Seq<char>) -> Seq<char>
    decreases text.len(),
{
    if pat.len() == 0 || text.len() < pat.len() {
        text
    } else if text.subrange(0, pat.len() as int) == pat {
        to + replace_spec(text.skip(pat.len() as int), pat, to)
    } else {
        seq![text[0]] + replace_spec(text.skip(1), pat, to)
    }
}

/// Whether `pat` matches `text` at position `i`.
pub fn match_at_exec(text: &str, pat: &str, i: usize) -> (r: bool)
    requires
        i + pat@.len() <= text@.len(),
    ensures
        r == match_at(text@, pat@, i as int),
{
    let text_len = text.unicode_len();
    let pat_len = pat.unicode_len();
    let mut j: usize = 0;
    while j < pat_len
        invariant
            0 <= j <= pat_len,
            pat_len == pat@.len(),
            text_len == text@.len(),
            i + pat@.len() <= text@.len(),
            forall|k: int| 0 <= k < j ==> text@[i + k] == pat@[k],
        decreases pat_len - j,
    {
        if text.get_char(i + j) != pat.get_char(j) {
            assert(text@.subrange(i as int, i + pat@.len() as int) != pat@) by {
                assert(text@.subrange(i as int, i + pat@.len() as int)[j as int] != pat@[j as int]);
            }
            return false;
        }
        j = j + 1;
    }
    assert(text@.subrange(i as int, i + pat@.len() as int) =~= pat@);
    true
}

/// The leftmost occurrence of `pat` in `text` at or after `start`.
pub fn find_from(text: &str, pat: &str, start: usize) -> (r: Option<usize>)
    ensures
        match r {
            Some(i) => {
                &&& start <= i
                &&& match_at(text@, pat@, i as int)
                &&& find_from_spec(text@, pat@, start as int) == Some(i as int)
            },
            None => find_from_spec(text@, pat@, start as int) is None,
        },
{
    let text_len = text.unicode_len();
    let pat_len = pat.unicode_len();
    if pat_len > text_len || start > text_len - pat_len {
        return None;
    }
    if pat_len == 0 {
        proof {
            assert(text@.subrange(start as int, start as int) =~= pat@);
        }
        return Some(start);
    }
    let mut i: usize = start;
    while pat_len <= text_len - i
        invariant
            start <= i,
            i <= text_len,
            text_len == text@.len(),
            pat_len == pat@.len(),
            1 <= pat_len <= text_len,
            find_from_spec(text@, pat@, start as int) == find_from_spec(text@, pat@, i as int),
        decreases text_len - i,
    {
        if match_at_exec(text, pat, i) {
            return Some(i);
        }
        i = i + 1;
    }
    None
}

/// `text` with every occurrence of `pat` replaced by `to`.
pub fn replace_all(text: &str, pat: &str, to: &str) -> (r: String)
    ensures
        r@ == replace_spec(text@, pat@, to@),
{
    let text_len = text.unicode_len();
    let pat_len = pat.unicode_len();
    if pat_len == 0 {
        return text.to_owned();
    }
    let mut out = String::new();
    proof {
        assert(text@.skip(0) =~= text@);
        assert(Seq::<char>::empty() + replace_spec(text@, pat@, to@) =~= replace_spec(
            text@,
            pat@,
            to@,
        ));
    }
    let mut i: usize = 0;
    while i < text_len
        invariant
            0 <= i <= text_len,
            text_len == text@.len(),
            pat_len == pat@.len(),
            pat_len >= 1,
            replace_spec(text@, pat@, to@) == out@ + replace_spec(
                text@.skip(i as int),
                pat@,
                to@,
            ),
        decreases text_len - i,
    {
        let ghost rest = text@.skip(i as int);
        if pat_len <= text_len - i && match_at_exec(text, pat, i) {
            proof {
                assert(rest.subrange(0, pat@.len() as int) =~= text@.subrange(
                    i as int,
                    i + pat@.len() as int,
                ));
                assert(rest.skip(pat@.len() as int) =~= text@.skip(i + pat@.len()));
                assert(replace_spec(rest, pat@, to@) == to@ + replace_spec(
                    text@.skip(i + pat@.len()),
                    pat@,
                    to@,
                ));
                assert((out@ + to@) + replace_spec(text@.skip(i + pat@.len()), pat@, to@) =~= out@
                    + (to@ + replace_spec(text@.skip(i + pat@.len()), pat@, to@)));
            }
            out.append(to);
            i = i + pat_len;
        } else {
            proof {
                if pat_len <= text_len - i {
                    assert(rest.subrange(0, pat@.len() as int) =~= text@.subrange(
                        i as int,
                        i + pat@.len() as int,
                    ));
                    assert(rest.subrange(0, pat@.len() as int) != pat@);
                } else {
                    assert(rest.len() < pat@.len());
                }
                assert(rest.skip(1) =~= text@.skip(i + 1));
                if rest.len() < pat@.len() {
                    assert(replace_spec(rest, pat@, to@) == rest);
                    assert(replace_spec(text@.skip(i + 1), pat@, to@) == text@.skip(i + 1));
                    assert(rest =~= seq![text@[i as int]] + text@.skip(i + 1));
                } else {
                    assert(replace_spec(rest, pat@, to@) == seq![rest[0]] + replace_spec(
                        rest.skip(1),
                        pat@,
                        to@,
                    ));
                }
                assert((out@ + seq![text@[i as int]]) + replace_spec(text@.skip(i + 1), pat@, to@)
                    =~= out@ + (seq![text@[i as int]] + replace_spec(text@.skip(i + 1), pat@, to@)));
            }
            let c = text.substring_char(i, i + 1);
            proof {
                assert(c@ =~= seq![text@[i as int]]);
            }
            out.append(c);
            i = i + 1;
        }
    }
    proof {
        assert(text@.skip(text_len as int) =~= Seq::<char>::empty());
        assert(replace_spec(Seq::<char>::empty(), pat@, to@) == Seq::<char>::empty());
        assert(out@ + Seq::<char>::empty() =~= out@);
    }
    out
}

} // verus!
