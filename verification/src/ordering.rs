//! Post ordering: newest first.
//!
//! Posts with a timestamp precede every post without one, a higher epoch
//! value sorts earlier, and two timestamp-less posts tie.  Sorting preserves
//! the collection: the result is a permutation of the input.

use vstd::prelude::*;
use vstd::seq_lib::group_to_multiset_ensures;
use vstd::seq_lib::lemma_multiset_commutative;
use crate::post::Post;

verus! {

broadcast use group_to_multiset_ensures;

/// `a` sorts no later than `b`: descending by timestamp, timestamped before
/// timestamp-less, timestamp-less posts tie.
pub open spec fn post_le(a: Post, b: Post) -> bool {
    match (a.meta.timestamp, b.meta.timestamp) {
        (Some(x), Some(y)) => x >= y,
        (Some(_), None) => true,
        (None, Some(_)) => false,
        (None, None) => true,
    }
}

/// The sequence is ordered newest first.
pub open spec fn posts_sorted(s: Seq<Post>) -> bool {
    forall|i: int, j: int| 0 <= i < j < s.len() ==> #[trigger] post_le(s[i], s[j])
}

/// Whether `a` sorts no later than `b`.
fn post_le_exec(a: &Post, b: &Post) -> (r: bool)
    ensures
        r == post_le(*a, *b),
{
    match (a.meta.timestamp, b.meta.timestamp) {
        (Some(x), Some(y)) => x >= y,
        (Some(_), None) => true,
        (None, Some(_)) => false,
        (None, None) => true,
    }
}

proof fn lemma_insert_to_multiset(s: Seq<Post>, j: int, x: Post)
    requires
        0 <= j <= s.len(),
    ensures
        s.insert(j, x).to_multiset() == s.to_multiset().insert(x),
{
    let a = s.subrange(0, j);
    let b = s.subrange(j, s.len() as int);
    assert(s =~= a + b);
    assert(s.insert(j, x) =~= a.push(x) + b);
    lemma_multiset_commutative(a.push(x), b);
    lemma_multiset_commutative(a, b);
    assert(s.insert(j, x).to_multiset() =~= s.to_multiset().insert(x));
}

/// What a sorted post list guarantees, spelled out: a timestamp-less post
/// never precedes a timestamped one, and of two timestamped posts the
/// earlier one in the list carries the larger (or equal) timestamp.
pub proof fn lemma_sorted_meaning(s: Seq<Post>, i: int, j: int)
    requires
        posts_sorted(s),
        0 <= i < j < s.len(),
    ensures
        s[i].meta.timestamp is None ==> s[j].meta.timestamp is None,
        (s[i].meta.timestamp is Some && s[j].meta.timestamp is Some) ==> s[i].meta.timestamp->Some_0
            >= s[j].meta.timestamp->Some_0,
{
    assert(post_le(s[i], s[j]));
}

/// Sort the post list newest first: a permutation of the input in which
/// every timestamped post precedes every timestamp-less one and larger
/// timestamps come earlier.
pub fn sort_posts(posts: &mut Vec<Post>)
    ensures
        final (posts)@.len() == old(posts)@.len(),
        posts_sorted(final (posts)@),
        final (posts)@.to_multiset() == old(posts)@.to_multiset(),
{
    let ghost orig = posts@;
    if posts.len() < 2 {
        return ;
    }
    let mut i: usize = 1;
    while i < posts.len()
        invariant
            1 <= i <= posts@.len(),
            posts@.len() == orig.len(),
            posts@.to_multiset() == orig.to_multiset(),
            forall|a: int, b: int| 0 <= a < b < i ==> #[trigger] post_le(posts@[a], posts@[b]),
        decreases posts@.len() - i,
    {
        let ghost s0 = posts@;
        let ghost elem = s0[i as int];
        let mut j: usize = i;
        let mut searching: bool = true;
        while searching && j > 0
            invariant
                0 <= j <= i < posts@.len(),
                posts@ == s0,
                elem == s0[i as int],
                forall|b: int| j <= b < i ==> !post_le(#[trigger] s0[b], elem),
                !searching && j > 0 ==> post_le(s0[j - 1], elem),
            decreases 2 * j + (if searching {
                1int
            } else {
                0int
            }),
        {
            let le = post_le_exec(&posts[j - 1], &posts[i]);
            if le {
                searching = false;
            } else {
                j = j - 1;
            }
        }
        proof {
            assert(j == 0 || post_le(s0[j - 1], elem));
            assert forall|a: int| 0 <= a < j implies post_le(#[trigger] s0[a], elem) by {
                assert(post_le(s0[j - 1], elem));
                if a < j - 1 {
                    assert(post_le(s0[a], s0[j - 1]));
                }
            }
            assert forall|b: int| j <= b < i implies post_le(elem, #[trigger] s0[b]) by {
                assert(!post_le(s0[b], elem));
            }
        }
        let p = posts.remove(i);
        posts.insert(j, p);
        proof {
            let n = posts@;
            assert(n == s0.remove(i as int).insert(j as int, elem));
            assert forall|k: int| 0 <= k < j implies n[k] == s0[k] by {}
            assert(n[j as int] == elem);
            assert forall|k: int| j < k <= i implies n[k] == s0[k - 1] by {}
            assert forall|k: int| i < k < n.len() implies n[k] == s0[k] by {}
            assert forall|a: int, b: int| 0 <= a < b < i + 1 implies #[trigger] post_le(
                n[a],
                n[b],
            ) by {
                if b < j {
                    assert(post_le(s0[a], s0[b]));
                } else if b == j {
                    assert(post_le(s0[a], elem));
                } else if a < j {
                    assert(post_le(s0[a], elem));
                    assert(post_le(elem, s0[b - 1]));
                } else if a == j {
                    assert(post_le(elem, s0[b - 1]));
                } else {
                    assert(post_le(s0[a - 1], s0[b - 1]));
                }
            }
            assert(s0.remove(i as int).to_multiset() == s0.to_multiset().remove(elem));
            lemma_insert_to_multiset(s0.remove(i as int), j as int, elem);
            assert(s0.to_multiset().contains(elem)) by {
                assert(s0.contains(elem));
            }
            assert(n.to_multiset() =~= s0.to_multiset());
        }
        i = i + 1;
    }
}

} // verus!
