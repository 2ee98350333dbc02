//! The tag index: a run-scoped mapping from tag name to the posts carrying
//! that tag, in the order of the (already sorted) post list.
//!
//! Built by one pass over the posts: each tag of each post appends the post
//! to that tag's bucket, creating the bucket on first sight.  Bucket
//! membership order therefore matches post order, and the buckets themselves
//! stand in order of each tag's first appearance.  A post with no tags
//! contributes nothing.  A tag repeated on one post counts once.

use vstd::prelude::*;
use crate::post::Post;

verus! {

/// One tag with the posts that carry it, as indices into the post list.
pub struct TagBucket {
    /// The tag name.
    pub tag: String,
    /// Indices of the posts carrying the tag, in post-list order.
    pub posts: Vec<usize>,
}

/// The tags of a post, as character sequences; a post without a tag list
/// has none.
pub open spec fn post_tags(p: Post) -> Seq<Seq<char>> {
    match p.meta.tags {
        Some(ts) => ts@.map_values(|t: String| t@),
        None => Seq::<Seq<char>>::empty(),
    }
}

/// The post carries the tag.
pub open spec fn has_tag(p: Post, t: Seq<char>) -> bool {
    post_tags(p).contains(t)
}

/// The indices of the posts carrying tag `t`, ascending.
pub open spec fn tagged_indices(posts: Seq<Post>, t: Seq<char>) -> Seq<int>
    decreases posts.len(),
{
    if posts.len() == 0 {
        Seq::<int>::empty()
    } else {
        let prefix = tagged_indices(posts.drop_last(), t);
        if has_tag(posts.last(), t) {
            prefix.push(posts.len() - 1)
        } else {
            prefix
        }
    }
}

/// `keys` extended with every tag of `tags` not yet present, in order.
pub open spec fn add_keys(keys: Seq<Seq<char>>, tags: Seq<Seq<char>>) -> Seq<Seq<char>>
    decreases tags.len(),
{
    if tags.len() == 0 {
        keys
    } else {
        let prev = add_keys(keys, tags.drop_last());
        if prev.contains(tags.last()) {
            prev
        } else {
            prev.push(tags.last())
        }
    }
}

/// The distinct tags of the post list, in order of first appearance.
pub open spec fn tag_keys(posts: Seq<Post>) -> Seq<Seq<char>>
    decreases posts.len(),
{
    if posts.len() == 0 {
        Seq::<Seq<char>>::empty()
    } else {
        add_keys(tag_keys(posts.drop_last()), post_tags(posts.last()))
    }
}

/// No element occurs twice.
pub open spec fn no_dup(keys: Seq<Seq<char>>) -> bool {
    forall|a: int, b: int| 0 <= a < b < keys.len() ==> #[trigger] keys[a] != #[trigger] keys[b]
}

/// The tag of each bucket.
pub open spec fn bucket_tags(idx: Seq<TagBucket>) -> Seq<Seq<char>> {
    idx.map_values(|b: TagBucket| b.tag@)
}

/// A sequence of indices as mathematical integers.
pub open spec fn ints_of(s: Seq<usize>) -> Seq<int> {
    s.map_values(|x: usize| x as int)
}

proof fn lemma_contains_split<A>(s: Seq<A>, x: A)
    requires
        s.len() > 0,
    ensures
        s.contains(x) <==> (s.drop_last().contains(x) || s.last() == x),
{
    if s.contains(x) {
        let i = choose|i: int| 0 <= i < s.len() && s[i] == x;
        if i < s.len() - 1 {
            assert(s.drop_last()[i] == x);
            assert(s.drop_last().contains(x));
        }
    }
    if s.drop_last().contains(x) {
        let i = choose|i: int| 0 <= i < s.drop_last().len() && s.drop_last()[i] == x;
        assert(s[i] == x);
    }
    if s.last() == x {
        assert(s[s.len() - 1] == x);
    }
}

proof fn lemma_push_contains<A>(s: Seq<A>, y: A, x: A)
    ensures
        s.push(y).contains(x) <==> (s.contains(x) || x == y),
{
    lemma_contains_split(s.push(y), x);
    assert(s.push(y).drop_last() =~= s);
}

/// `add_keys` keeps `keys` as a prefix, adds exactly the missing tags, and
/// introduces no duplicate.
proof fn lemma_add_keys(keys: Seq<Seq<char>>, tags: Seq<Seq<char>>)
    ensures
        add_keys(keys, tags).len() >= keys.len(),
        forall|j: int| 0 <= j < keys.len() ==> add_keys(keys, tags)[j] == keys[j],
        forall|t: Seq<char>|
            add_keys(keys, tags).contains(t) <==> (keys.contains(t) || tags.contains(t)),
        no_dup(keys) ==> no_dup(add_keys(keys, tags)),
    decreases tags.len(),
{
    if tags.len() == 0 {
        assert(forall|t: Seq<char>| !tags.contains(t));
    } else {
        lemma_add_keys(keys, tags.drop_last());
        let prev = add_keys(keys, tags.drop_last());
        assert forall|t: Seq<char>| #[trigger]
            tags.contains(t) == (tags.drop_last().contains(t) || tags.last() == t) by {
            lemma_contains_split(tags, t);
        }
        if prev.contains(tags.last()) {
        } else {
            assert forall|t: Seq<char>| #[trigger]
                prev.push(tags.last()).contains(t) == (prev.contains(t) || t == tags.last()) by {
                lemma_push_contains(prev, tags.last(), t);
            }
            if no_dup(keys) {
                assert forall|a: int, b: int|
                    0 <= a < b < prev.push(tags.last()).len() implies #[trigger] prev.push(
                    tags.last(),
                )[a] != #[trigger] prev.push(tags.last())[b] by {
                    if b == prev.len() {
                        assert(prev.contains(prev[a]));
                    }
                }
            }
        }
    }
}

/// A tag is a key of the index exactly when some post carries it; the keys
/// hold no duplicates.
pub proof fn lemma_tag_keys(posts: Seq<Post>)
    ensures
        no_dup(tag_keys(posts)),
        forall|t: Seq<char>|
            tag_keys(posts).contains(t) <==> exists|i: int|
                0 <= i < posts.len() && has_tag(#[trigger] posts[i], t),
    decreases posts.len(),
{
    if posts.len() == 0 {
    } else {
        lemma_tag_keys(posts.drop_last());
        lemma_add_keys(tag_keys(posts.drop_last()), post_tags(posts.last()));
        assert forall|t: Seq<char>| #[trigger]
            tag_keys(posts).contains(t) implies exists|i: int|
            0 <= i < posts.len() && has_tag(#[trigger] posts[i], t) by {
            if tag_keys(posts.drop_last()).contains(t) {
                let i = choose|i: int|
                    0 <= i < posts.drop_last().len() && has_tag(#[trigger] posts.drop_last()[i], t);
                assert(has_tag(posts[i], t));
            } else {
                assert(has_tag(posts[posts.len() - 1], t));
            }
        }
        assert forall|t: Seq<char>, i: int|
            0 <= i < posts.len() && #[trigger] has_tag(posts[i], t) implies tag_keys(
            posts,
        ).contains(t) by {
            if i < posts.len() - 1 {
                assert(posts.drop_last()[i] == posts[i]);
                assert(tag_keys(posts.drop_last()).contains(t));
            }
        }
    }
}

/// Every index in a tag's bucket is an index of the post list.
pub proof fn lemma_tagged_range(posts: Seq<Post>, t: Seq<char>)
    ensures
        forall|k: int|
            0 <= k < tagged_indices(posts, t).len() ==> 0 <= #[trigger] tagged_indices(posts, t)[k]
                < posts.len(),
    decreases posts.len(),
{
    if posts.len() == 0 {
    } else {
        lemma_tagged_range(posts.drop_last(), t);
        let prefix = tagged_indices(posts.drop_last(), t);
        assert forall|k: int|
            0 <= k < tagged_indices(posts, t).len() implies 0 <= #[trigger] tagged_indices(
            posts,
            t,
        )[k] < posts.len() by {
            if k < prefix.len() {
                assert(tagged_indices(posts, t)[k] == prefix[k]);
            }
        }
    }
}

/// A post stands in a tag's bucket exactly when it carries the tag.
pub proof fn lemma_tagged_membership(posts: Seq<Post>, t: Seq<char>, i: int)
    requires
        0 <= i < posts.len(),
    ensures
        tagged_indices(posts, t).contains(i) <==> has_tag(posts[i], t),
    decreases posts.len(),
{
    let prefix = tagged_indices(posts.drop_last(), t);
    lemma_tagged_range(posts.drop_last(), t);
    if i < posts.len() - 1 {
        lemma_tagged_membership(posts.drop_last(), t, i);
        assert(posts.drop_last()[i] == posts[i]);
        if has_tag(posts.last(), t) {
            lemma_push_contains(prefix, posts.len() - 1, i);
        }
    } else {
        if has_tag(posts.last(), t) {
            lemma_push_contains(prefix, posts.len() - 1, i);
        } else {
            if prefix.contains(i) {
                let k = choose|k: int| 0 <= k < prefix.len() && prefix[k] == i;
            }
        }
    }
}

/// Bucket order is post order: the indices in a bucket ascend strictly.
pub proof fn lemma_tagged_ordered(posts: Seq<Post>, t: Seq<char>)
    ensures
        forall|a: int, b: int|
            0 <= a < b < tagged_indices(posts, t).len() ==> #[trigger] tagged_indices(posts, t)[a]
                < #[trigger] tagged_indices(posts, t)[b],
    decreases posts.len(),
{
    if posts.len() == 0 {
    } else {
        lemma_tagged_ordered(posts.drop_last(), t);
        lemma_tagged_range(posts.drop_last(), t);
        let prefix = tagged_indices(posts.drop_last(), t);
        assert forall|a: int, b: int|
            0 <= a < b < tagged_indices(posts, t).len() implies #[trigger] tagged_indices(
            posts,
            t,
        )[a] < #[trigger] tagged_indices(posts, t)[b] by {
            if a < prefix.len() {
                assert(tagged_indices(posts, t)[a] == prefix[a]);
            }
            if b < prefix.len() {
                assert(tagged_indices(posts, t)[b] == prefix[b]);
            }
        }
    }
}

/// A post without tags stands in no bucket at all.
pub proof fn lemma_untagged_in_no_bucket(posts: Seq<Post>, i: int, t: Seq<char>)
    requires
        0 <= i < posts.len(),
        posts[i].meta.tags is None,
    ensures
        !tagged_indices(posts, t).contains(i),
{
    lemma_tagged_membership(posts, t, i);
}

/// The bucket holding `tag`, if the index has one.
fn find_bucket(idx: &Vec<TagBucket>, tag: &String) -> (r: Option<usize>)
    ensures
        match r {
            Some(b) => b < idx@.len() && idx@[b as int].tag@ == tag@,
            None => forall|j: int| 0 <= j < idx@.len() ==> (#[trigger] idx@[j].tag)@ != tag@,
        },
{
    let mut b: usize = 0;
    while b < idx.len()
        invariant
            0 <= b <= idx@.len(),
            forall|j: int| 0 <= j < b ==> (#[trigger] idx@[j].tag)@ != tag@,
        decreases idx@.len() - b,
    {
        if idx[b].tag.eq(tag) {
            return Some(b);
        }
        b = b + 1;
    }
    None
}

/// Build the tag index of the given post list: for every tag carried by
/// some post, in order of first appearance, the bucket of the posts
/// carrying it, in post-list order.
pub fn build_tag_index(posts: &Vec<Post>) -> (idx: Vec<TagBucket>)
    ensures
        bucket_tags(idx@) == tag_keys(posts@),
        forall|j: int|
            0 <= j < idx@.len() ==> ints_of(#[trigger] idx@[j].posts@) == tagged_indices(
                posts@,
                idx@[j].tag@,
            ),
{
    let mut idx: Vec<TagBucket> = Vec::new();
    proof {
        assert(posts@.take(0) =~= Seq::<Post>::empty());
        assert(bucket_tags(idx@) =~= tag_keys(posts@.take(0)));
    }
    let mut i: usize = 0;
    while i < posts.len()
        invariant
            0 <= i <= posts@.len(),
            bucket_tags(idx@) == tag_keys(posts@.take(i as int)),
            no_dup(bucket_tags(idx@)),
            forall|j: int|
                0 <= j < idx@.len() ==> ints_of(#[trigger] idx@[j].posts@) == tagged_indices(
                    posts@.take(i as int),
                    idx@[j].tag@,
                ),
        decreases posts@.len() - i,
    {
        proof {
            lemma_tag_keys(posts@.take(i as int));
        }
        match &posts[i].meta.tags {
            Some(ts) => {
                let ghost tagsv = ts@.map_values(|t: String| t@);
                let ghost keys0 = tag_keys(posts@.take(i as int));
                let m = ts.len();
                let mut k: usize = 0;
                proof {
                    assert(tagsv.take(0) =~= Seq::<Seq<char>>::empty());
                    assert(add_keys(keys0, tagsv.take(0)) == keys0);
                }
                while k < m
                    invariant
                        0 <= k <= m,
                        i < posts@.len(),
                        m == tagsv.len(),
                        ts@.map_values(|t: String| t@) == tagsv,
                        tagsv == post_tags(posts@[i as int]),
                        keys0 == tag_keys(posts@.take(i as int)),
                        bucket_tags(idx@) == add_keys(keys0, tagsv.take(k as int)),
                        no_dup(bucket_tags(idx@)),
                        forall|j: int|
                            0 <= j < idx@.len() && tagsv.take(k as int).contains(idx@[j].tag@)
                                ==> ints_of(#[trigger] idx@[j].posts@) == tagged_indices(
                                posts@.take(i as int),
                                idx@[j].tag@,
                            ).push(i as int),
                        forall|j: int|
                            0 <= j < idx@.len() && !tagsv.take(k as int).contains(idx@[j].tag@)
                                ==> ints_of(#[trigger] idx@[j].posts@) == tagged_indices(
                                posts@.take(i as int),
                                idx@[j].tag@,
                            ),
                    decreases m - k,
                {
                    let ghost oldidx = idx@;
                    let ghost t_spec = tagsv[k as int];
                    proof {
                        assert(ts@[k as int]@ == tagsv[k as int]);
                        lemma_add_keys(keys0, tagsv.take(k as int));
                        assert(tagsv.take(k as int + 1).drop_last() =~= tagsv.take(k as int));
                        assert(tagsv.take(k as int + 1).last() == t_spec);
                        assert forall|t: Seq<char>| #[trigger]
                            tagsv.take(k as int + 1).contains(t) == (tagsv.take(
                                k as int,
                            ).contains(t) || t == t_spec) by {
                            lemma_contains_split(tagsv.take(k as int + 1), t);
                        }
                    }
                    match find_bucket(&idx, &ts[k]) {
                        Some(b) => {
                            proof {
                                assert(bucket_tags(oldidx)[b as int] == oldidx[b as int].tag@);
                                assert(bucket_tags(oldidx).contains(t_spec));
                                assert(add_keys(keys0, tagsv.take(k as int + 1)) == bucket_tags(
                                    oldidx,
                                ));
                                lemma_tagged_range(posts@.take(i as int), t_spec);
                            }
                            let blen = idx[b].posts.len();
                            let mut push_needed: bool = true;
                            if blen > 0 {
                                if idx[b].posts[blen - 1] == i {
                                    push_needed = false;
                                }
                            }
                            if push_needed {
                                proof {
                                    if tagsv.take(k as int).contains(t_spec) {
                                        assert(ints_of(oldidx[b as int].posts@) == tagged_indices(
                                            posts@.take(i as int),
                                            t_spec,
                                        ).push(i as int));
                                        assert(oldidx[b as int].posts@.len() > 0);
                                        assert(ints_of(oldidx[b as int].posts@)[ints_of(
                                            oldidx[b as int].posts@,
                                        ).len() - 1] == i as int);
                                        assert(oldidx[b as int].posts@[oldidx[b as int].posts@.len()
                                            - 1] == i);
                                        assert(false);
                                    }
                                    assert(ints_of(oldidx[b as int].posts@) == tagged_indices(
                                        posts@.take(i as int),
                                        t_spec,
                                    ));
                                }
                                let mut bucket = idx.remove(b);
                                bucket.posts.push(i);
                                idx.insert(b, bucket);
                                proof {
                                    let newidx = idx@;
                                    assert(newidx.len() == oldidx.len());
                                    assert forall|j: int|
                                        0 <= j < newidx.len() && j != b implies newidx[j]
                                        == oldidx[j] by {}
                                    assert(newidx[b as int].tag == oldidx[b as int].tag);
                                    assert(newidx[b as int].posts@ =~= oldidx[
                                        b as int
                                    ].posts@.push(i));
                                    assert(bucket_tags(newidx) =~= bucket_tags(oldidx));
                                    assert(ints_of(newidx[b as int].posts@) =~= ints_of(
                                        oldidx[b as int].posts@,
                                    ).push(i as int));
                                    assert forall|j: int|
                                        0 <= j < newidx.len() && j != b implies (
                                        #[trigger] newidx[j].tag)@ != t_spec by {
                                        if newidx[j].tag@ == t_spec {
                                            let x = if j < b {
                                                j
                                            } else {
                                                b as int
                                            };
                                            let y = if j < b {
                                                b as int
                                            } else {
                                                j
                                            };
                                            assert(bucket_tags(oldidx)[x] != bucket_tags(
                                                oldidx,
                                            )[y]);
                                        }
                                    }
                                    assert forall|j: int|
                                        0 <= j < newidx.len() && tagsv.take(
                                            k as int + 1,
                                        ).contains(newidx[j].tag@) implies ints_of(
                                        #[trigger] newidx[j].posts@,
                                    ) == tagged_indices(
                                        posts@.take(i as int),
                                        newidx[j].tag@,
                                    ).push(i as int) by {
                                        if j != b {
                                            assert(newidx[j] == oldidx[j]);
                                            assert(tagsv.take(k as int).contains(oldidx[j].tag@));
                                        }
                                    }
                                    assert forall|j: int|
                                        0 <= j < newidx.len() && !tagsv.take(
                                            k as int + 1,
                                        ).contains(newidx[j].tag@) implies ints_of(
                                        #[trigger] newidx[j].posts@,
                                    ) == tagged_indices(
                                        posts@.take(i as int),
                                        newidx[j].tag@,
                                    ) by {
                                        assert(j != b);
                                        assert(newidx[j] == oldidx[j]);
                                    }
                                }
                            } else {
                                proof {
                                    assert(oldidx[b as int].posts@.len() > 0);
                                    assert(oldidx[b as int].posts@[oldidx[b as int].posts@.len()
                                        - 1] == i);
                                    if !tagsv.take(k as int).contains(t_spec) {
                                        let c = ints_of(oldidx[b as int].posts@);
                                        assert(c == tagged_indices(
                                            posts@.take(i as int),
                                            t_spec,
                                        ));
                                        assert(c[c.len() - 1] == oldidx[b as int].posts@[oldidx[
                                            b as int
                                        ].posts@.len() - 1] as int);
                                        assert(false);
                                    }
                                    assert(tagsv.take(k as int).contains(t_spec));
                                    assert forall|j: int|
                                        0 <= j < oldidx.len() && tagsv.take(
                                            k as int + 1,
                                        ).contains(oldidx[j].tag@) implies ints_of(
                                        #[trigger] oldidx[j].posts@,
                                    ) == tagged_indices(
                                        posts@.take(i as int),
                                        oldidx[j].tag@,
                                    ).push(i as int) by {
                                        if oldidx[j].tag@ == t_spec {
                                            assert(tagsv.take(k as int).contains(oldidx[j].tag@));
                                        }
                                    }
                                }
                            }
                        },
                        None => {
                            proof {
                                if bucket_tags(oldidx).contains(t_spec) {
                                    let j = choose|j: int|
                                        0 <= j < bucket_tags(oldidx).len() && bucket_tags(oldidx)[j]
                                            == t_spec;
                                    assert(oldidx[j].tag@ == t_spec);
                                    assert(false);
                                }
                                assert(!keys0.contains(t_spec));
                                lemma_tag_keys(posts@.take(i as int));
                                assert forall|i2: int| 0 <= i2 < i implies !has_tag(
                                    #[trigger] posts@.take(i as int)[i2],
                                    t_spec,
                                ) by {
                                    if has_tag(posts@.take(i as int)[i2], t_spec) {
                                        assert(keys0.contains(t_spec));
                                    }
                                }
                                lemma_tagged_empty(posts@.take(i as int), t_spec);
                            }
                            let mut v: Vec<usize> = Vec::new();
                            v.push(i);
                            let nb = TagBucket { tag: ts[k].clone(), posts: v };
                            idx.push(nb);
                            proof {
                                let newidx = idx@;
                                assert(newidx.len() == oldidx.len() + 1);
                                assert forall|j: int|
                                    0 <= j < oldidx.len() implies newidx[j] == oldidx[j] by {}
                                assert(newidx[newidx.len() - 1].tag@ == t_spec);
                                assert(bucket_tags(newidx) =~= bucket_tags(oldidx).push(t_spec));
                                assert(add_keys(keys0, tagsv.take(k as int + 1)) == bucket_tags(
                                    oldidx,
                                ).push(t_spec));
                                assert(ints_of(newidx[newidx.len() - 1].posts@) =~= tagged_indices(
                                    posts@.take(i as int),
                                    t_spec,
                                ).push(i as int));
                                assert forall|a: int, b2: int|
                                    0 <= a < b2 < bucket_tags(newidx).len() implies #[trigger]
                                bucket_tags(newidx)[a] != #[trigger] bucket_tags(newidx)[b2] by {
                                    if b2 == bucket_tags(oldidx).len() {
                                        assert(bucket_tags(newidx)[a] == bucket_tags(oldidx)[a]);
                                        if bucket_tags(oldidx)[a] == t_spec {
                                            assert(bucket_tags(oldidx).contains(t_spec));
                                            assert(oldidx[a].tag@ == t_spec);
                                        }
                                    } else {
                                        assert(bucket_tags(newidx)[a] == bucket_tags(oldidx)[a]);
                                        assert(bucket_tags(newidx)[b2] == bucket_tags(oldidx)[b2]);
                                    }
                                }
                                assert forall|j: int|
                                    0 <= j < newidx.len() && tagsv.take(k as int + 1).contains(
                                        newidx[j].tag@,
                                    ) implies ints_of(#[trigger] newidx[j].posts@)
                                    == tagged_indices(
                                    posts@.take(i as int),
                                    newidx[j].tag@,
                                ).push(i as int) by {
                                    if j < newidx.len() - 1 {
                                        assert(newidx[j] == oldidx[j]);
                                        assert(oldidx[j].tag@ != t_spec);
                                        assert(tagsv.take(k as int).contains(oldidx[j].tag@));
                                    }
                                }
                                assert forall|j: int|
                                    0 <= j < newidx.len() && !tagsv.take(k as int + 1).contains(
                                        newidx[j].tag@,
                                    ) implies ints_of(#[trigger] newidx[j].posts@)
                                    == tagged_indices(
                                    posts@.take(i as int),
                                    newidx[j].tag@,
                                ) by {
                                    assert(j < newidx.len() - 1);
                                    assert(newidx[j] == oldidx[j]);
                                }
                            }
                        },
                    }
                    k = k + 1;
                }
                proof {
                    assert(tagsv.take(m as int) =~= tagsv);
                    assert(posts@.take(i as int + 1).drop_last() =~= posts@.take(i as int));
                    assert(posts@.take(i as int + 1).last() == posts@[i as int]);
                    assert(tag_keys(posts@.take(i as int + 1)) == add_keys(keys0, tagsv));
                    assert forall|j: int| 0 <= j < idx@.len() implies ints_of(
                        #[trigger] idx@[j].posts@,
                    ) == tagged_indices(posts@.take(i as int + 1), idx@[j].tag@) by {
                        if has_tag(posts@[i as int], idx@[j].tag@) {
                            assert(tagsv.contains(idx@[j].tag@));
                        } else {
                            if tagsv.contains(idx@[j].tag@) {
                                assert(has_tag(posts@[i as int], idx@[j].tag@));
                            }
                        }
                        assert(tagged_indices(posts@.take(i as int + 1), idx@[j].tag@) == if has_tag(
                            posts@[i as int],
                            idx@[j].tag@,
                        ) {
                            tagged_indices(posts@.take(i as int), idx@[j].tag@).push(i as int)
                        } else {
                            tagged_indices(posts@.take(i as int), idx@[j].tag@)
                        });
                    }
                }
            },
            None => {
                proof {
                    assert(post_tags(posts@[i as int]) =~= Seq::<Seq<char>>::empty());
                    assert(posts@.take(i as int + 1).drop_last() =~= posts@.take(i as int));
                    assert(posts@.take(i as int + 1).last() == posts@[i as int]);
                    assert(tag_keys(posts@.take(i as int + 1)) == add_keys(
                        tag_keys(posts@.take(i as int)),
                        post_tags(posts@[i as int]),
                    ));
                    assert forall|j: int| 0 <= j < idx@.len() implies ints_of(
                        #[trigger] idx@[j].posts@,
                    ) == tagged_indices(posts@.take(i as int + 1), idx@[j].tag@) by {
                        assert(!has_tag(posts@[i as int], idx@[j].tag@));
                    }
                }
            },
        }
        i = i + 1;
    }
    proof {
        assert(posts@.take(posts@.len() as int) =~= posts@);
    }
    idx
}

/// No post carries the tag, so its bucket would be empty.
proof fn lemma_tagged_empty(posts: Seq<Post>, t: Seq<char>)
    requires
        forall|i: int| 0 <= i < posts.len() ==> !has_tag(#[trigger] posts[i], t),
    ensures
        tagged_indices(posts, t) == Seq::<int>::empty(),
    decreases posts.len(),
{
    if posts.len() == 0 {
    } else {
        assert forall|i: int| 0 <= i < posts.drop_last().len() implies !has_tag(
            #[trigger] posts.drop_last()[i],
            t,
        ) by {
            assert(posts.drop_last()[i] == posts[i]);
        }
        lemma_tagged_empty(posts.drop_last(), t);
        assert(!has_tag(posts[posts.len() - 1], t));
    }
}

} // verus!
