//! Putting posts in the order in which they were written.
use vstd::prelude::*;
use vstd::utf8::encode_utf8;
use crate::post::{Post, PostView, post_views};

verus! {

/// Whether `a` comes before `b`, or is `b`, in the order of the dictionary:
/// the order in which strings compare.
pub open spec fn bytes_le(a: Seq<u8>, b: Seq<u8>) -> bool
    decreases a.len(),
{
    if a.len() == 0 {
        true
    } else if b.len() == 0 {
        false
    } else if a[0] != b[0] {
        a[0] < b[0]
    } else {
        bytes_le(a.drop_first(), b.drop_first())
    }
}

/// The bytes by which a post is ordered: those of its creation time, or
/// none where it has no creation time.
pub open spec fn time_key(p: PostView) -> Seq<u8> {
    match p.created_at {
        Some(t) => encode_utf8(t),
        None => Seq::empty(),
    }
}

/// Whether `a` was written before `b` or at the same time, as far as their
/// creation times tell.
pub open spec fn time_le(a: PostView, b: PostView) -> bool {
    bytes_le(time_key(a), time_key(b))
}

/// Where `p` goes in the sorted list `sorted`: behind the last post that
/// was not written after it.
pub open spec fn place_index(sorted: Seq<PostView>, p: PostView) -> int
    decreases sorted.len(),
{
    if sorted.len() == 0 {
        0
    } else if time_le(sorted.last(), p) {
        sorted.len() as int
    } else {
        place_index(sorted.drop_last(), p)
    }
}

/// The posts of `s` by creation time, oldest first. Posts of the same
/// creation time keep the order that they have in `s`.
pub open spec fn by_creation(s: Seq<PostView>) -> Seq<PostView>
    decreases s.len(),
{
    if s.len() == 0 {
        Seq::empty()
    } else {
        let sorted = by_creation(s.drop_last());
        sorted.insert(place_index(sorted, s.last()), s.last())
    }
}

/// Whether no post of `s` stands before one that was written earlier.
pub open spec fn is_ordered(s: Seq<PostView>) -> bool {
    forall|i: int, j: int| 0 <= i < j < s.len() ==> time_le(s[i], s[j])
}

/// Of two texts, one comes before the other or they are the same.
pub proof fn bytes_le_total(a: Seq<u8>, b: Seq<u8>)
    ensures
        bytes_le(a, b) || bytes_le(b, a),
    decreases a.len(),
{
    if a.len() > 0 && b.len() > 0 && a[0] == b[0] {
        bytes_le_total(a.drop_first(), b.drop_first());
    }
}

/// The order of texts is transitive.
pub proof fn bytes_le_transitive(a: Seq<u8>, b: Seq<u8>, c: Seq<u8>)
    requires
        bytes_le(a, b),
        bytes_le(b, c),
    ensures
        bytes_le(a, c),
    decreases a.len(),
{
    if a.len() > 0 && b.len() > 0 && c.len() > 0 && a[0] == b[0] && b[0] == c[0] {
        bytes_le_transitive(a.drop_first(), b.drop_first(), c.drop_first());
    }
}

proof fn lemma_place_index(sorted: Seq<PostView>, p: PostView)
    ensures
        0 <= place_index(sorted, p) <= sorted.len(),
        place_index(sorted, p) > 0 ==> time_le(sorted[place_index(sorted, p) - 1], p),
        forall|k: int| place_index(sorted, p) <= k < sorted.len() ==> !time_le(#[trigger] sorted[k], p),
    decreases sorted.len(),
{
    if sorted.len() > 0 && !time_le(sorted.last(), p) {
        let rest = sorted.drop_last();
        lemma_place_index(rest, p);
        assert forall|k: int| place_index(sorted, p) <= k < sorted.len() implies !time_le(
            #[trigger] sorted[k],
            p,
        ) by {
            if k < rest.len() {
                assert(rest[k] == sorted[k]);
            }
        }
    }
}

proof fn lemma_insert_keeps_order(sorted: Seq<PostView>, p: PostView)
    requires
        is_ordered(sorted),
    ensures
        is_ordered(sorted.insert(place_index(sorted, p), p)),
{
    let at = place_index(sorted, p);
    lemma_place_index(sorted, p);
    let out = sorted.insert(at, p);
    sorted.insert_ensures(at, p);
    assert forall|i: int, j: int| 0 <= i < j < out.len() implies time_le(out[i], out[j]) by {
        if j == at && i < at - 1 {
            assert(time_le(sorted[i], sorted[at - 1]));
            bytes_le_transitive(time_key(sorted[i]), time_key(sorted[at - 1]), time_key(p));
        } else if j > at {
            bytes_le_total(time_key(sorted[j - 1]), time_key(p));
        }
    }
}

/// Sorting puts the posts in order.
pub proof fn sorting_orders(s: Seq<PostView>)
    ensures
        is_ordered(by_creation(s)),
    decreases s.len(),
{
    if s.len() > 0 {
        sorting_orders(s.drop_last());
        lemma_insert_keeps_order(by_creation(s.drop_last()), s.last());
    }
}

/// Sorting neither adds nor drops a post: what comes out are the posts that
/// went in, each as often as it went in.
pub proof fn sorting_keeps_posts(s: Seq<PostView>)
    ensures
        by_creation(s).to_multiset() == s.to_multiset(),
        by_creation(s).len() == s.len(),
    decreases s.len(),
{
    broadcast use vstd::seq_lib::group_to_multiset_ensures;

    if s.len() > 0 {
        let rest = s.drop_last();
        sorting_keeps_posts(rest);
        let sorted = by_creation(rest);
        let at = place_index(sorted, s.last());
        lemma_place_index(sorted, s.last());
        let out = sorted.insert(at, s.last());
        sorted.insert_ensures(at, s.last());
        vstd::seq_lib::to_multiset_remove(out, at);
        assert(rest.push(s.last()) =~= s);
    }
}

/// In a sorted list no post was written after the last one.
pub proof fn last_is_latest(s: Seq<PostView>, i: int)
    requires
        0 <= i < s.len(),
    ensures
        time_le(by_creation(s)[i], by_creation(s).last()),
{
    sorting_orders(s);
    sorting_keeps_posts(s);
    let sorted = by_creation(s);
    if i == sorted.len() - 1 {
        bytes_le_total(time_key(sorted[i]), time_key(sorted[i]));
    }
}

fn bytes_le_exec(a: &[u8], b: &[u8]) -> (le: bool)
    ensures
        le == bytes_le(a@, b@),
{
    let mut i: usize = 0;
    assert(a@.skip(0) =~= a@ && b@.skip(0) =~= b@);
    while i < a.len() && i < b.len()
        invariant
            i <= a.len(),
            i <= b.len(),
            bytes_le(a@, b@) == bytes_le(a@.skip(i as int), b@.skip(i as int)),
        decreases a.len() - i,
    {
        proof {
            assert(a@.skip(i as int).drop_first() =~= a@.skip(i + 1));
            assert(b@.skip(i as int).drop_first() =~= b@.skip(i + 1));
        }
        if a[i] != b[i] {
            return a[i] < b[i];
        }
        i += 1;
    }
    i == a.len()
}

/// Whether `a` was written before `b` or at the same time, as far as their
/// creation times tell.
pub fn written_before(a: &Post, b: &Post) -> (le: bool)
    ensures
        le == time_le(a@, b@),
{
    match (&a.created_at, &b.created_at) {
        (None, _) => true,
        (Some(x), None) => {
            x.as_str().as_bytes().len() == 0
        },
        (Some(x), Some(y)) => bytes_le_exec(x.as_str().as_bytes(), y.as_str().as_bytes()),
    }
}

/// The posts by creation time, oldest first. Posts of the same creation
/// time keep the order that they had.
pub fn sort_by_creation(posts: &Vec<Post>) -> (sorted: Vec<Post>)
    ensures
        post_views(sorted@) == by_creation(post_views(posts@)),
{
    let ghost all = post_views(posts@);
    let mut sorted: Vec<Post> = Vec::new();
    let mut i: usize = 0;
    while i < posts.len()
        invariant
            i <= posts.len(),
            all == post_views(posts@),
            post_views(sorted@) == by_creation(all.take(i as int)),
        decreases posts.len() - i,
    {
        let p = &posts[i];
        let ghost before = post_views(sorted@);
        proof {
            assert(all.take(i + 1).drop_last() =~= all.take(i as int));
        }
        let mut j: usize = sorted.len();
        assert(before.take(j as int) =~= before);
        while j > 0 && !written_before(&sorted[j - 1], p)
            invariant
                j <= sorted.len(),
                before == post_views(sorted@),
                place_index(before, p@) == place_index(before.take(j as int), p@),
            decreases j,
        {
            proof {
                assert(before.take(j as int).drop_last() =~= before.take(j - 1));
            }
            j -= 1;
        }
        sorted.insert(j, p.clone());
        i += 1;
    }
    assert(all.take(i as int) =~= all);
    sorted
}

} // verus!
