//! Telling each follower of the completion relay of the replies that were
//! found under the posts it is linked to.
use vstd::prelude::*;
use crate::actor::{Actor, ActorView, RemoteActor, RemoteActorView};
use crate::db::{Database, numbered_views};
use crate::error::Error;
use crate::post::{Post, PostView};
use crate::relay::{Announcement, AnnouncementView, announcement_views};
use crate::store::{DatabaseView, DescendantRow, consumer_skips_nothing, max_sequence, numbered_posts};

verus! {

/// The replies under one tracked post that a follower has not been told of
/// yet.
#[derive(Debug, PartialEq, Eq)]
pub struct Batch {
    /// The tracked post.
    pub post: Post,
    /// The sequence number up to which the follower has been told.
    pub update_sequence: i64,
    /// The replies that were found after that, each with its sequence
    /// number.
    pub new_posts: Vec<(Post, i64)>,
}

/// The mathematical value of a [`Batch`].
pub struct BatchView {
    pub post: PostView,
    pub update_sequence: int,
    pub new_posts: Seq<(PostView, int)>,
}

impl View for Batch {
    type V = BatchView;

    open spec fn view(&self) -> BatchView {
        BatchView {
            post: self.post@,
            update_sequence: self.update_sequence as int,
            new_posts: numbered_views(self.new_posts@),
        }
    }
}

/// The values of a list of batches.
pub open spec fn batch_views(batches: Seq<Batch>) -> Seq<BatchView> {
    Seq::new(batches.len(), |i: int| batches[i]@)
}

/// The batches that are due to the remote actor `id`: one for each tracked
/// post that the follower is linked to, with the replies found after the
/// sequence number of the link.
pub open spec fn batches_of(db: DatabaseView, id: Seq<char>) -> Seq<BatchView> {
    let links = db.monitoring_posts_of(id);
    Seq::new(
        links.len(),
        |i: int|
            BatchView {
                post: links[i].0,
                update_sequence: links[i].1,
                new_posts: db.posts_after(links[i].0.uri, links[i].1),
            },
    )
}

/// The greatest sequence number among `posts`, or `floor` where none is
/// greater.
pub open spec fn greatest(posts: Seq<(PostView, int)>, floor: int) -> int
    decreases posts.len(),
{
    if posts.len() == 0 {
        floor
    } else {
        let rest = greatest(posts.drop_last(), floor);
        if posts.last().1 > rest {
            posts.last().1
        } else {
            rest
        }
    }
}

/// The announcements that a batch gives rise to: one for each reply, in the
/// order of the batch.
pub open spec fn announcements_of(actor: ActorView, follower: RemoteActorView, batch: BatchView) -> Seq<
    AnnouncementView,
> {
    Seq::new(
        batch.new_posts.len(),
        |i: int|
            AnnouncementView { actor: actor, remote_actor: follower, post: batch.new_posts[i].0 },
    )
}

/// The store after a batch has been dealt with. Where every announcement
/// of the batch was handed on, the link moves to the greatest sequence
/// number of the batch; where one was refused, the link stays where it is.
pub open spec fn after_batch(
    db: DatabaseView,
    id: Seq<char>,
    batch: BatchView,
    delivered: bool,
) -> DatabaseView {
    if delivered {
        db.update_monitoring_post(
            id,
            batch.post.uri,
            greatest(batch.new_posts, batch.update_sequence),
        )
    } else {
        db
    }
}

/// The batches that are due to `remote_actor`.
pub fn relay_new_posts(remote_actor: &RemoteActor, db: &Database) -> (batches: Result<
    Vec<Batch>,
    Error,
>)
    requires
        db.wf(),
    ensures
        batches is Ok,
        batch_views(batches.unwrap()@) == batches_of(db@, remote_actor@.id),
{
    let links = match db.get_monitoring_posts_of(remote_actor) {
        Ok(list) => list,
        Err(e) => return Err(e),
    };
    let mut batches: Vec<Batch> = Vec::new();
    let mut i: usize = 0;
    while i < links.len()
        invariant
            i <= links.len(),
            numbered_views(links@) == db@.monitoring_posts_of(remote_actor@.id),
            batches@.len() == i,
            forall|k: int|
                0 <= k < i ==> (#[trigger] batches@[k])@ == batches_of(db@, remote_actor@.id)[k],
        decreases links.len() - i,
    {
        let post = &links[i].0;
        let update_sequence = links[i].1;
        let new_posts = match db.get_descendants_after(post, update_sequence) {
            Ok(list) => list,
            Err(_) => Vec::new(),
        };
        batches.push(Batch { post: post.clone(), update_sequence, new_posts });
        i += 1;
    }
    Ok(batches)
}

/// The sequence number that the link of a batch moves to once the batch
/// has been handed on: the greatest of the batch, and never less than where
/// the link stands.
pub fn new_update_sequence(batch: &Batch) -> (sequence: i64)
    ensures
        sequence == greatest(batch@.new_posts, batch@.update_sequence),
        sequence >= batch@.update_sequence,
{
    let ghost all = numbered_views(batch.new_posts@);
    let mut sequence = batch.update_sequence;
    let mut i: usize = 0;
    while i < batch.new_posts.len()
        invariant
            i <= batch.new_posts.len(),
            all == numbered_views(batch.new_posts@),
            sequence == greatest(all.take(i as int), batch.update_sequence as int),
            sequence >= batch.update_sequence,
        decreases batch.new_posts.len() - i,
    {
        proof {
            assert(all.take(i + 1).drop_last() =~= all.take(i as int));
        }
        if batch.new_posts[i].1 > sequence {
            sequence = batch.new_posts[i].1;
        }
        i += 1;
    }
    assert(all.take(i as int) =~= all);
    sequence
}

/// The announcements that a batch gives rise to, in the name of `actor`
/// and for `remote_actor`: one for each reply, in the order of the batch.
pub fn announcements(actor: &Actor, remote_actor: &RemoteActor, batch: &Batch) -> (list: Vec<
    Announcement,
>)
    ensures
        announcement_views(list@) == announcements_of(actor@, remote_actor@, batch@),
{
    let mut list: Vec<Announcement> = Vec::new();
    let mut i: usize = 0;
    while i < batch.new_posts.len()
        invariant
            i <= batch.new_posts.len(),
            list@.len() == i,
            forall|k: int|
                0 <= k < i ==> (#[trigger] list@[k])@ == announcements_of(
                    actor@,
                    remote_actor@,
                    batch@,
                )[k],
        decreases batch.new_posts.len() - i,
    {
        list.push(
            Announcement {
                actor: actor.clone(),
                remote_actor: remote_actor.clone(),
                post: batch.new_posts[i].0.clone(),
            },
        );
        i += 1;
    }
    list
}

/// Where the link of a batch moves once the batch has been dealt with: to
/// the greatest sequence number of the batch where every announcement was
/// handed on, and nowhere where one was refused.
pub fn advance(batch: &Batch, delivered: bool) -> (sequence: Option<i64>)
    ensures
        match sequence {
            Some(s) => delivered && s == greatest(batch@.new_posts, batch@.update_sequence),
            None => !delivered,
        },
{
    if delivered {
        Some(new_update_sequence(batch))
    } else {
        None
    }
}

/// Closes a batch. Where every announcement of the batch was handed on,
/// the link between `remote_actor` and the tracked post moves to the
/// greatest sequence number of the batch. Where one was refused, the link
/// stays where it is, so that the batch comes up again.
pub fn finish_batch(remote_actor: &RemoteActor, db: &mut Database, batch: &Batch, delivered: bool) -> (done:
    Result<(), Error>)
    requires
        old(db).wf(),
    ensures
        final(db).wf(),
        done is Ok,
        final(db)@ == after_batch(old(db)@, remote_actor@.id, batch@, delivered),
{
    match advance(batch, delivered) {
        Some(sequence) => db.update_monitoring_post(remote_actor, &batch.post, sequence),
        None => Ok(()),
    }
}

proof fn lemma_greatest_is_max(rows: Seq<DescendantRow>, floor: int)
    ensures
        greatest(numbered_posts(rows), floor) == max_sequence(rows, floor),
    decreases rows.len(),
{
    if rows.len() > 0 {
        lemma_greatest_is_max(rows.drop_last(), floor);
        assert(numbered_posts(rows).drop_last() =~= numbered_posts(rows.drop_last()));
    }
}

/// Round after round, a follower is told of every reply under a tracked
/// post exactly once. A round that hands on its batch moves the link to the
/// greatest sequence number of the batch; the batch of a later round, when
/// more replies have been recorded, then holds just the replies that the
/// earlier one did not: the two batches, one after the other, are the batch
/// that a single round would have had in the end.
pub proof fn rounds_skip_nothing(
    before: DatabaseView,
    after: DatabaseView,
    root: Seq<char>,
    cursor: int,
)
    requires
        after.wf(),
        before.descendants.is_prefix_of(after.descendants),
    ensures
        ({
            let first = before.posts_after(root, cursor);
            let moved = greatest(first, cursor);
            first + after.posts_after(root, moved) == after.posts_after(root, cursor)
        }),
{
    let rows = before.descendants_after(root, cursor);
    lemma_greatest_is_max(rows, cursor);
    consumer_skips_nothing(before, after, root, cursor);
}

} // verus!
