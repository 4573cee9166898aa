//! Following the global timeline of each follower's instance and tracking
//! the posts that start a thread there.
use vstd::prelude::*;
use crate::actor::RemoteActor;
use crate::api::{ApiRequest, FediApi, origins, timeline_request_of};
use crate::db::Database;
use crate::error::{Error, ErrorView};
use crate::post::{Post, PostView, post_views};
use crate::store::DatabaseView;
use crate::text::join2;
use crate::uri::{opt_text, uri_domain};

verus! {

/// The test whether a post answers no other post.
pub open spec fn starts_thread_fn() -> spec_fn(PostView) -> bool {
    |p: PostView| !p.is_reply()
}

/// The posts of a timeline that are tracked: each post reduced to its
/// origin, and of those the ones that answer no other post.
pub open spec fn roots_of(posts: Seq<PostView>) -> Seq<PostView> {
    origins(posts).filter(starts_thread_fn())
}

/// The store after a reading of the timeline of the instance of the
/// remote actor `id` has been taken in. An empty reading changes nothing.
/// Else the roots of the reading are tracked and linked to the follower, and
/// the cursor moves to the last post of the reading; where the follower is
/// not known, no link is made and the cursor stays.
pub open spec fn after_reading(db: DatabaseView, id: Seq<char>, posts: Seq<PostView>) -> DatabaseView {
    if posts.len() == 0 {
        db
    } else {
        db.monitor_posts(id, roots_of(posts)).update_timeline(id, posts.last().timeline_id)
    }
}

/// The error for a follower whose address has no domain.
pub open spec fn no_host(id: Seq<char>) -> ErrorView {
    ErrorView::Api("Failed to get host of "@ + id)
}

/// The instance whose timeline is read for `remote_actor`: the domain of
/// the follower's address.
pub fn timeline_host(remote_actor: &RemoteActor) -> (host: Result<String, Error>)
    ensures
        match host {
            Ok(h) => uri_domain(remote_actor@.id) == Some(h@),
            Err(e) => uri_domain(remote_actor@.id) is None && e@ == no_host(remote_actor@.id),
        },
{
    match remote_actor.host() {
        Some(h) => Ok(h),
        None => Err(Error::Api(join2("Failed to get host of ", remote_actor.id.as_str()))),
    }
}

/// The request that reads on in the timeline of `host` for `remote_actor`:
/// from the cursor that is recorded for the follower, or from the start
/// where none is.
pub fn next_request(api: FediApi, host: &str, remote_actor: &RemoteActor, db: &Database) -> (request:
    ApiRequest)
    requires
        db.wf(),
    ensures
        request@ == timeline_request_of(api, host@, db@.latest_id_of(remote_actor@.id)),
{
    let latest_id = db.get_latest_id_of(remote_actor);
    api.timeline_request(host, &latest_id)
}

/// The posts of a timeline that are tracked: each post reduced to its
/// origin, and of those the ones that answer no other post.
pub fn roots(posts: &Vec<Post>) -> (kept: Vec<Post>)
    ensures
        post_views(kept@) == roots_of(post_views(posts@)),
{
    let ghost all = origins(post_views(posts@));
    let ghost pred = starts_thread_fn();
    let mut kept: Vec<Post> = Vec::new();
    let mut i: usize = 0;
    assert(all.take(0).filter(pred) =~= Seq::empty()) by {
        reveal(Seq::filter);
    }
    while i < posts.len()
        invariant
            i <= posts.len(),
            all == origins(post_views(posts@)),
            pred == starts_thread_fn(),
            post_views(kept@) == all.take(i as int).filter(pred),
        decreases posts.len() - i,
    {
        let origin = posts[i].origin();
        proof {
            all.lemma_take_succ_push(i as int);
            all.take(i as int).lemma_filter_push(all[i as int], pred);
        }
        if !origin.is_reply() {
            kept.push(origin);
        }
        i += 1;
    }
    assert(all.take(i as int) =~= all);
    kept
}

/// What a reading of a timeline asks of the store.
#[derive(Debug, PartialEq, Eq)]
pub struct Reading {
    /// The posts to track and to link to the follower.
    pub roots: Vec<Post>,
    /// The identifier that the cursor of the follower moves to.
    pub latest_id: Option<String>,
}

/// The mathematical value of a [`Reading`].
pub struct ReadingView {
    pub roots: Seq<PostView>,
    pub latest_id: Option<Seq<char>>,
}

impl View for Reading {
    type V = ReadingView;

    open spec fn view(&self) -> ReadingView {
        ReadingView { roots: post_views(self.roots@), latest_id: opt_text(self.latest_id) }
    }
}

/// What a reading of a timeline asks of the store: nothing where it is
/// empty, else to track its roots and to move the cursor to its last post.
pub open spec fn reading_of(posts: Seq<PostView>) -> Option<ReadingView> {
    if posts.len() == 0 {
        None
    } else {
        Some(ReadingView { roots: roots_of(posts), latest_id: posts.last().timeline_id })
    }
}

/// What a reading of a timeline asks of the store, given the posts that
/// the instance returned, oldest first.
pub fn reading(posts: &Vec<Post>) -> (asked: Option<Reading>)
    ensures
        match asked {
            Some(r) => Some(r@),
            None => None,
        } == reading_of(post_views(posts@)),
{
    if posts.len() == 0 {
        return None;
    }
    let last = &posts[posts.len() - 1];
    let latest_id = match &last.timeline_id {
        Some(id) => Some(id.clone()),
        None => None,
    };
    Some(Reading { roots: roots(posts), latest_id })
}

/// Takes in a reading of the timeline of the instance of `remote_actor`:
/// the posts that the instance returned, oldest first. An empty reading
/// changes nothing. Else the roots of the reading are tracked and linked to
/// the follower, and the cursor moves to the last post of the reading. A
/// follower that the store does not know gets no link and no cursor, and the
/// error is `Database`.
pub fn update_timeline(remote_actor: &RemoteActor, db: &mut Database, posts: &Vec<Post>) -> (done:
    Result<(), Error>)
    requires
        old(db).wf(),
    ensures
        final(db).wf(),
        final(db)@ == after_reading(old(db)@, remote_actor@.id, post_views(posts@)),
        posts@.len() == 0 ==> final(db)@ == old(db)@,
        match done {
            Ok(_) => posts@.len() == 0 || old(db)@.has_remote_actor(remote_actor@.id),
            Err(e) => posts@.len() > 0 && !old(db)@.has_remote_actor(remote_actor@.id) && e@
                == ErrorView::Database,
        },
{
    let asked = match reading(posts) {
        Some(r) => r,
        None => return Ok(()),
    };
    let linked = db.monitor_posts(remote_actor, &asked.roots);
    proof {
        crate::store::monitoring_keeps_actors(
            old(db)@,
            remote_actor@.id,
            post_views(asked.roots@),
            remote_actor@.id,
        );
    }
    let moved = db.update_timeline(remote_actor, &asked.latest_id);
    match linked {
        Ok(_) => moved,
        Err(e) => Err(e),
    }
}

/// A cursor is only ever overwritten by a reading that is not empty, and
/// then it becomes the identifier of the last post of that reading; the
/// cursors of all other followers stay as they are.
pub proof fn cursor_moves_only_on_reading(
    db: DatabaseView,
    id: Seq<char>,
    posts: Seq<PostView>,
    other: Seq<char>,
)
    requires
        db.wf(),
    ensures
        posts.len() == 0 ==> after_reading(db, id, posts) == db,
        other != id ==> after_reading(db, id, posts).latest_id_of(other) == db.latest_id_of(other),
        posts.len() > 0 && db.has_remote_actor(id) ==> after_reading(db, id, posts).latest_id_of(id)
            == posts.last().timeline_id,
{
    if posts.len() > 0 {
        let linked = db.monitor_posts(id, roots_of(posts));
        crate::store::monitoring_keeps_actors(db, id, roots_of(posts), id);
        crate::store::monitoring_keeps_rules(db, id, roots_of(posts));
        crate::store::cursor_changes_alone(linked, id, posts.last().timeline_id, other);
        crate::store::cursor_changes_alone(linked, id, posts.last().timeline_id, id);
    }
}

} // verus!
