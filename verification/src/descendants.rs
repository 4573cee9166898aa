//! Handing the tracked posts to the workers that look for their replies,
//! one worker for each instance.
use vstd::prelude::*;
use crate::db::Database;
use crate::error::{Error, ErrorView};
use crate::post::{Post, PostView, post_views};
use crate::uri::{opt_text, uri_domain};
use crate::workers::Workers;

verus! {

/// How many tracked posts wait for one worker before the round is held
/// back.
pub const WORKER_QUEUE_CAPACITY: usize = 16;

/// A tracked post goes to the worker of its instance.
#[derive(Debug, PartialEq, Eq)]
pub struct Assignment {
    /// The instance of the post: the worker that it goes to.
    pub host: String,
    pub post: Post,
    /// Whether the worker has to be started first.
    pub new_worker: bool,
}

/// The mathematical value of an [`Assignment`].
pub struct AssignmentView {
    pub host: Seq<char>,
    pub post: PostView,
    pub new_worker: bool,
}

impl View for Assignment {
    type V = AssignmentView;

    open spec fn view(&self) -> AssignmentView {
        AssignmentView { host: self.host@, post: self.post@, new_worker: self.new_worker }
    }
}

/// The values of a list of assignments.
pub open spec fn assignment_views(list: Seq<Assignment>) -> Seq<AssignmentView> {
    Seq::new(list.len(), |i: int| list[i]@)
}

/// The workers after `host` has come up.
pub open spec fn with_worker(workers: Seq<Seq<char>>, host: Seq<char>) -> Seq<Seq<char>> {
    if workers.contains(host) {
        workers
    } else {
        workers.push(host)
    }
}

/// Where a post goes, given the domain of its address: to the worker of
/// that instance. A post whose address has no domain goes nowhere.
pub open spec fn routed(workers: Seq<Seq<char>>, post: PostView, host: Option<Seq<char>>) -> Option<
    AssignmentView,
> {
    match host {
        Some(h) => Some(AssignmentView { host: h, post: post, new_worker: !workers.contains(h) }),
        None => None,
    }
}

/// The workers once each of `posts` has been routed.
pub open spec fn workers_after(workers: Seq<Seq<char>>, posts: Seq<PostView>) -> Seq<Seq<char>>
    decreases posts.len(),
{
    if posts.len() == 0 {
        workers
    } else {
        let before = workers_after(workers, posts.drop_last());
        match uri_domain(posts.last().uri) {
            Some(h) => with_worker(before, h),
            None => before,
        }
    }
}

/// Where each of `posts` goes, in the order of the posts.
pub open spec fn all_routed(workers: Seq<Seq<char>>, posts: Seq<PostView>) -> Seq<AssignmentView>
    decreases posts.len(),
{
    if posts.len() == 0 {
        Seq::empty()
    } else {
        let list = all_routed(workers, posts.drop_last());
        let before = workers_after(workers, posts.drop_last());
        match routed(before, posts.last(), uri_domain(posts.last().uri)) {
            Some(a) => list.push(a),
            None => list,
        }
    }
}

/// Decides where `post` goes, given the domain of its address, and makes
/// sure that the worker it goes to is counted among the workers.
pub fn route(workers: &mut Workers, post: &Post, host: Option<String>) -> (assignment: Option<
    Assignment,
>)
    requires
        old(workers).wf(),
    ensures
        final(workers).wf(),
        match assignment {
            Some(a) => Some(a@),
            None => None,
        } == routed(old(workers)@, post@, opt_text(host)),
        final(workers)@ == match opt_text(host) {
            Some(h) => with_worker(old(workers)@, h),
            None => old(workers)@,
        },
{
    match host {
        Some(h) => {
            let new_worker = workers.ensure(h.as_str());
            Some(Assignment { host: h, post: post.clone(), new_worker })
        },
        None => None,
    }
}

/// One round: every tracked post goes to the worker of its instance, in
/// the order in which the posts were first seen. Posts whose address has no
/// domain are passed over.
pub fn update(db: &Database, workers: &mut Workers) -> (assignments: Result<Vec<Assignment>, Error>)
    requires
        old(workers).wf(),
    ensures
        final(workers).wf(),
        assignments is Ok,
        assignment_views(assignments.unwrap()@) == all_routed(old(workers)@, db@.roots()),
        final(workers)@ == workers_after(old(workers)@, db@.roots()),
{
    let posts = match db.get_all_posts() {
        Ok(list) => list,
        Err(e) => return Err(e),
    };
    let ghost all = post_views(posts@);
    let mut list: Vec<Assignment> = Vec::new();
    let mut i: usize = 0;
    while i < posts.len()
        invariant
            i <= posts.len(),
            all == post_views(posts@),
            workers.wf(),
            assignment_views(list@) == all_routed(old(workers)@, all.take(i as int)),
            workers@ == workers_after(old(workers)@, all.take(i as int)),
        decreases posts.len() - i,
    {
        proof {
            assert(all.take(i + 1).drop_last() =~= all.take(i as int));
        }
        let host = posts[i].host();
        match route(workers, &posts[i], host) {
            Some(a) => {
                list.push(a);
            },
            None => {},
        }
        i += 1;
    }
    assert(all.take(i as int) =~= all);
    Ok(list)
}

/// Records the replies that were found under `post`.
pub fn update_post(post: &Post, db: &mut Database, descendants: &Vec<Post>) -> (done: Result<(), Error>)
    requires
        old(db).wf(),
    ensures
        final(db).wf(),
        final(db)@ == old(db)@.insert_descendants(post@.uri, post_views(descendants@)),
        match done {
            Ok(_) => old(db)@.accepts_descendants(post@.uri, post_views(descendants@)),
            Err(e) => !old(db)@.accepts_descendants(post@.uri, post_views(descendants@)) && e@
                == ErrorView::Database,
        },
{
    db.insert_descendants(post, descendants)
}

} // verus!
