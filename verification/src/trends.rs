//! Relaying what is trending on an instance to the followers of the actor
//! that stands for that instance.
use vstd::prelude::*;
use crate::actor::{
    Actor, ActorKind, ActorKindView, ActorView, RemoteActor, RemoteActorView, actor_of_parts,
    actor_views, remote_actor_views,
};
use crate::db::Database;
use crate::error::Error;
use crate::post::{Post, PostView, post_views};
use crate::relay::{Announcement, AnnouncementView, announcement_views};
use crate::store::DatabaseView;
use crate::uri::parsed_uri;

verus! {

/// The trending posts of `instance` are to be fetched and announced to
/// `followers` in the name of `actor`.
#[derive(Debug, PartialEq, Eq)]
pub struct TrendsTask {
    pub actor: Actor,
    pub instance: String,
    pub followers: Vec<RemoteActor>,
}

/// The mathematical value of a [`TrendsTask`].
pub struct TrendsTaskView {
    pub actor: ActorView,
    pub instance: Seq<char>,
    pub followers: Seq<RemoteActorView>,
}

impl View for TrendsTask {
    type V = TrendsTaskView;

    open spec fn view(&self) -> TrendsTaskView {
        TrendsTaskView {
            actor: self.actor@,
            instance: self.instance@,
            followers: remote_actor_views(self.followers@),
        }
    }
}

/// The values of a list of tasks.
pub open spec fn task_views(tasks: Seq<TrendsTask>) -> Seq<TrendsTaskView> {
    Seq::new(tasks.len(), |i: int| tasks[i]@)
}

/// The task that `actor` gives rise to: one for a trends relay that has a
/// follower, none for any other actor.
pub open spec fn task_of(db: DatabaseView, actor: ActorView) -> Option<TrendsTaskView> {
    task_for(actor, db.followers(actor.uri()))
}

/// The tasks that `actors` give rise to, in the order of the actors.
pub open spec fn tasks_of(db: DatabaseView, actors: Seq<ActorView>) -> Seq<TrendsTaskView>
    decreases actors.len(),
{
    if actors.len() == 0 {
        Seq::empty()
    } else {
        let rest = tasks_of(db, actors.drop_last());
        match task_of(db, actors.last()) {
            Some(task) => rest.push(task),
            None => rest,
        }
    }
}

/// The announcements of one post to each of `followers`.
pub open spec fn to_each(actor: ActorView, followers: Seq<RemoteActorView>, post: PostView) -> Seq<
    AnnouncementView,
> {
    Seq::new(
        followers.len(),
        |j: int| AnnouncementView { actor: actor, remote_actor: followers[j], post: post },
    )
}

/// The announcements of each of `posts` to each of `followers`: post by
/// post, and for each post follower by follower.
pub open spec fn fanout_of(
    actor: ActorView,
    followers: Seq<RemoteActorView>,
    posts: Seq<PostView>,
) -> Seq<AnnouncementView>
    decreases posts.len(),
{
    if posts.len() == 0 {
        Seq::empty()
    } else {
        fanout_of(actor, followers, posts.drop_last()) + to_each(actor, followers, posts.last())
    }
}

/// Every post is announced to every follower: there are as many
/// announcements as there are pairs of a post and a follower.
pub proof fn fanout_reaches_everyone(
    actor: ActorView,
    followers: Seq<RemoteActorView>,
    posts: Seq<PostView>,
)
    ensures
        fanout_of(actor, followers, posts).len() == posts.len() * followers.len(),
        forall|i: int, j: int|
            0 <= i < posts.len() && 0 <= j < followers.len() ==> fanout_of(actor, followers, posts)[i
                * followers.len() + j] == (AnnouncementView {
                actor: actor,
                remote_actor: followers[j],
                post: posts[i],
            }),
    decreases posts.len(),
{
    let count = followers.len() as int;
    if posts.len() > 0 {
        let rest = posts.drop_last();
        fanout_reaches_everyone(actor, followers, rest);
        let n = rest.len() as int;
        assert(posts.len() * count == n * count + count) by (nonlinear_arith)
            requires
                posts.len() == n + 1,
        ;
        assert forall|i: int, j: int| 0 <= i < posts.len() && 0 <= j < count implies fanout_of(
            actor,
            followers,
            posts,
        )[i * count + j] == (AnnouncementView {
            actor: actor,
            remote_actor: followers[j],
            post: posts[i],
        }) by {
            if i < n {
                assert(i * count + j < n * count) by (nonlinear_arith)
                    requires
                        0 <= i < n,
                        0 <= j < count,
                ;
                assert(0 <= i * count + j) by (nonlinear_arith)
                    requires
                        0 <= i,
                        0 <= j,
                        0 <= count,
                ;
                assert(rest[i] == posts[i]);
            } else {
                assert(i * count + j == n * count + j) by (nonlinear_arith)
                    requires
                        i == n,
                ;
                assert(0 <= n * count) by (nonlinear_arith)
                    requires
                        0 <= n,
                        0 <= count,
                ;
            }
        }
    } else {
        assert(posts.len() * count == 0) by (nonlinear_arith)
            requires
                posts.len() == 0,
        ;
    }
}

/// The announcements of each of `posts` to each of `followers` in the name
/// of `actor`: post by post, and for each post follower by follower.
pub fn fanout(actor: &Actor, followers: &Vec<RemoteActor>, posts: &Vec<Post>) -> (list: Vec<
    Announcement,
>)
    ensures
        announcement_views(list@) == fanout_of(
            actor@,
            remote_actor_views(followers@),
            post_views(posts@),
        ),
{
    let ghost all = post_views(posts@);
    let ghost to = remote_actor_views(followers@);
    let mut list: Vec<Announcement> = Vec::new();
    let mut i: usize = 0;
    while i < posts.len()
        invariant
            i <= posts.len(),
            all == post_views(posts@),
            to == remote_actor_views(followers@),
            announcement_views(list@) == fanout_of(actor@, to, all.take(i as int)),
        decreases posts.len() - i,
    {
        proof {
            assert(all.take(i + 1).drop_last() =~= all.take(i as int));
        }
        let ghost done = announcement_views(list@);
        let mut j: usize = 0;
        while j < followers.len()
            invariant
                j <= followers.len(),
                i < posts.len(),
                to == remote_actor_views(followers@),
                announcement_views(list@) =~= done + to_each(actor@, to, posts@[i as int]@).take(
                    j as int,
                ),
            decreases followers.len() - j,
        {
            let ghost had = announcement_views(list@);
            let item = Announcement {
                actor: actor.clone(),
                remote_actor: followers[j].clone(),
                post: posts[i].clone(),
            };
            list.push(item);
            proof {
                let each = to_each(actor@, to, posts@[i as int]@);
                assert(announcement_views(list@) =~= had.push(each[j as int]));
            }
            j += 1;
        }
        i += 1;
    }
    assert(all.take(i as int) =~= all);
    list
}

/// The task that `actor` with its `followers` gives rise to: one for a
/// trends relay that has a follower, none for any other actor.
pub open spec fn task_for(actor: ActorView, followers: Seq<RemoteActorView>) -> Option<TrendsTaskView> {
    match actor.kind {
        ActorKindView::TrendsRelay(instance) => if followers.len() > 0 {
            Some(TrendsTaskView { actor: actor, instance: instance, followers: followers })
        } else {
            None
        },
        ActorKindView::CompletionRelay => None,
    }
}

/// The task that `actor` with its `followers` gives rise to: one for a
/// trends relay that has a follower, none for any other actor.
pub fn task(actor: &Actor, followers: Vec<RemoteActor>) -> (due: Option<TrendsTask>)
    ensures
        match due {
            Some(t) => Some(t@),
            None => None,
        } == task_for(actor@, remote_actor_views(followers@)),
{
    match &actor.kind {
        ActorKind::TrendsRelay(instance) => {
            if followers.len() > 0 {
                Some(TrendsTask { actor: actor.clone(), instance: instance.clone(), followers })
            } else {
                None
            }
        },
        ActorKind::CompletionRelay => None,
    }
}

/// The tasks that `actors` give rise to: one for each trends relay among
/// them that has a follower.
pub fn plan(db: &Database, actors: &Vec<Actor>) -> (tasks: Vec<TrendsTask>)
    ensures
        task_views(tasks@) == tasks_of(db@, actor_views(actors@)),
{
    let ghost all = actor_views(actors@);
    let mut tasks: Vec<TrendsTask> = Vec::new();
    let mut i: usize = 0;
    while i < actors.len()
        invariant
            i <= actors.len(),
            all == actor_views(actors@),
            task_views(tasks@) == tasks_of(db@, all.take(i as int)),
        decreases actors.len() - i,
    {
        proof {
            assert(all.take(i + 1).drop_last() =~= all.take(i as int));
        }
        let actor = &actors[i];
        let followers = match db.get_following_remote_actors(actor) {
            Ok(list) => list,
            Err(_) => Vec::new(),
        };
        match task(actor, followers) {
            Some(t) => {
                tasks.push(t);
            },
            None => {},
        }
        i += 1;
    }
    assert(all.take(i as int) =~= all);
    tasks
}

/// What one round of the trends relay has to fetch: a task for each trends
/// relay that has a follower. The round fails with `InvalidUri` exactly
/// where a recorded address names no actor.
pub fn update_trends(db: &Database) -> (tasks: Result<Vec<TrendsTask>, Error>)
    ensures
        match tasks {
            Ok(list) => exists|actors: Seq<ActorView>|
                #![trigger tasks_of(db@, actors)]
                db@.lists_actors(actors) && task_views(list@) == tasks_of(db@, actors),
            Err(e) => {
                &&& e@ == crate::error::ErrorView::InvalidUri
                &&& exists|i: int|
                    0 <= i < db@.actor_uris().len() && actor_of_parts(
                        parsed_uri(#[trigger] db@.actor_uris()[i]),
                    ) is None
            },
        },
{
    let actors = match db.get_all_actors() {
        Ok(list) => list,
        Err(e) => return Err(e),
    };
    let tasks = plan(db, &actors);
    Ok(tasks)
}

} // verus!
