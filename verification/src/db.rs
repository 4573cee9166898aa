//! The store of the relay, held in memory.
use vstd::prelude::*;
use crate::actor::{Actor, RemoteActor, actor_of_parts, actor_views, remote_actor_views};
use crate::error::{Error, ErrorView};
use crate::post::{Post, PostView, post_views};
use crate::store::{
    DatabaseView, DescendantRow, FollowRow, InstanceRow, MonitorRow, RootRow, TimelineRow, bare_post,
    descendant_row, distinct_actors, found_after, found_after_fn, known_replies_change_nothing,
    numbered_posts,
};
use crate::text::str_eq;
use crate::uri::{opt_text, parsed_uri};

verus! {

struct Instance {
    host: String,
    api_type: String,
}

struct Follow {
    remote_actor: String,
    actor: String,
}

struct Root {
    uri: String,
    fetch_time: i64,
}

struct Descendant {
    uri: String,
    fetch_time: i64,
    ancester: String,
    sequence: i64,
}

struct Monitor {
    remote_actor: String,
    uri: String,
    update_sequence: i64,
}

struct Timeline {
    remote_actor: String,
    latest_id: Option<String>,
}

impl View for Instance {
    type V = InstanceRow;

    closed spec fn view(&self) -> InstanceRow {
        InstanceRow { host: self.host@, api_type: self.api_type@ }
    }
}

impl View for Follow {
    type V = FollowRow;

    closed spec fn view(&self) -> FollowRow {
        FollowRow { remote_actor: self.remote_actor@, actor: self.actor@ }
    }
}

impl View for Root {
    type V = RootRow;

    closed spec fn view(&self) -> RootRow {
        RootRow { uri: self.uri@, fetch_time: self.fetch_time as int }
    }
}

impl View for Descendant {
    type V = DescendantRow;

    closed spec fn view(&self) -> DescendantRow {
        DescendantRow {
            uri: self.uri@,
            fetch_time: self.fetch_time as int,
            ancester: self.ancester@,
            sequence: self.sequence as int,
        }
    }
}

impl View for Monitor {
    type V = MonitorRow;

    closed spec fn view(&self) -> MonitorRow {
        MonitorRow {
            remote_actor: self.remote_actor@,
            uri: self.uri@,
            update_sequence: self.update_sequence as int,
        }
    }
}

impl View for Timeline {
    type V = TimelineRow;

    closed spec fn view(&self) -> TimelineRow {
        TimelineRow { remote_actor: self.remote_actor@, latest_id: opt_text(self.latest_id) }
    }
}

/// The values of a list of posts that each come with a sequence number.
pub open spec fn numbered_views(posts: Seq<(Post, i64)>) -> Seq<(PostView, int)> {
    Seq::new(posts.len(), |i: int| (posts[i].0@, posts[i].1 as int))
}

/// The characters of each string of a list.
pub open spec fn texts(list: Seq<String>) -> Seq<Seq<char>> {
    Seq::new(list.len(), |i: int| list[i]@)
}

proof fn lemma_filter_step<A>(s: Seq<A>, i: int, pred: spec_fn(A) -> bool)
    requires
        0 <= i < s.len(),
    ensures
        s.take(i + 1).filter(pred) == if pred(s[i]) {
            s.take(i).filter(pred).push(s[i])
        } else {
            s.take(i).filter(pred)
        },
{
    s.lemma_take_succ_push(i);
    s.take(i).lemma_filter_push(s[i], pred);
}

fn contains_text(list: &Vec<String>, s: &str) -> (found: bool)
    ensures
        found == texts(list@).contains(s@),
{
    let mut i: usize = 0;
    while i < list.len()
        invariant
            i <= list.len(),
            forall|k: int| 0 <= k < i ==> texts(list@)[k] != s@,
        decreases list.len() - i,
    {
        if str_eq(list[i].as_str(), s) {
            assert(texts(list@)[i as int] == s@);
            return true;
        }
        i += 1;
    }
    false
}

/// The store of the relay: what it knows of instances, followers, tracked
/// posts and their replies, and how far each follower has been served.
pub struct Database {
    instances: Vec<Instance>,
    remote_actors: Vec<RemoteActor>,
    follows: Vec<Follow>,
    posts: Vec<Root>,
    descendants: Vec<Descendant>,
    monitor: Vec<Monitor>,
    timeline: Vec<Timeline>,
    last_sequence: i64,
}

impl View for Database {
    type V = DatabaseView;

    closed spec fn view(&self) -> DatabaseView {
        DatabaseView {
            instances: Seq::new(self.instances@.len(), |i: int| self.instances@[i]@),
            remote_actors: remote_actor_views(self.remote_actors@),
            follows: Seq::new(self.follows@.len(), |i: int| self.follows@[i]@),
            posts: Seq::new(self.posts@.len(), |i: int| self.posts@[i]@),
            descendants: Seq::new(self.descendants@.len(), |i: int| self.descendants@[i]@),
            monitor: Seq::new(self.monitor@.len(), |i: int| self.monitor@[i]@),
            timeline: Seq::new(self.timeline@.len(), |i: int| self.timeline@[i]@),
            last_sequence: self.last_sequence as int,
        }
    }
}

impl Database {
    /// Whether the tables keep their rules.
    pub open spec fn wf(&self) -> bool {
        self@.wf()
    }

    /// A store that remembers nothing.
    pub fn new() -> (db: Database)
        ensures
            db.wf(),
            db@ == DatabaseView::empty(),
    {
        let db = Database {
            instances: Vec::new(),
            remote_actors: Vec::new(),
            follows: Vec::new(),
            posts: Vec::new(),
            descendants: Vec::new(),
            monitor: Vec::new(),
            timeline: Vec::new(),
            last_sequence: 0,
        };
        assert(db@.instances =~= Seq::empty());
        assert(db@.remote_actors =~= Seq::empty());
        assert(db@.follows =~= Seq::empty());
        assert(db@.posts =~= Seq::empty());
        assert(db@.descendants =~= Seq::empty());
        assert(db@.monitor =~= Seq::empty());
        assert(db@.timeline =~= Seq::empty());
        db
    }

    fn find_instance(&self, host: &str) -> (found: Option<usize>)
        ensures
            match found {
                Some(i) => i < self@.instances.len() && self@.instances[i as int].host == host@,
                None => !self@.has_instance(host@),
            },
    {
        let mut i: usize = 0;
        while i < self.instances.len()
            invariant
                i <= self.instances.len(),
                forall|k: int| 0 <= k < i ==> self@.instances[k].host != host@,
            decreases self.instances.len() - i,
        {
            if str_eq(self.instances[i].host.as_str(), host) {
                return Some(i);
            }
            i += 1;
        }
        None
    }

    /// The dialect recorded for `host`, or a `Database` error where none is
    /// recorded.
    pub fn get_instance_type(&self, host: &str) -> (api_type: Result<String, Error>)
        requires
            self.wf(),
        ensures
            match api_type {
                Ok(t) => self@.instance_type(host@) == Some(t@),
                Err(e) => self@.instance_type(host@) is None && e@ == ErrorView::Database,
            },
    {
        match self.find_instance(host) {
            Some(i) => Ok(self.instances[i].api_type.clone()),
            None => Err(Error::Database),
        }
    }

    /// Records the dialect `api_type` for `host`. A dialect that is recorded
    /// already stays as it is.
    pub fn add_instance(&mut self, host: &str, api_type: &str) -> (done: Result<(), Error>)
        requires
            old(self).wf(),
        ensures
            final(self).wf(),
            done is Ok,
            final(self)@ == old(self)@.add_instance(host@, api_type@),
    {
        if self.find_instance(host).is_none() {
            self.instances.push(
                Instance { host: String::from_str(host), api_type: String::from_str(api_type) },
            );
            assert(self@.instances =~= old(self)@.instances.push(
                InstanceRow { host: host@, api_type: api_type@ },
            ));
            assert(self@ == old(self)@.add_instance(host@, api_type@));
        }
        Ok(())
    }

    fn find_remote_actor(&self, id: &str) -> (found: Option<usize>)
        ensures
            match found {
                Some(i) => i < self@.remote_actors.len() && self@.remote_actors[i as int].id == id@,
                None => !self@.has_remote_actor(id@),
            },
    {
        let mut i: usize = 0;
        while i < self.remote_actors.len()
            invariant
                i <= self.remote_actors.len(),
                forall|k: int| 0 <= k < i ==> self@.remote_actors[k].id != id@,
            decreases self.remote_actors.len() - i,
        {
            if str_eq(self.remote_actors[i].id.as_str(), id) {
                return Some(i);
            }
            i += 1;
        }
        None
    }

    fn find_follow(&self, id: &str, actor: &str) -> (found: Option<usize>)
        ensures
            match found {
                Some(i) => i < self@.follows.len() && self@.follows[i as int].remote_actor == id@
                    && self@.follows[i as int].actor == actor@,
                None => !self@.has_follow(id@, actor@),
            },
    {
        let mut i: usize = 0;
        while i < self.follows.len()
            invariant
                i <= self.follows.len(),
                forall|k: int|
                    0 <= k < i ==> !(self@.follows[k].remote_actor == id@ && self@.follows[k].actor
                        == actor@),
            decreases self.follows.len() - i,
        {
            if str_eq(self.follows[i].remote_actor.as_str(), id) && str_eq(
                self.follows[i].actor.as_str(),
                actor,
            ) {
                return Some(i);
            }
            i += 1;
        }
        None
    }

    /// Records that the remote actor `id`, reached at `inbox`, follows the
    /// actor at `actor`. The inbox replaces one recorded before; a follow
    /// that is recorded already stays as it is.
    pub fn add_follow(&mut self, id: &str, inbox: &str, actor: &str) -> (done: Result<(), Error>)
        requires
            old(self).wf(),
        ensures
            final(self).wf(),
            done is Ok,
            final(self)@ == old(self)@.add_follow(id@, inbox@, actor@),
    {
        let row = RemoteActor { id: String::from_str(id), inbox: String::from_str(inbox) };
        match self.find_remote_actor(id) {
            Some(i) => {
                self.remote_actors.set(i, row);
                assert(self@.remote_actors =~= old(self)@.remote_actors.update(i as int, row@));
            },
            None => {
                self.remote_actors.push(row);
                assert(self@.remote_actors =~= old(self)@.remote_actors.push(row@));
            },
        }
        if self.find_follow(id, actor).is_none() {
            self.follows.push(
                Follow { remote_actor: String::from_str(id), actor: String::from_str(actor) },
            );
            assert(self@.follows =~= old(self)@.follows.push(
                FollowRow { remote_actor: id@, actor: actor@ },
            ));
        }
        assert(self@ == old(self)@.add_follow(id@, inbox@, actor@));
        Ok(())
    }

    /// Forgets that the remote actor `id` follows the actor at `actor`.
    pub fn del_follow(&mut self, id: &str, actor: &str) -> (done: Result<(), Error>)
        requires
            old(self).wf(),
        ensures
            final(self).wf(),
            done is Ok,
            final(self)@ == old(self)@.del_follow(id@, actor@),
            !final(self)@.has_follow(id@, actor@),
    {
        match self.find_follow(id, actor) {
            Some(i) => {
                self.follows.remove(i);
                assert(self@.follows =~= old(self)@.follows.remove(i as int));
                assert(self@ == old(self)@.del_follow(id@, actor@));
            },
            None => {},
        }
        Ok(())
    }

    /// The addresses of the actors that have a follower, each once, in the
    /// order in which they were first followed.
    pub fn get_actor_uris(&self) -> (uris: Vec<String>)
        ensures
            texts(uris@) == self@.actor_uris(),
    {
        let mut uris: Vec<String> = Vec::new();
        let mut i: usize = 0;
        while i < self.follows.len()
            invariant
                i <= self.follows.len(),
                texts(uris@) =~= distinct_actors(self@.follows.take(i as int)),
            decreases self.follows.len() - i,
        {
            proof {
                let next = self@.follows.take(i + 1);
                assert(next.drop_last() =~= self@.follows.take(i as int));
            }
            if !contains_text(&uris, self.follows[i].actor.as_str()) {
                uris.push(self.follows[i].actor.clone());
            }
            i += 1;
        }
        assert(self@.follows.take(i as int) =~= self@.follows);
        uris
    }

    /// The actors that have a follower, each once. A recorded address that
    /// names no actor makes the whole listing fail with `InvalidUri`.
    pub fn get_all_actors(&self) -> (actors: Result<Vec<Actor>, Error>)
        ensures
            match actors {
                Ok(list) => self@.lists_actors(actor_views(list@)),
                Err(e) => {
                    &&& e@ == ErrorView::InvalidUri
                    &&& exists|i: int|
                        0 <= i < self@.actor_uris().len() && actor_of_parts(
                            parsed_uri(#[trigger] self@.actor_uris()[i]),
                        ) is None
                },
            },
    {
        let uris = self.get_actor_uris();
        let mut actors: Vec<Actor> = Vec::new();
        let mut i: usize = 0;
        while i < uris.len()
            invariant
                i <= uris.len(),
                texts(uris@) == self@.actor_uris(),
                actors@.len() == i,
                forall|k: int|
                    0 <= k < i ==> actor_of_parts(parsed_uri(#[trigger] self@.actor_uris()[k]))
                        == Some(actors@[k]@),
            decreases uris.len() - i,
        {
            assert(texts(uris@)[i as int] == uris@[i as int]@);
            match Actor::from_uri(uris[i].as_str()) {
                Ok(actor) => actors.push(actor),
                Err(_) => {
                    return Err(Error::InvalidUri);
                },
            }
            i += 1;
        }
        Ok(actors)
    }

    /// The remote actors that follow `actor`.
    pub fn get_following_remote_actors(&self, actor: &Actor) -> (followers: Result<
        Vec<RemoteActor>,
        Error,
    >)
        ensures
            followers is Ok,
            remote_actor_views(followers.unwrap()@) == self@.followers(actor@.uri()),
    {
        let uri = actor.uri();
        let mut followers: Vec<RemoteActor> = Vec::new();
        let mut i: usize = 0;
        let ghost pred = self@.follows_fn(uri@);
        assert(self@.remote_actors.take(0).filter(pred) =~= Seq::empty()) by {
            reveal(Seq::filter);
        }
        while i < self.remote_actors.len()
            invariant
                i <= self.remote_actors.len(),
                pred == self@.follows_fn(uri@),
                remote_actor_views(followers@) =~= self@.remote_actors.take(i as int).filter(pred),
            decreases self.remote_actors.len() - i,
        {
            proof {
                lemma_filter_step(self@.remote_actors, i as int, pred);
            }
            let id = &self.remote_actors[i].id;
            if self.find_follow(id.as_str(), uri.as_str()).is_some() {
                followers.push(self.remote_actors[i].clone());
            }
            i += 1;
        }
        assert(self@.remote_actors.take(i as int) =~= self@.remote_actors);
        Ok(followers)
    }

    fn find_root(&self, uri: &str) -> (found: Option<usize>)
        ensures
            match found {
                Some(i) => i < self@.posts.len() && self@.posts[i as int].uri == uri@,
                None => !self@.has_root(uri@),
            },
    {
        let mut i: usize = 0;
        while i < self.posts.len()
            invariant
                i <= self.posts.len(),
                forall|k: int| 0 <= k < i ==> self@.posts[k].uri != uri@,
            decreases self.posts.len() - i,
        {
            if str_eq(self.posts[i].uri.as_str(), uri) {
                return Some(i);
            }
            i += 1;
        }
        None
    }

    fn find_descendant(&self, uri: &str) -> (found: Option<usize>)
        ensures
            match found {
                Some(i) => i < self@.descendants.len() && self@.descendants[i as int].uri == uri@,
                None => !self@.has_descendant(uri@),
            },
    {
        let mut i: usize = 0;
        while i < self.descendants.len()
            invariant
                i <= self.descendants.len(),
                forall|k: int| 0 <= k < i ==> self@.descendants[k].uri != uri@,
            decreases self.descendants.len() - i,
        {
            if str_eq(self.descendants[i].uri.as_str(), uri) {
                return Some(i);
            }
            i += 1;
        }
        None
    }

    /// The tracked posts, in the order in which they were first seen.
    pub fn get_all_posts(&self) -> (posts: Result<Vec<Post>, Error>)
        ensures
            posts is Ok,
            post_views(posts.unwrap()@) == self@.roots(),
    {
        let mut posts: Vec<Post> = Vec::new();
        let mut i: usize = 0;
        while i < self.posts.len()
            invariant
                i <= self.posts.len(),
                posts@.len() == i,
                forall|k: int|
                    0 <= k < i ==> (#[trigger] posts@[k])@ == bare_post(
                        self@.posts[k].uri,
                        self@.posts[k].fetch_time,
                    ),
            decreases self.posts.len() - i,
        {
            posts.push(bare(self.posts[i].uri.as_str(), self.posts[i].fetch_time));
            i += 1;
        }
        Ok(posts)
    }

    fn brings_new(&self, posts: &Vec<Post>) -> (new: bool)
        ensures
            new == self@.brings_new(post_views(posts@)),
    {
        let mut i: usize = 0;
        while i < posts.len()
            invariant
                i <= posts.len(),
                forall|k: int| 0 <= k < i ==> self@.has_descendant(#[trigger] post_views(posts@)[k].uri),
            decreases posts.len() - i,
        {
            if self.find_descendant(posts[i].uri.as_str()).is_none() {
                assert(!self@.has_descendant(post_views(posts@)[i as int].uri));
                return true;
            }
            i += 1;
        }
        false
    }

    /// Records `descendants` as replies under `post`, in the order given.
    /// Each one that is not recorded yet gets the next sequence number; the
    /// others are passed over, and where all are recorded already nothing
    /// changes. Where one is new, nothing is recorded and the error is
    /// `Database` if `post` is not tracked or the counter would run out.
    pub fn insert_descendants(&mut self, post: &Post, descendants: &Vec<Post>) -> (done: Result<
        (),
        Error,
    >)
        requires
            old(self).wf(),
        ensures
            final(self).wf(),
            final(self)@ == old(self)@.insert_descendants(post@.uri, post_views(descendants@)),
            match done {
                Ok(_) => old(self)@.accepts_descendants(post@.uri, post_views(descendants@)),
                Err(e) => !old(self)@.accepts_descendants(post@.uri, post_views(descendants@))
                    && e@ == ErrorView::Database,
            },
    {
        let ghost all = post_views(descendants@);
        if !self.brings_new(descendants) {
            proof {
                known_replies_change_nothing(self@, post@.uri, all);
            }
            return Ok(());
        }
        if self.find_root(post.uri.as_str()).is_none() {
            return Err(Error::Database);
        }
        if descendants.len() as u64 > (i64::MAX - self.last_sequence) as u64 {
            return Err(Error::Database);
        }
        let mut i: usize = 0;
        assert(all.skip(0) =~= all);
        while i < descendants.len()
            invariant
                i <= descendants.len(),
                all == post_views(descendants@),
                self.wf(),
                self@.last_sequence + (descendants.len() - i) <= i64::MAX,
                self@.insert_each(post@.uri, all.skip(i as int)) == old(self)@.insert_each(
                    post@.uri,
                    all,
                ),
            decreases descendants.len() - i,
        {
            let ghost before = self@;
            proof {
                assert(all.skip(i as int).drop_first() =~= all.skip(i + 1));
            }
            let d = &descendants[i];
            if self.find_descendant(d.uri.as_str()).is_none() {
                let sequence = self.last_sequence + 1;
                self.descendants.push(
                    Descendant {
                        uri: d.uri.clone(),
                        fetch_time: d.fetch_time,
                        ancester: post.uri.clone(),
                        sequence,
                    },
                );
                self.last_sequence = sequence;
                assert(self@.descendants =~= before.descendants.push(
                    descendant_row(d@, post@.uri, before.last_sequence + 1),
                ));
            }
            i += 1;
        }
        Ok(())
    }

    /// The replies under `post` that were found after `sequence`, each with
    /// its sequence number, in the order in which they were found.
    pub fn get_descendants_after(&self, post: &Post, sequence: i64) -> (found: Result<
        Vec<(Post, i64)>,
        Error,
    >)
        ensures
            found is Ok,
            numbered_views(found.unwrap()@) == self@.posts_after(post@.uri, sequence as int),
    {
        let mut found: Vec<(Post, i64)> = Vec::new();
        let mut i: usize = 0;
        let ghost pred = found_after_fn(post@.uri, sequence as int);
        assert(self@.descendants.take(0).filter(pred) =~= Seq::empty()) by {
            reveal(Seq::filter);
        }
        while i < self.descendants.len()
            invariant
                i <= self.descendants.len(),
                pred == found_after_fn(post@.uri, sequence as int),
                numbered_views(found@) =~= numbered_posts(
                    self@.descendants.take(i as int).filter(pred),
                ),
            decreases self.descendants.len() - i,
        {
            let ghost kept = self@.descendants.take(i as int).filter(pred);
            let ghost before = found@;
            proof {
                lemma_filter_step(self@.descendants, i as int, pred);
            }
            let row = &self.descendants[i];
            if str_eq(row.ancester.as_str(), post.uri.as_str()) && row.sequence > sequence {
                found.push((bare(row.uri.as_str(), row.fetch_time), row.sequence));
                proof {
                    let after = kept.push(row@);
                    assert(numbered_views(before).len() == before.len());
                    assert forall|k: int| 0 <= k < found@.len() implies numbered_views(found@)[k]
                        == numbered_posts(after)[k] by {
                        if k < before.len() {
                            assert(numbered_views(before)[k] == numbered_posts(kept)[k]);
                        }
                    }
                }
            }
            i += 1;
        }
        assert(self@.descendants.take(i as int) =~= self@.descendants);
        Ok(found)
    }

    fn find_monitor(&self, id: &str, uri: &str) -> (found: Option<usize>)
        ensures
            match found {
                Some(i) => i < self@.monitor.len() && self@.monitor[i as int].remote_actor == id@
                    && self@.monitor[i as int].uri == uri@,
                None => !self@.has_monitor(id@, uri@),
            },
    {
        let mut i: usize = 0;
        while i < self.monitor.len()
            invariant
                i <= self.monitor.len(),
                forall|k: int|
                    0 <= k < i ==> !(self@.monitor[k].remote_actor == id@ && self@.monitor[k].uri
                        == uri@),
            decreases self.monitor.len() - i,
        {
            if str_eq(self.monitor[i].remote_actor.as_str(), id) && str_eq(
                self.monitor[i].uri.as_str(),
                uri,
            ) {
                return Some(i);
            }
            i += 1;
        }
        None
    }

    fn find_cursor(&self, id: &str) -> (found: Option<usize>)
        ensures
            match found {
                Some(i) => i < self@.timeline.len() && self@.timeline[i as int].remote_actor == id@,
                None => !self@.has_cursor(id@),
            },
    {
        let mut i: usize = 0;
        while i < self.timeline.len()
            invariant
                i <= self.timeline.len(),
                forall|k: int| 0 <= k < i ==> self@.timeline[k].remote_actor != id@,
            decreases self.timeline.len() - i,
        {
            if str_eq(self.timeline[i].remote_actor.as_str(), id) {
                return Some(i);
            }
            i += 1;
        }
        None
    }

    /// Tracks each of `posts` and links it to `remote_actor`, starting at
    /// sequence number 0. What is tracked or linked already stays as it is.
    /// Where `remote_actor` is not known the posts are tracked all the same,
    /// no link is made, and the error is `Database`.
    pub fn monitor_posts(&mut self, remote_actor: &RemoteActor, posts: &Vec<Post>) -> (done: Result<
        (),
        Error,
    >)
        requires
            old(self).wf(),
        ensures
            final(self).wf(),
            final(self)@ == old(self)@.monitor_posts(remote_actor@.id, post_views(posts@)),
            match done {
                Ok(_) => old(self)@.has_remote_actor(remote_actor@.id) || posts@.len() == 0,
                Err(e) => !old(self)@.has_remote_actor(remote_actor@.id) && posts@.len() > 0 && e@
                    == ErrorView::Database,
            },
    {
        let ghost all = post_views(posts@);
        let id = remote_actor.id.as_str();
        let known = self.find_remote_actor(id).is_some();
        let mut i: usize = 0;
        assert(all.skip(0) =~= all);
        while i < posts.len()
            invariant
                i <= posts.len(),
                all == post_views(posts@),
                id@ == remote_actor@.id,
                self.wf(),
                known == self@.has_remote_actor(id@),
                self@.remote_actors == old(self)@.remote_actors,
                self@.monitor_posts(id@, all.skip(i as int)) == old(self)@.monitor_posts(id@, all),
            decreases posts.len() - i,
        {
            let ghost before = self@;
            proof {
                assert(all.skip(i as int).drop_first() =~= all.skip(i + 1));
            }
            let p = &posts[i];
            if self.find_root(p.uri.as_str()).is_none() {
                self.posts.push(Root { uri: p.uri.clone(), fetch_time: p.fetch_time });
                assert(self@.posts =~= before.posts.push(
                    RootRow { uri: p@.uri, fetch_time: p@.fetch_time },
                ));
            }
            if known && self.find_monitor(id, p.uri.as_str()).is_none() {
                self.monitor.push(
                    Monitor {
                        remote_actor: remote_actor.id.clone(),
                        uri: p.uri.clone(),
                        update_sequence: 0,
                    },
                );
                assert(self@.monitor =~= before.monitor.push(
                    MonitorRow { remote_actor: id@, uri: p@.uri, update_sequence: 0 },
                ));
            }
            assert(self@.remote_actors =~= before.remote_actors);
            i += 1;
        }
        if known || posts.len() == 0 {
            Ok(())
        } else {
            Err(Error::Database)
        }
    }

    /// The tracked posts that `remote_actor` is linked to, each with the
    /// sequence number up to which the remote actor has been told of its
    /// replies.
    pub fn get_monitoring_posts_of(&self, remote_actor: &RemoteActor) -> (linked: Result<
        Vec<(Post, i64)>,
        Error,
    >)
        requires
            self.wf(),
        ensures
            linked is Ok,
            numbered_views(linked.unwrap()@) == self@.monitoring_posts_of(remote_actor@.id),
    {
        let mut linked: Vec<(Post, i64)> = Vec::new();
        let mut i: usize = 0;
        let ghost pred = self@.monitored_fn(remote_actor@.id);
        assert(self@.monitor.take(0).filter(pred) =~= Seq::empty()) by {
            reveal(Seq::filter);
        }
        while i < self.monitor.len()
            invariant
                i <= self.monitor.len(),
                self.wf(),
                pred == self@.monitored_fn(remote_actor@.id),
                numbered_views(linked@) =~= self@.linked_posts(
                    self@.monitor.take(i as int).filter(pred),
                ),
            decreases self.monitor.len() - i,
        {
            let ghost kept = self@.monitor.take(i as int).filter(pred);
            let ghost before = linked@;
            let row = &self.monitor[i];
            proof {
                lemma_filter_step(self@.monitor, i as int, pred);
            }
            if str_eq(row.remote_actor.as_str(), remote_actor.id.as_str()) {
                match self.find_root(row.uri.as_str()) {
                    Some(j) => {
                        linked.push(
                            (bare(row.uri.as_str(), self.posts[j].fetch_time), row.update_sequence),
                        );
                        proof {
                            let after = kept.push(row@);
                            assert(numbered_views(before).len() == before.len());
                            assert forall|k: int| 0 <= k < linked@.len() implies numbered_views(
                                linked@,
                            )[k] == self@.linked_posts(after)[k] by {
                                if k < before.len() {
                                    assert(numbered_views(before)[k] == self@.linked_posts(kept)[k]);
                                }
                            }
                        }
                    },
                    None => {},
                }
            }
            i += 1;
        }
        assert(self@.monitor.take(i as int) =~= self@.monitor);
        Ok(linked)
    }

    /// Moves the link between `remote_actor` and `post` forward to
    /// `update_sequence`. A link never moves back; where there is no such
    /// link nothing changes.
    pub fn update_monitoring_post(
        &mut self,
        remote_actor: &RemoteActor,
        post: &Post,
        update_sequence: i64,
    ) -> (done: Result<(), Error>)
        requires
            old(self).wf(),
        ensures
            final(self).wf(),
            done is Ok,
            final(self)@ == old(self)@.update_monitoring_post(
                remote_actor@.id,
                post@.uri,
                update_sequence as int,
            ),
    {
        match self.find_monitor(remote_actor.id.as_str(), post.uri.as_str()) {
            Some(i) => {
                let now = self.monitor[i].update_sequence;
                let next = if update_sequence > now {
                    update_sequence
                } else {
                    now
                };
                let row = Monitor {
                    remote_actor: remote_actor.id.clone(),
                    uri: post.uri.clone(),
                    update_sequence: next,
                };
                self.monitor.set(i, row);
                assert(self@.monitor =~= old(self)@.monitor.update(i as int, row@));
                assert(self@.instances =~= old(self)@.instances);
                assert(self@.remote_actors =~= old(self)@.remote_actors);
                assert(self@.follows =~= old(self)@.follows);
                assert(self@.posts =~= old(self)@.posts);
                assert(self@.descendants =~= old(self)@.descendants);
            },
            None => {},
        }
        Ok(())
    }

    /// The identifier of the last post that was read from the timeline of
    /// the instance of `remote_actor`, where one is recorded.
    pub fn get_latest_id_of(&self, remote_actor: &RemoteActor) -> (latest_id: Option<String>)
        requires
            self.wf(),
        ensures
            opt_text(latest_id) == self@.latest_id_of(remote_actor@.id),
    {
        match self.find_cursor(remote_actor.id.as_str()) {
            Some(i) => match &self.timeline[i].latest_id {
                Some(id) => Some(id.clone()),
                None => None,
            },
            None => None,
        }
    }

    /// Records `latest_id` as the last post read from the timeline of the
    /// instance of `remote_actor`. Where `remote_actor` is not known nothing
    /// is recorded and the error is `Database`.
    pub fn update_timeline(&mut self, remote_actor: &RemoteActor, latest_id: &Option<String>) -> (done:
        Result<(), Error>)
        requires
            old(self).wf(),
        ensures
            final(self).wf(),
            final(self)@ == old(self)@.update_timeline(remote_actor@.id, opt_text(*latest_id)),
            match done {
                Ok(_) => old(self)@.has_remote_actor(remote_actor@.id),
                Err(e) => !old(self)@.has_remote_actor(remote_actor@.id) && e@
                    == ErrorView::Database,
            },
    {
        if self.find_remote_actor(remote_actor.id.as_str()).is_none() {
            return Err(Error::Database);
        }
        let row = Timeline {
            remote_actor: remote_actor.id.clone(),
            latest_id: match latest_id {
                Some(id) => Some(id.clone()),
                None => None,
            },
        };
        let found = self.find_cursor(remote_actor.id.as_str());
        match found {
            Some(i) => {
                self.timeline.set(i, row);
                assert(self@.timeline =~= old(self)@.timeline.update(i as int, row@));
            },
            None => {
                self.timeline.push(row);
                assert(self@.timeline =~= old(self)@.timeline.push(row@));
            },
        }
        assert(self@.instances =~= old(self)@.instances);
        assert(self@.follows =~= old(self)@.follows);
        assert(self@.posts =~= old(self)@.posts);
        assert(self@.descendants =~= old(self)@.descendants);
        assert(self@.monitor =~= old(self)@.monitor);
        Ok(())
    }
}

/// A post of which only the address and the fetch time are known.
pub fn bare(uri: &str, fetch_time: i64) -> (post: Post)
    ensures
        post@ == bare_post(uri@, fetch_time as int),
{
    Post {
        uri: String::from_str(uri),
        fetch_time,
        timeline_id: None,
        created_at: None,
        in_reply_to_id: None,
        reblog: None,
    }
}

} // verus!
