//! The state of the relay as mathematics: seven tables and a counter, the
//! rules that keep them sound, and what each operation of the store does to
//! them.
use vstd::prelude::*;
use crate::actor::{ActorView, RemoteActorView, actor_of_parts};
use crate::uri::parsed_uri;
use crate::post::PostView;

verus! {

/// An instance and the dialect recorded for it.
pub struct InstanceRow {
    pub host: Seq<char>,
    pub api_type: Seq<char>,
}

/// A remote actor follows an actor of the relay.
pub struct FollowRow {
    pub remote_actor: Seq<char>,
    pub actor: Seq<char>,
}

/// A post whose replies are tracked.
pub struct RootRow {
    pub uri: Seq<char>,
    pub fetch_time: int,
}

/// A reply found under a tracked post, with its place in the order of
/// discovery.
pub struct DescendantRow {
    pub uri: Seq<char>,
    pub fetch_time: int,
    pub ancester: Seq<char>,
    pub sequence: int,
}

/// A follower is told of the replies under a tracked post that were found
/// after `update_sequence`.
pub struct MonitorRow {
    pub remote_actor: Seq<char>,
    pub uri: Seq<char>,
    pub update_sequence: int,
}

/// How far the global timeline of a follower's instance has been read.
pub struct TimelineRow {
    pub remote_actor: Seq<char>,
    pub latest_id: Option<Seq<char>>,
}

/// Everything the relay remembers. Each table lists its rows in the order in
/// which they were inserted.
pub struct DatabaseView {
    pub instances: Seq<InstanceRow>,
    pub remote_actors: Seq<RemoteActorView>,
    pub follows: Seq<FollowRow>,
    pub posts: Seq<RootRow>,
    pub descendants: Seq<DescendantRow>,
    pub monitor: Seq<MonitorRow>,
    pub timeline: Seq<TimelineRow>,
    /// The sequence number that was handed out last.
    pub last_sequence: int,
}

/// A post of which only the address and the fetch time are known.
pub open spec fn bare_post(uri: Seq<char>, fetch_time: int) -> PostView {
    PostView {
        uri: uri,
        fetch_time: fetch_time,
        timeline_id: None,
        created_at: None,
        in_reply_to_id: None,
        reblog: None,
    }
}

/// The row at which a reply is recorded.
pub open spec fn descendant_row(p: PostView, root: Seq<char>, sequence: int) -> DescendantRow {
    DescendantRow { uri: p.uri, fetch_time: p.fetch_time, ancester: root, sequence: sequence }
}

/// Whether `row` is a reply under `root` that was found after `sequence`.
pub open spec fn found_after(row: DescendantRow, root: Seq<char>, sequence: int) -> bool {
    row.ancester == root && row.sequence > sequence
}

/// The test that [`found_after`] makes, as a function of the row.
pub open spec fn found_after_fn(root: Seq<char>, sequence: int) -> spec_fn(DescendantRow) -> bool {
    |row: DescendantRow| found_after(row, root, sequence)
}

/// The replies of `rows` as posts, each with its sequence number.
pub open spec fn numbered_posts(rows: Seq<DescendantRow>) -> Seq<(PostView, int)> {
    Seq::new(rows.len(), |i: int| (bare_post(rows[i].uri, rows[i].fetch_time), rows[i].sequence))
}

/// The greatest sequence number among `rows`, or `floor` where none is
/// greater.
pub open spec fn max_sequence(rows: Seq<DescendantRow>, floor: int) -> int
    decreases rows.len(),
{
    if rows.len() == 0 {
        floor
    } else {
        let rest = max_sequence(rows.drop_last(), floor);
        if rows.last().sequence > rest {
            rows.last().sequence
        } else {
            rest
        }
    }
}

/// The addresses in `follows`, each once, in the order of first appearance.
pub open spec fn distinct_actors(follows: Seq<FollowRow>) -> Seq<Seq<char>>
    decreases follows.len(),
{
    if follows.len() == 0 {
        Seq::empty()
    } else {
        let rest = distinct_actors(follows.drop_last());
        if rest.contains(follows.last().actor) {
            rest
        } else {
            rest.push(follows.last().actor)
        }
    }
}

impl DatabaseView {
    /// The store that remembers nothing.
    pub open spec fn empty() -> DatabaseView {
        DatabaseView {
            instances: Seq::empty(),
            remote_actors: Seq::empty(),
            follows: Seq::empty(),
            posts: Seq::empty(),
            descendants: Seq::empty(),
            monitor: Seq::empty(),
            timeline: Seq::empty(),
            last_sequence: 0,
        }
    }

    /// The rules of the tables: every key occurs once, and the sequence
    /// numbers of the replies grow in the order of insertion and stay within
    /// what the counter has handed out.
    pub open spec fn wf(self) -> bool {
        &&& forall|i: int, j: int|
            0 <= i < j < self.instances.len() ==> self.instances[i].host != self.instances[j].host
        &&& forall|i: int, j: int|
            0 <= i < j < self.remote_actors.len() ==> self.remote_actors[i].id
                != self.remote_actors[j].id
        &&& forall|i: int, j: int|
            0 <= i < j < self.follows.len() ==> !(self.follows[i].remote_actor
                == self.follows[j].remote_actor && self.follows[i].actor == self.follows[j].actor)
        &&& forall|i: int, j: int|
            0 <= i < j < self.posts.len() ==> self.posts[i].uri != self.posts[j].uri
        &&& forall|i: int, j: int|
            0 <= i < j < self.descendants.len() ==> self.descendants[i].uri
                != self.descendants[j].uri
        &&& forall|i: int, j: int|
            0 <= i < j < self.monitor.len() ==> !(self.monitor[i].remote_actor
                == self.monitor[j].remote_actor && self.monitor[i].uri == self.monitor[j].uri)
        &&& forall|i: int, j: int|
            0 <= i < j < self.timeline.len() ==> self.timeline[i].remote_actor
                != self.timeline[j].remote_actor
        &&& forall|i: int, j: int|
            0 <= i < j < self.descendants.len() ==> self.descendants[i].sequence
                < self.descendants[j].sequence
        &&& forall|i: int|
            0 <= i < self.descendants.len() ==> 0 < (#[trigger] self.descendants[i]).sequence
                <= self.last_sequence
        &&& forall|i: int|
            0 <= i < self.monitor.len() ==> 0 <= (#[trigger] self.monitor[i]).update_sequence
        &&& 0 <= self.last_sequence <= i64::MAX
    }

    // ----- instances -----

    /// Whether a dialect is recorded for `host`.
    pub open spec fn has_instance(self, host: Seq<char>) -> bool {
        exists|i: int| 0 <= i < self.instances.len() && self.instances[i].host == host
    }

    /// The dialect recorded for `host`.
    pub open spec fn instance_type(self, host: Seq<char>) -> Option<Seq<char>> {
        if self.has_instance(host) {
            let i = choose|i: int| 0 <= i < self.instances.len() && self.instances[i].host == host;
            Some(self.instances[i].api_type)
        } else {
            None
        }
    }

    /// Records `api_type` for `host`, unless a dialect is recorded already.
    pub open spec fn add_instance(self, host: Seq<char>, api_type: Seq<char>) -> DatabaseView {
        if self.has_instance(host) {
            self
        } else {
            DatabaseView {
                instances: self.instances.push(InstanceRow { host: host, api_type: api_type }),
                ..self
            }
        }
    }

    // ----- remote actors and follows -----

    /// Whether a remote actor with this address is known.
    pub open spec fn has_remote_actor(self, id: Seq<char>) -> bool {
        exists|i: int| 0 <= i < self.remote_actors.len() && self.remote_actors[i].id == id
    }

    /// Whether the remote actor `id` follows the actor at `actor`.
    pub open spec fn has_follow(self, id: Seq<char>, actor: Seq<char>) -> bool {
        exists|i: int|
            0 <= i < self.follows.len() && self.follows[i].remote_actor == id
                && self.follows[i].actor == actor
    }

    /// The known remote actors with the inbox of `id` set to `inbox`: the
    /// most recent inbox wins.
    pub open spec fn upsert_remote_actor(self, id: Seq<char>, inbox: Seq<char>) -> Seq<
        RemoteActorView,
    > {
        let row = RemoteActorView { id: id, inbox: inbox };
        if self.has_remote_actor(id) {
            let i = choose|i: int|
                0 <= i < self.remote_actors.len() && self.remote_actors[i].id == id;
            self.remote_actors.update(i, row)
        } else {
            self.remote_actors.push(row)
        }
    }

    /// Records that the remote actor `id`, reached at `inbox`, follows the
    /// actor at `actor`.
    pub open spec fn add_follow(
        self,
        id: Seq<char>,
        inbox: Seq<char>,
        actor: Seq<char>,
    ) -> DatabaseView {
        DatabaseView {
            remote_actors: self.upsert_remote_actor(id, inbox),
            follows: if self.has_follow(id, actor) {
                self.follows
            } else {
                self.follows.push(FollowRow { remote_actor: id, actor: actor })
            },
            ..self
        }
    }

    /// Forgets that the remote actor `id` follows the actor at `actor`.
    pub open spec fn del_follow(self, id: Seq<char>, actor: Seq<char>) -> DatabaseView {
        if self.has_follow(id, actor) {
            let i = choose|i: int|
                0 <= i < self.follows.len() && self.follows[i].remote_actor == id
                    && self.follows[i].actor == actor;
            DatabaseView { follows: self.follows.remove(i), ..self }
        } else {
            self
        }
    }

    /// The addresses of the actors that have a follower, each once.
    pub open spec fn actor_uris(self) -> Seq<Seq<char>> {
        distinct_actors(self.follows)
    }

    /// Whether `actors` are the actors that have a follower: one for each
    /// address, in the same order, each the actor that its address names.
    pub open spec fn lists_actors(self, actors: Seq<ActorView>) -> bool {
        &&& actors.len() == self.actor_uris().len()
        &&& forall|i: int|
            0 <= i < actors.len() ==> actor_of_parts(parsed_uri(#[trigger] self.actor_uris()[i]))
                == Some(actors[i])
    }

    /// The test whether a remote actor follows the actor at `actor`.
    pub open spec fn follows_fn(self, actor: Seq<char>) -> spec_fn(RemoteActorView) -> bool {
        |r: RemoteActorView| self.has_follow(r.id, actor)
    }

    /// The remote actors that follow the actor at `actor`.
    pub open spec fn followers(self, actor: Seq<char>) -> Seq<RemoteActorView> {
        self.remote_actors.filter(self.follows_fn(actor))
    }

    // ----- tracked posts and their replies -----

    /// Whether the post at `uri` is tracked.
    pub open spec fn has_root(self, uri: Seq<char>) -> bool {
        exists|i: int| 0 <= i < self.posts.len() && self.posts[i].uri == uri
    }

    /// When the tracked post at `uri` was fetched.
    pub open spec fn root_time(self, uri: Seq<char>) -> int {
        let i = choose|i: int| 0 <= i < self.posts.len() && self.posts[i].uri == uri;
        self.posts[i].fetch_time
    }

    /// The tracked posts.
    pub open spec fn roots(self) -> Seq<PostView> {
        Seq::new(
            self.posts.len(),
            |i: int| bare_post(self.posts[i].uri, self.posts[i].fetch_time),
        )
    }

    /// Whether the post at `uri` is recorded as a reply.
    pub open spec fn has_descendant(self, uri: Seq<char>) -> bool {
        exists|i: int| 0 <= i < self.descendants.len() && self.descendants[i].uri == uri
    }

    /// Records `p` as a reply under `root` with the next sequence number,
    /// unless it is recorded already.
    pub open spec fn insert_descendant(self, root: Seq<char>, p: PostView) -> DatabaseView {
        if self.has_descendant(p.uri) {
            self
        } else {
            DatabaseView {
                descendants: self.descendants.push(
                    descendant_row(p, root, self.last_sequence + 1),
                ),
                last_sequence: self.last_sequence + 1,
                ..self
            }
        }
    }

    /// Records each of `posts` in turn as a reply under `root`.
    pub open spec fn insert_each(self, root: Seq<char>, posts: Seq<PostView>) -> DatabaseView
        decreases posts.len(),
    {
        if posts.len() == 0 {
            self
        } else {
            self.insert_descendant(root, posts[0]).insert_each(root, posts.drop_first())
        }
    }

    /// Whether one of `posts` is not recorded as a reply yet.
    pub open spec fn brings_new(self, posts: Seq<PostView>) -> bool {
        exists|i: int| 0 <= i < posts.len() && !self.has_descendant(#[trigger] posts[i].uri)
    }

    /// Whether `posts` can be recorded as replies under `root`. Replies that
    /// are recorded already are passed over whatever the root is. Where one
    /// of them is new, the post at `root` has to be tracked and the counter
    /// has to have a number left for each.
    pub open spec fn accepts_descendants(self, root: Seq<char>, posts: Seq<PostView>) -> bool {
        !self.brings_new(posts) || (self.has_root(root) && self.last_sequence + posts.len()
            <= i64::MAX)
    }

    /// Records `posts` as replies under `root`, where that can be done.
    pub open spec fn insert_descendants(self, root: Seq<char>, posts: Seq<PostView>) -> DatabaseView {
        if self.accepts_descendants(root, posts) {
            self.insert_each(root, posts)
        } else {
            self
        }
    }

    /// The replies under `root` that were found after `sequence`, in the
    /// order in which they were found.
    pub open spec fn descendants_after(self, root: Seq<char>, sequence: int) -> Seq<DescendantRow> {
        self.descendants.filter(found_after_fn(root, sequence))
    }

    /// The same replies as posts, each with its sequence number.
    pub open spec fn posts_after(self, root: Seq<char>, sequence: int) -> Seq<(PostView, int)> {
        numbered_posts(self.descendants_after(root, sequence))
    }

    // ----- monitor links -----

    /// Whether the remote actor `id` is told of replies under the post at
    /// `uri`.
    pub open spec fn has_monitor(self, id: Seq<char>, uri: Seq<char>) -> bool {
        exists|i: int|
            0 <= i < self.monitor.len() && self.monitor[i].remote_actor == id
                && self.monitor[i].uri == uri
    }

    /// The sequence number up to which the remote actor `id` has been told
    /// of the replies under the post at `uri`.
    pub open spec fn update_sequence(self, id: Seq<char>, uri: Seq<char>) -> Option<int> {
        if self.has_monitor(id, uri) {
            let i = choose|i: int|
                0 <= i < self.monitor.len() && self.monitor[i].remote_actor == id
                    && self.monitor[i].uri == uri;
            Some(self.monitor[i].update_sequence)
        } else {
            None
        }
    }

    /// Tracks the post `p` and, where the remote actor `id` is known, links
    /// it to the post, each unless that is so already.
    pub open spec fn monitor_post(self, id: Seq<char>, p: PostView) -> DatabaseView {
        DatabaseView {
            posts: if self.has_root(p.uri) {
                self.posts
            } else {
                self.posts.push(RootRow { uri: p.uri, fetch_time: p.fetch_time })
            },
            monitor: if self.has_monitor(id, p.uri) || !self.has_remote_actor(id) {
                self.monitor
            } else {
                self.monitor.push(MonitorRow { remote_actor: id, uri: p.uri, update_sequence: 0 })
            },
            ..self
        }
    }

    /// Does to each of `posts` in turn what [`Self::monitor_post`] does to one.
    pub open spec fn monitor_posts(self, id: Seq<char>, posts: Seq<PostView>) -> DatabaseView
        decreases posts.len(),
    {
        if posts.len() == 0 {
            self
        } else {
            self.monitor_post(id, posts[0]).monitor_posts(id, posts.drop_first())
        }
    }

    /// The test whether a link belongs to the remote actor `id` and leads
    /// to a tracked post.
    pub open spec fn monitored_fn(self, id: Seq<char>) -> spec_fn(MonitorRow) -> bool {
        |m: MonitorRow| m.remote_actor == id && self.has_root(m.uri)
    }

    /// The links of the remote actor `id` that lead to a tracked post.
    pub open spec fn monitor_links_of(self, id: Seq<char>) -> Seq<MonitorRow> {
        self.monitor.filter(self.monitored_fn(id))
    }

    /// The posts that `links` lead to, each with the sequence number of its
    /// link.
    pub open spec fn linked_posts(self, links: Seq<MonitorRow>) -> Seq<(PostView, int)> {
        Seq::new(
            links.len(),
            |i: int| (bare_post(links[i].uri, self.root_time(links[i].uri)), links[i].update_sequence),
        )
    }

    /// The tracked posts that the remote actor `id` is linked to, each with
    /// the sequence number up to which the remote actor has been told.
    pub open spec fn monitoring_posts_of(self, id: Seq<char>) -> Seq<(PostView, int)> {
        self.linked_posts(self.monitor_links_of(id))
    }

    /// Moves the link between the remote actor `id` and the post at `uri`
    /// forward to `sequence`. A link never moves back, and where there is no
    /// link nothing changes.
    pub open spec fn update_monitoring_post(
        self,
        id: Seq<char>,
        uri: Seq<char>,
        sequence: int,
    ) -> DatabaseView {
        if self.has_monitor(id, uri) {
            let i = choose|i: int|
                0 <= i < self.monitor.len() && self.monitor[i].remote_actor == id
                    && self.monitor[i].uri == uri;
            let now = self.monitor[i].update_sequence;
            DatabaseView {
                monitor: self.monitor.update(
                    i,
                    MonitorRow {
                        remote_actor: id,
                        uri: uri,
                        update_sequence: if sequence > now {
                            sequence
                        } else {
                            now
                        },
                    },
                ),
                ..self
            }
        } else {
            self
        }
    }

    // ----- timeline cursors -----

    /// Whether a cursor is kept for the remote actor `id`.
    pub open spec fn has_cursor(self, id: Seq<char>) -> bool {
        exists|i: int| 0 <= i < self.timeline.len() && self.timeline[i].remote_actor == id
    }

    /// The identifier of the last post read from the timeline of the remote
    /// actor's instance.
    pub open spec fn latest_id_of(self, id: Seq<char>) -> Option<Seq<char>> {
        if self.has_cursor(id) {
            let i = choose|i: int|
                0 <= i < self.timeline.len() && self.timeline[i].remote_actor == id;
            self.timeline[i].latest_id
        } else {
            None
        }
    }

    /// Sets the cursor of the remote actor `id`, where that actor is known.
    pub open spec fn update_timeline(self, id: Seq<char>, latest_id: Option<Seq<char>>) -> DatabaseView {
        let row = TimelineRow { remote_actor: id, latest_id: latest_id };
        if !self.has_remote_actor(id) {
            self
        } else if self.has_cursor(id) {
            let i = choose|i: int|
                0 <= i < self.timeline.len() && self.timeline[i].remote_actor == id;
            DatabaseView { timeline: self.timeline.update(i, row), ..self }
        } else {
            DatabaseView { timeline: self.timeline.push(row), ..self }
        }
    }
}

proof fn lemma_filter_agree<A>(s: Seq<A>, p: spec_fn(A) -> bool, q: spec_fn(A) -> bool)
    requires
        forall|i: int| 0 <= i < s.len() ==> p(#[trigger] s[i]) == q(s[i]),
    ensures
        s.filter(p) == s.filter(q),
    decreases s.len(),
{
    reveal(Seq::filter);
    if s.len() > 0 {
        let rest = s.drop_last();
        lemma_filter_agree(rest, p, q);
    }
}

proof fn lemma_filter_none<A>(s: Seq<A>, p: spec_fn(A) -> bool)
    requires
        forall|i: int| 0 <= i < s.len() ==> !p(#[trigger] s[i]),
    ensures
        s.filter(p) == Seq::<A>::empty(),
    decreases s.len(),
{
    reveal(Seq::filter);
    if s.len() > 0 {
        let rest = s.drop_last();
        lemma_filter_none(rest, p);
    }
}

/// The greatest sequence number among rows is at least the floor and at
/// least the number of each row, and it is the floor or the number of a row.
pub proof fn max_sequence_bounds(rows: Seq<DescendantRow>, floor: int)
    ensures
        max_sequence(rows, floor) >= floor,
        forall|i: int| 0 <= i < rows.len() ==> (#[trigger] rows[i]).sequence <= max_sequence(rows, floor),
        max_sequence(rows, floor) == floor || exists|i: int|
            0 <= i < rows.len() && (#[trigger] rows[i]).sequence == max_sequence(rows, floor),
    decreases rows.len(),
{
    if rows.len() > 0 {
        let rest = rows.drop_last();
        max_sequence_bounds(rest, floor);
        assert forall|i: int| 0 <= i < rows.len() implies (#[trigger] rows[i]).sequence
            <= max_sequence(rows, floor) by {
            if i < rest.len() {
                assert(rest[i] == rows[i]);
            }
        }
        if max_sequence(rows, floor) != floor && rows.last().sequence <= max_sequence(rest, floor) {
            let i = choose|i: int|
                0 <= i < rest.len() && (#[trigger] rest[i]).sequence == max_sequence(rest, floor);
            assert(rows[i] == rest[i]);
        }
    }
}

/// Recording a reply keeps the rules of the tables, as long as the counter
/// has a number left.
pub proof fn insert_keeps_rules(db: DatabaseView, root: Seq<char>, p: PostView)
    requires
        db.wf(),
        db.last_sequence < i64::MAX,
    ensures
        db.insert_descendant(root, p).wf(),
{
}

/// What reading the replies of a tracked post gives is exactly the recorded
/// replies under that post whose sequence number is greater than the one
/// asked for.
pub proof fn descendants_after_is_exact(
    db: DatabaseView,
    root: Seq<char>,
    sequence: int,
    row: DescendantRow,
)
    ensures
        db.descendants_after(root, sequence).contains(row) <==> db.descendants.contains(row)
            && row.ancester == root && row.sequence > sequence,
{
    let pred = found_after_fn(root, sequence);
    let found = db.descendants.filter(pred);
    if found.contains(row) {
        let k = choose|k: int| 0 <= k < found.len() && found[k] == row;
        db.descendants.lemma_filter_pred(pred, k);
        db.descendants.lemma_filter_contains_rev(pred, row);
    }
    if db.descendants.contains(row) && found_after(row, root, sequence) {
        let i = choose|i: int| 0 <= i < db.descendants.len() && db.descendants[i] == row;
        db.descendants.lemma_filter_contains(pred, i);
    }
}

/// Two replies that are recorded one after the other get sequence numbers
/// that grow: the first one's is greater than every number handed out
/// before, and the second one's is greater than the first one's.
pub proof fn successive_inserts_increase(
    db: DatabaseView,
    root: Seq<char>,
    first: PostView,
    second: PostView,
)
    requires
        db.wf(),
        !db.has_descendant(first.uri),
        !db.has_descendant(second.uri),
        first.uri != second.uri,
        db.last_sequence + 2 <= i64::MAX,
    ensures
        ({
            let after = db.insert_descendant(root, first).insert_descendant(root, second);
            let n = db.descendants.len() as int;
            &&& after.wf()
            &&& after.descendants.len() == n + 2
            &&& after.descendants[n] == descendant_row(first, root, db.last_sequence + 1)
            &&& after.descendants[n + 1] == descendant_row(second, root, db.last_sequence + 2)
            &&& forall|i: int|
                0 <= i < n ==> (#[trigger] after.descendants[i]) == db.descendants[i]
                    && db.descendants[i].sequence < after.descendants[n].sequence
            &&& after.descendants[n].sequence < after.descendants[n + 1].sequence
        }),
{
    let middle = db.insert_descendant(root, first);
    insert_keeps_rules(db, root, first);
    insert_keeps_rules(middle, root, second);
}

/// A consumer that reads the replies after its cursor, moves the cursor to
/// the greatest sequence number it has read, and reads again after more
/// replies were recorded, gets every reply that is due to it exactly once:
/// the two readings, one after the other, are what a single reading after
/// the old cursor gives in the end.
pub proof fn consumer_skips_nothing(
    before: DatabaseView,
    after: DatabaseView,
    root: Seq<char>,
    cursor: int,
)
    requires
        after.wf(),
        before.descendants.is_prefix_of(after.descendants),
    ensures
        ({
            let first = before.descendants_after(root, cursor);
            let moved = max_sequence(first, cursor);
            let second = after.descendants_after(root, moved);
            first + second == after.descendants_after(root, cursor)
        }),
{
    let b = before.descendants;
    let a = after.descendants;
    let extra = a.skip(b.len() as int);
    assert(a =~= b + extra);
    let ps = found_after_fn(root, cursor);
    let first = b.filter(ps);
    let moved = max_sequence(first, cursor);
    let pc = found_after_fn(root, moved);
    max_sequence_bounds(first, cursor);
    Seq::filter_distributes_over_add(b, extra, ps);
    Seq::filter_distributes_over_add(b, extra, pc);
    assert forall|i: int| 0 <= i < b.len() implies !pc(#[trigger] b[i]) by {
        if pc(b[i]) {
            b.lemma_filter_contains(ps, i);
        }
    }
    lemma_filter_none(b, pc);
    assert forall|j: int| 0 <= j < extra.len() implies pc(#[trigger] extra[j]) == ps(extra[j]) by {
        if ps(extra[j]) && moved != cursor {
            let k = choose|k: int| 0 <= k < first.len() && (#[trigger] first[k]).sequence == moved;
            b.lemma_filter_contains_rev(ps, first[k]);
        }
    }
    lemma_filter_agree(extra, pc, ps);
}

/// Once a dialect is recorded for a host, recording a dialect for any host
/// leaves it as it is.
pub proof fn recorded_dialect_stays(
    db: DatabaseView,
    host: Seq<char>,
    other: Seq<char>,
    api_type: Seq<char>,
)
    requires
        db.wf(),
        db.has_instance(host),
    ensures
        db.add_instance(other, api_type).wf(),
        db.add_instance(other, api_type).instance_type(host) == db.instance_type(host),
        db.add_instance(host, api_type) == db,
{
    let after = db.add_instance(other, api_type);
    if !db.has_instance(other) {
        let i = choose|i: int| 0 <= i < db.instances.len() && db.instances[i].host == host;
        assert(after.instances[i] == db.instances[i]);
    }
}

/// A link between a follower and a tracked post never moves back.
pub proof fn link_never_moves_back(db: DatabaseView, id: Seq<char>, uri: Seq<char>, sequence: int)
    requires
        db.wf(),
        db.has_monitor(id, uri),
    ensures
        ({
            let after = db.update_monitoring_post(id, uri, sequence);
            &&& after.has_monitor(id, uri)
            &&& after.update_sequence(id, uri).unwrap() >= db.update_sequence(id, uri).unwrap()
            &&& after.update_sequence(id, uri).unwrap() >= sequence
        }),
{
    let after = db.update_monitoring_post(id, uri, sequence);
    let i = choose|i: int|
        0 <= i < db.monitor.len() && db.monitor[i].remote_actor == id && db.monitor[i].uri == uri;
    assert(after.monitor[i].remote_actor == id && after.monitor[i].uri == uri);
}

/// Tracking and linking posts changes nothing about who the known remote
/// actors are.
pub proof fn monitoring_keeps_actors(
    db: DatabaseView,
    id: Seq<char>,
    posts: Seq<PostView>,
    other: Seq<char>,
)
    ensures
        db.monitor_posts(id, posts).remote_actors == db.remote_actors,
        db.monitor_posts(id, posts).has_remote_actor(other) == db.has_remote_actor(other),
        db.monitor_posts(id, posts).timeline == db.timeline,
        db.monitor_posts(id, posts).instances == db.instances,
        db.monitor_posts(id, posts).follows == db.follows,
        db.monitor_posts(id, posts).descendants == db.descendants,
    decreases posts.len(),
{
    if posts.len() > 0 {
        let next = db.monitor_post(id, posts[0]);
        monitoring_keeps_actors(next, id, posts.drop_first(), other);
    }
}

/// Setting the cursor of a known remote actor gives that actor the new
/// cursor and leaves every other cursor as it is; setting the cursor of an
/// unknown one changes nothing.
pub proof fn cursor_changes_alone(
    db: DatabaseView,
    id: Seq<char>,
    latest_id: Option<Seq<char>>,
    other: Seq<char>,
)
    requires
        db.wf(),
    ensures
        db.update_timeline(id, latest_id).latest_id_of(other) == if other == id
            && db.has_remote_actor(id) {
            latest_id
        } else {
            db.latest_id_of(other)
        },
{
    let after = db.update_timeline(id, latest_id);
    if db.has_remote_actor(id) {
        let at = if db.has_cursor(id) {
            choose|i: int| 0 <= i < db.timeline.len() && db.timeline[i].remote_actor == id
        } else {
            db.timeline.len() as int
        };
        assert(after.timeline[at].remote_actor == id);
        assert forall|k: int| 0 <= k < after.timeline.len() && k != at implies after.timeline[k]
            == db.timeline[k] by {}
    }
}

/// Tracking and linking posts keeps the rules of the tables.
pub proof fn monitoring_keeps_rules(db: DatabaseView, id: Seq<char>, posts: Seq<PostView>)
    requires
        db.wf(),
    ensures
        db.monitor_posts(id, posts).wf(),
    decreases posts.len(),
{
    if posts.len() > 0 {
        let p = posts[0];
        let next = db.monitor_post(id, p);
        monitoring_keeps_rules(next, id, posts.drop_first());
    }
}

/// The replies that a reading gives come in the order in which they were
/// found: their sequence numbers grow from one to the next.
pub proof fn readings_are_ordered(db: DatabaseView, root: Seq<char>, sequence: int)
    requires
        db.wf(),
    ensures
        forall|i: int, j: int|
            0 <= i < j < db.descendants_after(root, sequence).len() ==> db.descendants_after(
                root,
                sequence,
            )[i].sequence < db.descendants_after(root, sequence)[j].sequence,
{
    lemma_filter_keeps_order(db.descendants, found_after_fn(root, sequence));
}

proof fn lemma_filter_keeps_order(rows: Seq<DescendantRow>, pred: spec_fn(DescendantRow) -> bool)
    requires
        forall|i: int, j: int| 0 <= i < j < rows.len() ==> rows[i].sequence < rows[j].sequence,
    ensures
        forall|i: int, j: int|
            0 <= i < j < rows.filter(pred).len() ==> rows.filter(pred)[i].sequence < rows.filter(
                pred,
            )[j].sequence,
    decreases rows.len(),
{
    reveal(Seq::filter);
    if rows.len() > 0 {
        let rest = rows.drop_last();
        lemma_filter_keeps_order(rest, pred);
        let kept = rest.filter(pred);
        assert forall|i: int, j: int| 0 <= i < j < rows.filter(pred).len() implies rows.filter(
            pred,
        )[i].sequence < rows.filter(pred)[j].sequence by {
            if j == kept.len() {
                rest.lemma_filter_contains_rev(pred, kept[i]);
            }
        }
    }
}

/// Each operation of the store keeps the rules of the tables.
pub proof fn operations_keep_rules(
    db: DatabaseView,
    id: Seq<char>,
    inbox: Seq<char>,
    actor: Seq<char>,
    uri: Seq<char>,
    sequence: int,
    latest_id: Option<Seq<char>>,
    posts: Seq<PostView>,
)
    requires
        db.wf(),
    ensures
        db.add_instance(id, inbox).wf(),
        db.add_follow(id, inbox, actor).wf(),
        db.del_follow(id, actor).wf(),
        db.insert_descendants(uri, posts).wf(),
        db.monitor_posts(id, posts).wf(),
        db.update_monitoring_post(id, uri, sequence).wf(),
        db.update_timeline(id, latest_id).wf(),
{
    assert(db.insert_descendants(uri, posts).wf()) by {
        if !db.brings_new(posts) {
            known_replies_change_nothing(db, uri, posts);
        } else if db.accepts_descendants(uri, posts) {
            inserting_keeps_rules(db, uri, posts);
        }
    }
    monitoring_keeps_rules(db, id, posts);
}

/// Recording replies one after the other keeps the rules of the tables, as
/// long as the counter has a number left for each.
pub proof fn inserting_keeps_rules(db: DatabaseView, root: Seq<char>, posts: Seq<PostView>)
    requires
        db.wf(),
        db.last_sequence + posts.len() <= i64::MAX,
    ensures
        db.insert_each(root, posts).wf(),
        db.insert_each(root, posts).last_sequence <= db.last_sequence + posts.len(),
    decreases posts.len(),
{
    if posts.len() > 0 {
        insert_keeps_rules(db, root, posts[0]);
        inserting_keeps_rules(db.insert_descendant(root, posts[0]), root, posts.drop_first());
    }
}

/// Recording replies that are all recorded already changes nothing.
pub proof fn known_replies_change_nothing(db: DatabaseView, root: Seq<char>, posts: Seq<PostView>)
    requires
        !db.brings_new(posts),
    ensures
        db.insert_each(root, posts) == db,
    decreases posts.len(),
{
    if posts.len() > 0 {
        assert(db.has_descendant(posts[0].uri));
        let rest = posts.drop_first();
        assert forall|i: int| 0 <= i < rest.len() implies db.has_descendant(
            #[trigger] rest[i].uri,
        ) by {
            assert(rest[i] == posts[i + 1]);
        }
        known_replies_change_nothing(db, root, rest);
    }
}

/// A reply that is new, recorded under a tracked post while the counter has
/// a number left, is recorded: it comes last, under that post, with a
/// sequence number greater than every one handed out before, and all that
/// was recorded before stays as it was.
pub proof fn new_reply_gets_the_greatest_number(db: DatabaseView, root: Seq<char>, reply: PostView)
    requires
        db.wf(),
        db.has_root(root),
        !db.has_descendant(reply.uri),
        db.last_sequence < i64::MAX,
    ensures
        db.accepts_descendants(root, seq![reply]),
        db.insert_descendants(root, seq![reply]).wf(),
        db.insert_descendants(root, seq![reply]).descendants == db.descendants.push(
            descendant_row(reply, root, db.last_sequence + 1),
        ),
        forall|i: int|
            0 <= i < db.descendants.len() ==> (#[trigger] db.descendants[i]).sequence
                < db.last_sequence + 1,
{
    let posts = seq![reply];
    assert(posts[0] == reply);
    assert(db.brings_new(posts));
    insert_keeps_rules(db, root, reply);
    assert(posts.drop_first() =~= Seq::<PostView>::empty());
    let once = db.insert_descendant(root, reply);
    assert(once.insert_each(root, posts.drop_first()) == once);
    assert(db.insert_each(root, posts) == once);
}

} // verus!
