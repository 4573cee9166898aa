//! Collecting the replies under a post, one request at a time.
use vstd::prelude::*;
use crate::api::{
    ApiRequest, ApiRequestView, FediApi, JsonValue, JsonValueView, Member, Method, Reply,
    answer_read, context_request_of, read_answer, replies_request_of,
};
use crate::error::{Error, ErrorView};
use crate::post::{Post, PostView, post_views};
use crate::text::join2;
use crate::uri::{opt_text, uri_domain, uri_last_segment};

verus! {

/// A search for the replies under a post that is under way.
pub struct Walk {
    api: FediApi,
    uri: String,
    host: String,
    pending: Vec<String>,
    found: Vec<Post>,
}

/// The mathematical value of a [`Walk`].
pub struct WalkView {
    /// The dialect of the instance that is asked.
    pub api: FediApi,
    /// The address of the post whose replies are sought.
    pub uri: Seq<char>,
    /// The instance that is asked.
    pub host: Seq<char>,
    /// The identifiers of the posts whose replies are still to be asked
    /// for; the last one is asked for next.
    pub pending: Seq<Seq<char>>,
    /// The replies found so far.
    pub found: Seq<PostView>,
}

impl View for Walk {
    type V = WalkView;

    closed spec fn view(&self) -> WalkView {
        WalkView {
            api: self.api,
            uri: self.uri@,
            host: self.host@,
            pending: Seq::new(self.pending@.len(), |i: int| self.pending@[i]@),
            found: post_views(self.found@),
        }
    }
}

/// The error for a post whose address has no domain.
pub open spec fn no_host(uri: Seq<char>) -> ErrorView {
    ErrorView::Api("Failed to get host of "@ + uri)
}

/// The error for a post whose address has no last path segment.
pub open spec fn no_id(uri: Seq<char>) -> ErrorView {
    ErrorView::Api("Failed to get id of "@ + uri)
}

/// The error for a reply without an identifier.
pub open spec fn no_timeline_id(uri: Seq<char>) -> ErrorView {
    ErrorView::Api(uri + ": Posts does not have a timeline_id"@)
}

/// The search for the replies under the post at `uri` as it starts, given
/// the domain and the last path segment of that address.
pub open spec fn walk_start(
    api: FediApi,
    uri: Seq<char>,
    host: Option<Seq<char>>,
    id: Option<Seq<char>>,
) -> Result<WalkView, ErrorView> {
    match host {
        None => Err(no_host(uri)),
        Some(h) => match id {
            None => Err(no_id(uri)),
            Some(i) => Ok(
                WalkView { api: api, uri: uri, host: h, pending: seq![i], found: Seq::empty() },
            ),
        },
    }
}

/// Whether every post of a list has an identifier.
pub open spec fn all_identified(posts: Seq<PostView>) -> bool {
    forall|i: int| 0 <= i < posts.len() ==> (#[trigger] posts[i]).timeline_id is Some
}

/// The identifiers of `posts`, last post first.
pub open spec fn ids_reversed(posts: Seq<PostView>) -> Seq<Seq<char>> {
    Seq::new(posts.len(), |i: int| posts[posts.len() - 1 - i].timeline_id.unwrap())
}

impl WalkView {
    /// Whether nothing is left to ask for.
    pub open spec fn is_done(self) -> bool {
        self.pending.len() == 0
    }

    /// The request that is due.
    pub open spec fn request(self) -> ApiRequestView {
        match self.api {
            FediApi::Mastodon | FediApi::Calckey => context_request_of(self.host, self.pending.last()),
            _ => replies_request_of(self.host, self.pending.last()),
        }
    }

    /// What the answer to the request that is due holds.
    pub open spec fn answer(self, reply: Reply, fetch_time: int) -> Result<Seq<PostView>, ErrorView> {
        match self.api {
            FediApi::Mastodon | FediApi::Calckey => answer_read(
                self.api,
                self.host,
                "context"@,
                self.uri,
                reply,
                fetch_time,
            ),
            _ => answer_read(self.api, self.host, "replies"@, self.uri, reply, fetch_time),
        }
    }

    /// The search after the answer to the request that is due. An instance
    /// that is asked in the Mastodon style answers with all replies at once.
    /// One that speaks the Misskey dialect only answers with the direct replies, which are all found; their
    /// own replies are asked for next, those of the first one first. Where no
    /// request is due, an answer changes nothing.
    pub open spec fn absorb(self, reply: Reply, fetch_time: int) -> Result<WalkView, ErrorView> {
        if self.is_done() {
            Ok(self)
        } else {
            self.absorb_due(reply, fetch_time)
        }
    }

    /// The search after the answer to the request that is due, where one
    /// is due.
    pub open spec fn absorb_due(self, reply: Reply, fetch_time: int) -> Result<WalkView, ErrorView> {
        match self.answer(reply, fetch_time) {
            Err(e) => Err(e),
            Ok(posts) => match self.api {
                FediApi::Mastodon | FediApi::Calckey => Ok(
                    WalkView {
                        pending: self.pending.drop_last(),
                        found: self.found + posts,
                        ..self
                    },
                ),
                _ => if all_identified(posts) {
                    Ok(self.descend(posts))
                } else {
                    Err(no_timeline_id(self.uri))
                },
            },
        }
    }

    /// The search after the direct replies to the post that was asked for
    /// have come in: they are found, and their own replies are asked for
    /// next, those of the first one first.
    pub open spec fn descend(self, posts: Seq<PostView>) -> WalkView {
        WalkView {
            pending: self.pending.drop_last() + ids_reversed(posts),
            found: self.found + posts,
            ..self
        }
    }

    /// The search after `steps` requests, where each request for the
    /// replies to a post is answered with what `replies_to` holds for that
    /// post.
    pub open spec fn run(self, replies_to: spec_fn(Seq<char>) -> Seq<PostView>, steps: nat) -> WalkView
        decreases steps,
    {
        if steps == 0 || self.is_done() {
            self
        } else {
            self.descend(replies_to(self.pending.last())).run(replies_to, (steps - 1) as nat)
        }
    }
}

/// The replies under the posts of `pending`, the last post first, down to
/// `depth` levels: for each post its direct replies, then what is under each
/// of those, the first one first.
pub open spec fn thread(
    replies_to: spec_fn(Seq<char>) -> Seq<PostView>,
    pending: Seq<Seq<char>>,
    depth: nat,
) -> Seq<PostView>
    decreases depth, pending.len(),
{
    if pending.len() == 0 || depth == 0 {
        Seq::empty()
    } else {
        let direct = replies_to(pending.last());
        direct + thread(replies_to, ids_reversed(direct), (depth - 1) as nat) + thread(
            replies_to,
            pending.drop_last(),
            depth,
        )
    }
}

/// Whether the threads under the posts of `pending` end within `depth`
/// levels.
pub open spec fn ends_within(
    replies_to: spec_fn(Seq<char>) -> Seq<PostView>,
    pending: Seq<Seq<char>>,
    depth: nat,
) -> bool
    decreases depth, pending.len(),
{
    if pending.len() == 0 {
        true
    } else if depth == 0 {
        false
    } else {
        ends_within(replies_to, ids_reversed(replies_to(pending.last())), (depth - 1) as nat)
            && ends_within(replies_to, pending.drop_last(), depth)
    }
}

/// How many posts are asked about in the threads under the posts of
/// `pending`, down to `depth` levels.
pub open spec fn requests(
    replies_to: spec_fn(Seq<char>) -> Seq<PostView>,
    pending: Seq<Seq<char>>,
    depth: nat,
) -> nat
    decreases depth, pending.len(),
{
    if pending.len() == 0 || depth == 0 {
        0
    } else {
        1 + requests(replies_to, ids_reversed(replies_to(pending.last())), (depth - 1) as nat)
            + requests(replies_to, pending.drop_last(), depth)
    }
}

proof fn lemma_deeper_is_the_same(
    replies_to: spec_fn(Seq<char>) -> Seq<PostView>,
    pending: Seq<Seq<char>>,
    depth: nat,
)
    requires
        ends_within(replies_to, pending, depth),
    ensures
        ends_within(replies_to, pending, depth + 1),
        thread(replies_to, pending, depth + 1) == thread(replies_to, pending, depth),
        requests(replies_to, pending, depth + 1) == requests(replies_to, pending, depth),
    decreases depth, pending.len(),
{
    if pending.len() > 0 {
        let below = ids_reversed(replies_to(pending.last()));
        lemma_deeper_is_the_same(replies_to, below, (depth - 1) as nat);
        lemma_deeper_is_the_same(replies_to, pending.drop_last(), depth);
    }
}

proof fn lemma_stacked(
    replies_to: spec_fn(Seq<char>) -> Seq<PostView>,
    under: Seq<Seq<char>>,
    over: Seq<Seq<char>>,
    depth: nat,
)
    ensures
        ends_within(replies_to, under + over, depth) == (ends_within(replies_to, over, depth)
            && ends_within(replies_to, under, depth)),
        thread(replies_to, under + over, depth) == thread(replies_to, over, depth) + thread(
            replies_to,
            under,
            depth,
        ),
        requests(replies_to, under + over, depth) == requests(replies_to, over, depth) + requests(
            replies_to,
            under,
            depth,
        ),
    decreases over.len(),
{
    if over.len() > 0 && depth > 0 {
        assert((under + over).drop_last() =~= under + over.drop_last());
        lemma_stacked(replies_to, under, over.drop_last(), depth);
    }
}

/// On an instance where every thread ends, the search finds the whole
/// thread. If each request for the replies to a post is answered with what
/// `replies_to` holds for that post, and the threads under the posts that
/// are still to be asked about end within `depth` levels, then after one
/// request for each post of those threads the search is done, and it has
/// found, after what it had found before, those threads: for each post its
/// direct replies, then what is under each of those, the first one first.
pub proof fn the_search_finds_the_thread(
    walk: WalkView,
    replies_to: spec_fn(Seq<char>) -> Seq<PostView>,
    depth: nat,
)
    requires
        ends_within(replies_to, walk.pending, depth),
    ensures
        walk.run(replies_to, requests(replies_to, walk.pending, depth)).is_done(),
        walk.run(replies_to, requests(replies_to, walk.pending, depth)).found == walk.found
            + thread(replies_to, walk.pending, depth),
        walk.run(replies_to, requests(replies_to, walk.pending, depth)).api == walk.api,
    decreases requests(replies_to, walk.pending, depth),
{
    if walk.pending.len() > 0 {
        let direct = replies_to(walk.pending.last());
        let below = ids_reversed(direct);
        lemma_deeper_is_the_same(replies_to, below, (depth - 1) as nat);
        lemma_stacked(replies_to, walk.pending.drop_last(), below, depth);
        the_search_finds_the_thread(walk.descend(direct), replies_to, depth);
    }
}

impl Walk {
    /// The search for the replies under `post` as it starts, given the
    /// domain and the last path segment of the address of `post`.
    pub fn start_with(api: FediApi, post: &Post, host: Option<String>, id: Option<String>) -> (walk:
        Result<Walk, Error>)
        ensures
            match walk {
                Ok(w) => walk_start(api, post@.uri, opt_text(host), opt_text(id)) == Ok::<
                    WalkView,
                    ErrorView,
                >(w@),
                Err(e) => walk_start(api, post@.uri, opt_text(host), opt_text(id)) == Err::<
                    WalkView,
                    ErrorView,
                >(e@),
            },
    {
        let host = match host {
            Some(h) => h,
            None => return Err(Error::Api(join2("Failed to get host of ", post.uri.as_str()))),
        };
        let id = match id {
            Some(i) => i,
            None => return Err(Error::Api(join2("Failed to get id of ", post.uri.as_str()))),
        };
        let mut pending: Vec<String> = Vec::new();
        pending.push(id);
        let walk = Walk { api, uri: post.uri.clone(), host, pending, found: Vec::new() };
        assert(walk@.pending =~= seq![id@]);
        assert(walk@.found =~= Seq::empty());
        Ok(walk)
    }

    /// The search for the replies under `post` as it starts. The instance
    /// that is asked is the domain of the post's address, and the post is
    /// known there by the last path segment of its address.
    pub fn start(api: FediApi, post: &Post) -> (walk: Result<Walk, Error>)
        ensures
            match walk {
                Ok(w) => walk_start(
                    api,
                    post@.uri,
                    uri_domain(post@.uri),
                    uri_last_segment(post@.uri),
                ) == Ok::<WalkView, ErrorView>(w@),
                Err(e) => walk_start(
                    api,
                    post@.uri,
                    uri_domain(post@.uri),
                    uri_last_segment(post@.uri),
                ) == Err::<WalkView, ErrorView>(e@),
            },
    {
        let host = post.host();
        let id = post.id();
        Walk::start_with(api, post, host, id)
    }

    /// The member of the answer that lists the replies: an instance that is
    /// asked in the Mastodon style answers with an object and lists them
    /// under `descendants`, an instance that speaks the Misskey dialect only
    /// answers with the list itself.
    pub fn answer_member(&self) -> (member: Option<&'static str>)
        ensures
            match member {
                Some(name) => self@.api != FediApi::Misskey && name@ == "descendants"@,
                None => self@.api == FediApi::Misskey,
            },
    {
        match self.api {
            FediApi::Mastodon | FediApi::Calckey => Some("descendants"),
            _ => None,
        }
    }

    /// Whether nothing is left to ask for.
    pub fn is_done(&self) -> (done: bool)
        ensures
            done == self@.is_done(),
    {
        self.pending.len() == 0
    }

    /// The request that is due, or none where the search is done.
    pub fn next_request(&self) -> (request: Option<ApiRequest>)
        ensures
            match request {
                Some(r) => !self@.is_done() && r@ == self@.request(),
                None => self@.is_done(),
            },
    {
        if self.pending.len() == 0 {
            return None;
        }
        let id = &self.pending[self.pending.len() - 1];
        let mut url = join2("https://", self.host.as_str());
        match self.api {
            FediApi::Mastodon | FediApi::Calckey => {
                url.append("/api/v1/statuses/");
                url.append(id.as_str());
                url.append("/context");
                let request = ApiRequest { method: Method::Get, url, body: Vec::new() };
                assert(request@.body =~= Seq::empty());
                assert(request@.url =~= "https://"@ + self@.host + ("/api/v1/statuses/"@ + id@
                    + "/context"@));
                Some(request)
            },
            _ => {
                url.append("/api/notes/replies");
                let mut body: Vec<Member> = Vec::new();
                body.push(
                    Member { name: String::from_str("noteId"), value: JsonValue::Text(id.clone()) },
                );
                let request = ApiRequest { method: Method::Post, url, body };
                assert(request@.body =~= seq![("noteId"@, JsonValueView::Text(id@))]);
                Some(request)
            },
        }
    }

    /// Takes in the answer to the request that is due. The replies that it
    /// holds are found, each stamped with `fetch_time`; the first failure
    /// ends the search. Where no request is due, nothing changes.
    pub fn absorb(self, reply: &Reply, fetch_time: i64) -> (walk: Result<Walk, Error>)
        ensures
            match walk {
                Ok(w) => self@.absorb(*reply, fetch_time as int) == Ok::<WalkView, ErrorView>(w@),
                Err(e) => self@.absorb(*reply, fetch_time as int) == Err::<WalkView, ErrorView>(e@),
            },
    {
        let mut walk = self;
        let ghost before = walk@;
        if walk.pending.len() == 0 {
            return Ok(walk);
        }
        let what = match walk.api {
            FediApi::Mastodon | FediApi::Calckey => "context",
            _ => "replies",
        };
        let posts = match read_answer(
            walk.api,
            walk.host.as_str(),
            what,
            walk.uri.as_str(),
            reply,
            fetch_time,
        ) {
            Ok(list) => list,
            Err(e) => return Err(e),
        };
        let ghost read = post_views(posts@);
        walk.pending.pop();
        assert(walk@.pending =~= before.pending.drop_last());
        match walk.api {
            FediApi::Mastodon | FediApi::Calckey => {},
            _ => {
                let mut i: usize = posts.len();
                let ghost popped = walk@.pending;
                while i > 0
                    invariant
                        i <= posts.len(),
                        read == post_views(posts@),
                        walk@.api == before.api,
                        walk@.uri == before.uri,
                        walk@.host == before.host,
                        walk@.found == before.found,
                        before == self@,
                        !before.is_done(),
                        before.api is Misskey,
                        before.answer(*reply, fetch_time as int) == Ok::<Seq<PostView>, ErrorView>(
                            read,
                        ),
                        forall|k: int| i <= k < posts.len() ==> (#[trigger] read[k]).timeline_id is Some,
                        walk@.pending =~= popped + Seq::new(
                            (posts.len() - i) as nat,
                            |k: int| read[posts.len() - 1 - k].timeline_id.unwrap(),
                        ),
                    decreases i,
                {
                    i -= 1;
                    let ghost queued = walk@.pending;
                    match &posts[i].timeline_id {
                        Some(id) => {
                            walk.pending.push(id.clone());
                            proof {
                                assert(read[i as int].timeline_id == Some(id@));
                                assert(walk@.pending =~= queued.push(id@));
                            }
                        },
                        None => {
                            return Err(
                                Error::Api(
                                    join2(walk.uri.as_str(), ": Posts does not have a timeline_id"),
                                ),
                            );
                        },
                    }
                }
            },
        }
        let ghost kept = walk@.pending;
        let mut i: usize = 0;
        while i < posts.len()
            invariant
                i <= posts.len(),
                read == post_views(posts@),
                walk@.api == before.api,
                walk@.uri == before.uri,
                walk@.host == before.host,
                walk@.pending == kept,
                walk@.found =~= before.found + read.take(i as int),
            decreases posts.len() - i,
        {
            let ghost had = walk@.found;
            walk.found.push(posts[i].clone());
            proof {
                assert(walk@.found =~= had.push(read[i as int]));
            }
            i += 1;
        }
        assert(read.take(i as int) =~= read);
        Ok(walk)
    }

    /// The replies that the search has found so far: once it is done, all
    /// the replies under the post.
    pub fn finish(self) -> (found: Vec<Post>)
        ensures
            post_views(found@) == self@.found,
    {
        self.found
    }
}

impl FediApi {
    /// Starts the search for the replies under `post` on an instance of
    /// this dialect.
    pub fn get_descendants_of(&self, post: &Post) -> (walk: Result<Walk, Error>)
        ensures
            match walk {
                Ok(w) => walk_start(
                    *self,
                    post@.uri,
                    uri_domain(post@.uri),
                    uri_last_segment(post@.uri),
                ) == Ok::<WalkView, ErrorView>(w@),
                Err(e) => walk_start(
                    *self,
                    post@.uri,
                    uri_domain(post@.uri),
                    uri_last_segment(post@.uri),
                ) == Err::<WalkView, ErrorView>(e@),
            },
    {
        Walk::start(*self, post)
    }
}

} // verus!
