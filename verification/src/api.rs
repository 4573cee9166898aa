//! The two dialects of post API that instances speak, behind one surface.
use vstd::prelude::*;
use crate::db::Database;
use crate::error::{Error, ErrorView};
use crate::note::{Note, NoteView, all_normalized, normalize_all, note_views, posts_of, to_posts};
use crate::order::{by_creation, sort_by_creation};
use crate::post::{Post, PostView, post_views};
use crate::text::{decimal, decimal_text, join2, join3, str_eq};
use crate::uri::opt_text;

verus! {

/// The dialect of post API that an instance speaks.
#[derive(Debug, Clone, Copy, PartialEq, Eq, Structural)]
pub enum FediApi {
    Mastodon,
    Misskey,
    /// Speaks both dialects.
    Calckey,
}

/// The name under which a dialect is recorded.
pub open spec fn api_name(api: FediApi) -> Seq<char> {
    match api {
        FediApi::Mastodon => "mastodon"@,
        FediApi::Misskey => "misskey"@,
        FediApi::Calckey => "calckey"@,
    }
}

/// The dialect that a recorded name stands for.
pub open spec fn api_named(name: Seq<char>) -> Option<FediApi> {
    if name == "mastodon"@ {
        Some(FediApi::Mastodon)
    } else if name == "misskey"@ {
        Some(FediApi::Misskey)
    } else if name == "calckey"@ {
        Some(FediApi::Calckey)
    } else {
        None
    }
}

/// Whether a probe was answered OK: it was answered at all, and with the
/// status 200. A probe that failed on the way counts as not OK.
pub open spec fn probe_ok(status: Option<u16>) -> bool {
    status == Some(200u16)
}

/// The dialect that two probes point to: the first is the outcome of the
/// probe of the Mastodon-style endpoint, the second that of the
/// Misskey-style endpoint. An instance that answers both OK speaks both
/// dialects.
pub open spec fn api_probed(mastodon_status: Option<u16>, misskey_status: Option<u16>) -> Option<
    FediApi,
> {
    if probe_ok(mastodon_status) && probe_ok(misskey_status) {
        Some(FediApi::Calckey)
    } else if probe_ok(mastodon_status) {
        Some(FediApi::Mastodon)
    } else if probe_ok(misskey_status) {
        Some(FediApi::Misskey)
    } else {
        None
    }
}

impl FediApi {
    /// The dialect recorded as `host_type`, or an `Api` error that quotes
    /// the name where it stands for none.
    pub fn from_str(host_type: &str) -> (api: Result<FediApi, Error>)
        ensures
            match api {
                Ok(a) => api_named(host_type@) == Some(a),
                Err(e) => api_named(host_type@) is None && e@ == ErrorView::Api(
                    "Unknown host type: "@ + host_type@,
                ),
            },
    {
        if str_eq(host_type, "mastodon") {
            Ok(FediApi::Mastodon)
        } else if str_eq(host_type, "misskey") {
            Ok(FediApi::Misskey)
        } else if str_eq(host_type, "calckey") {
            Ok(FediApi::Calckey)
        } else {
            Err(Error::Api(join2("Unknown host type: ", host_type)))
        }
    }

    /// The name under which the dialect is recorded.
    pub fn to_str(&self) -> (name: String)
        ensures
            name@ == api_name(*self),
    {
        match self {
            FediApi::Mastodon => String::from_str("mastodon"),
            FediApi::Misskey => String::from_str("misskey"),
            FediApi::Calckey => String::from_str("calckey"),
        }
    }

    /// The dialect of `host`, from the outcomes of the probes of its
    /// Mastodon-style and its Misskey-style endpoint: the status of the
    /// answer, or `None` where the probe failed on the way. An instance that
    /// answers both probes with 200 speaks both dialects; one that answers
    /// neither with 200 has none.
    pub fn determine(host: &str, mastodon_status: Option<u16>, misskey_status: Option<u16>) -> (api:
        Result<FediApi, Error>)
        ensures
            match api {
                Ok(a) => api_probed(mastodon_status, misskey_status) == Some(a),
                Err(e) => api_probed(mastodon_status, misskey_status) is None && e@
                    == ErrorView::Api("Failed to determine api variant of "@ + host@),
            },
    {
        let mastodon_compatible = match mastodon_status {
            Some(status) => status == 200,
            None => false,
        };
        let misskey_compatible = match misskey_status {
            Some(status) => status == 200,
            None => false,
        };
        if mastodon_compatible && misskey_compatible {
            Ok(FediApi::Calckey)
        } else if mastodon_compatible {
            Ok(FediApi::Mastodon)
        } else if misskey_compatible {
            Ok(FediApi::Misskey)
        } else {
            Err(Error::Api(join2("Failed to determine api variant of ", host)))
        }
    }
}

/// A recorded name stands for the dialect that was recorded under it.
pub proof fn name_round_trip(api: FediApi)
    ensures
        api_named(api_name(api)) == Some(api),
{
    reveal_strlit("mastodon");
    reveal_strlit("misskey");
    reveal_strlit("calckey");
    assert("mastodon"@[1] != "misskey"@[1]);
    assert("mastodon"@[0] != "calckey"@[0]);
}

/// How a request is made.
#[derive(Debug, Clone, Copy, PartialEq, Eq, Structural)]
pub enum Method {
    Get,
    Post,
}

/// What a member of a request body holds.
#[derive(Debug, PartialEq, Eq)]
pub enum JsonValue {
    Bool(bool),
    Number(u64),
    Text(String),
}

/// The mathematical value of a [`JsonValue`].
pub enum JsonValueView {
    Bool(bool),
    Number(nat),
    Text(Seq<char>),
}

impl View for JsonValue {
    type V = JsonValueView;

    open spec fn view(&self) -> JsonValueView {
        match self {
            JsonValue::Bool(b) => JsonValueView::Bool(*b),
            JsonValue::Number(n) => JsonValueView::Number(*n as nat),
            JsonValue::Text(t) => JsonValueView::Text(t@),
        }
    }
}

/// One member of the JSON object that a request carries.
#[derive(Debug, PartialEq, Eq)]
pub struct Member {
    pub name: String,
    pub value: JsonValue,
}

/// A request to the API of an instance. A request made with `Post` carries
/// the JSON object whose members are listed in `body`.
#[derive(Debug, PartialEq, Eq)]
pub struct ApiRequest {
    pub method: Method,
    pub url: String,
    pub body: Vec<Member>,
}

/// The mathematical value of an [`ApiRequest`].
pub struct ApiRequestView {
    pub method: Method,
    pub url: Seq<char>,
    pub body: Seq<(Seq<char>, JsonValueView)>,
}

impl View for ApiRequest {
    type V = ApiRequestView;

    open spec fn view(&self) -> ApiRequestView {
        ApiRequestView {
            method: self.method,
            url: self.url@,
            body: Seq::new(self.body@.len(), |i: int| (self.body@[i].name@, self.body@[i].value@)),
        }
    }
}

/// What an instance answered: the status, the body as text and, where the
/// body is a JSON array of objects, those objects.
#[derive(Debug, PartialEq, Eq)]
pub struct Reply {
    pub status: u16,
    pub text: String,
    pub notes: Option<Vec<Note>>,
}

/// The request that reads `path` of `host`.
pub open spec fn get_request(host: Seq<char>, path: Seq<char>) -> ApiRequestView {
    ApiRequestView { method: Method::Get, url: "https://"@ + host + path, body: Seq::empty() }
}

/// The request that posts the one-member object `name: value` to `path` of
/// `host`.
pub open spec fn post_request(
    host: Seq<char>,
    path: Seq<char>,
    body: Seq<(Seq<char>, JsonValueView)>,
) -> ApiRequestView {
    ApiRequestView { method: Method::Post, url: "https://"@ + host + path, body: body }
}

/// The request that asks a Mastodon-style instance what it is.
pub open spec fn mastodon_probe(host: Seq<char>) -> ApiRequestView {
    get_request(host, "/api/v1/instance"@)
}

/// The request that asks a Misskey-style instance what it is.
pub open spec fn misskey_probe(host: Seq<char>) -> ApiRequestView {
    post_request(host, "/api/meta"@, seq![("detail"@, JsonValueView::Bool(false))])
}

/// The request for the trending posts of `host`: at most ten. An instance
/// that speaks both dialects is asked in the Mastodon style.
pub open spec fn trending_request_of(api: FediApi, host: Seq<char>) -> ApiRequestView {
    match api {
        FediApi::Mastodon | FediApi::Calckey => get_request(host, "/api/v1/trends/statuses?limit=10"@),
        _ => post_request(host, "/api/notes/featured"@, seq![("limit"@, JsonValueView::Number(10))]),
    }
}

/// The request for the global timeline of `host`, from `since_id` on where
/// one is given: at most 100 posts of an instance that speaks the Misskey
/// dialect only, at most 40 of any other, which is asked in the Mastodon
/// style.
pub open spec fn timeline_request_of(
    api: FediApi,
    host: Seq<char>,
    since_id: Option<Seq<char>>,
) -> ApiRequestView {
    match api {
        FediApi::Mastodon | FediApi::Calckey => match since_id {
            Some(id) => get_request(host, "/api/v1/timelines/public?limit=40&since_id="@ + id),
            None => get_request(host, "/api/v1/timelines/public?limit=40"@),
        },
        _ => match since_id {
            Some(id) => post_request(
                host,
                "/api/notes/global-timeline"@,
                seq![("limit"@, JsonValueView::Number(100)), ("sinceId"@, JsonValueView::Text(id))],
            ),
            None => post_request(
                host,
                "/api/notes/global-timeline"@,
                seq![("limit"@, JsonValueView::Number(100))],
            ),
        },
    }
}

/// The request for the thread around the post `id` of a Mastodon-style
/// instance.
pub open spec fn context_request_of(host: Seq<char>, id: Seq<char>) -> ApiRequestView {
    get_request(host, "/api/v1/statuses/"@ + id + "/context"@)
}

/// The request for the direct replies to the note `id` of a Misskey-style
/// instance.
pub open spec fn replies_request_of(host: Seq<char>, id: Seq<char>) -> ApiRequestView {
    post_request(host, "/api/notes/replies"@, seq![("noteId"@, JsonValueView::Text(id))])
}

/// The error for an answer with a status other than 200.
pub open spec fn failure(what: Seq<char>, subject: Seq<char>, status: u16, text: Seq<char>) -> ErrorView {
    ErrorView::Api(
        "Failed to get "@ + what + " of "@ + subject + ": status: "@ + decimal_text(status as nat)
            + ", response: "@ + text,
    )
}

/// The posts that an answer of `host` holds, each stamped with
/// `fetch_time`. An answer that is no list of objects is an `Http` error. An
/// instance that speaks the Mastodon dialect, alone or beside the other, is
/// asked in the Mastodon style: its answer is read as it is, and an object
/// that describes no post is an `Http` error too. The notes of an instance
/// that speaks the Misskey dialect only first get the addresses that they
/// lack; then a note that describes no post is a `Json` error.
pub open spec fn posts_read(
    api: FediApi,
    host: Seq<char>,
    notes: Option<Seq<NoteView>>,
    fetch_time: int,
) -> Result<Seq<PostView>, ErrorView> {
    match notes {
        None => Err(ErrorView::Http),
        Some(list) => match api {
            FediApi::Mastodon | FediApi::Calckey => match posts_of(list, fetch_time) {
                Some(posts) => Ok(posts),
                None => Err(ErrorView::Http),
            },
            _ => match all_normalized(host, list) {
                Err(e) => Err(e),
                Ok(read) => match posts_of(read, fetch_time) {
                    Some(posts) => Ok(posts),
                    None => Err(ErrorView::Json),
                },
            },
        },
    }
}

/// The notes of an answer as values.
pub open spec fn reply_notes(reply: Reply) -> Option<Seq<NoteView>> {
    match reply.notes {
        Some(list) => Some(note_views(list@)),
        None => None,
    }
}

/// The posts that an answer to a request for `what` of `subject` holds: an
/// answer with a status other than 200 is an `Api` error that quotes the
/// status and the body.
pub open spec fn answer_read(
    api: FediApi,
    host: Seq<char>,
    what: Seq<char>,
    subject: Seq<char>,
    reply: Reply,
    fetch_time: int,
) -> Result<Seq<PostView>, ErrorView> {
    if reply.status != 200 {
        Err(failure(what, subject, reply.status, reply.text@))
    } else {
        posts_read(api, host, reply_notes(reply), fetch_time)
    }
}

/// Each post of a list reduced to its origin.
pub open spec fn origins(posts: Seq<PostView>) -> Seq<PostView> {
    Seq::new(posts.len(), |i: int| posts[i].origin())
}

/// Whether every post of a list has a creation time.
pub open spec fn all_dated(posts: Seq<PostView>) -> bool {
    forall|i: int| 0 <= i < posts.len() ==> (#[trigger] posts[i]).created_at is Some
}

/// The error for a timeline of `host` in which a post has no creation time.
pub open spec fn undated(host: Seq<char>) -> ErrorView {
    ErrorView::Api("Failed to get global timeline of "@ + host + ": post without creation time"@)
}

/// The trending posts that an answer of `host` holds, each reduced to its
/// origin.
pub open spec fn trending_read(api: FediApi, host: Seq<char>, reply: Reply, fetch_time: int) -> Result<
    Seq<PostView>,
    ErrorView,
> {
    match answer_read(api, host, "trending posts"@, host, reply, fetch_time) {
        Ok(posts) => Ok(origins(posts)),
        Err(e) => Err(e),
    }
}

/// The timeline that an answer of `host` holds, oldest post first. Two or
/// more posts can only be put in order where each has a creation time.
pub open spec fn timeline_read(api: FediApi, host: Seq<char>, reply: Reply, fetch_time: int) -> Result<
    Seq<PostView>,
    ErrorView,
> {
    match answer_read(api, host, "global timeline"@, host, reply, fetch_time) {
        Ok(posts) => if posts.len() >= 2 && !all_dated(posts) {
            Err(undated(host))
        } else {
            Ok(by_creation(posts))
        },
        Err(e) => Err(e),
    }
}

fn get(host: &str, path: &str) -> (request: ApiRequest)
    ensures
        request@ == get_request(host@, path@),
{
    let request = ApiRequest { method: Method::Get, url: join3("https://", host, path), body: Vec::new() };
    assert(request@.body =~= Seq::empty());
    request
}

fn post(host: &str, path: &str, body: Vec<Member>) -> (request: ApiRequest)
    ensures
        request@ == post_request(
            host@,
            path@,
            Seq::new(body@.len(), |i: int| (body@[i].name@, body@[i].value@)),
        ),
{
    ApiRequest { method: Method::Post, url: join3("https://", host, path), body }
}

fn failed(what: &str, subject: &str, status: u16, text: &str) -> (e: Error)
    ensures
        e@ == failure(what@, subject@, status, text@),
{
    let mut message = join3("Failed to get ", what, " of ");
    message.append(subject);
    message.append(": status: ");
    let code = decimal(status);
    message.append(code.as_str());
    message.append(", response: ");
    message.append(text);
    Error::Api(message)
}

fn read_posts(api: FediApi, host: &str, notes: &Option<Vec<Note>>, fetch_time: i64) -> (posts: Result<
    Vec<Post>,
    Error,
>)
    ensures
        match posts {
            Ok(list) => posts_read(
                api,
                host@,
                match *notes {
                    Some(l) => Some(note_views(l@)),
                    None => None,
                },
                fetch_time as int,
            ) == Ok::<Seq<PostView>, ErrorView>(post_views(list@)),
            Err(e) => posts_read(
                api,
                host@,
                match *notes {
                    Some(l) => Some(note_views(l@)),
                    None => None,
                },
                fetch_time as int,
            ) == Err::<Seq<PostView>, ErrorView>(e@),
        },
{
    let list = match notes {
        Some(list) => list,
        None => return Err(Error::Http),
    };
    match api {
        FediApi::Mastodon | FediApi::Calckey => match to_posts(list, fetch_time) {
            Some(posts) => Ok(posts),
            None => Err(Error::Http),
        },
        _ => match normalize_all(list, host) {
            Err(e) => Err(e),
            Ok(read) => match to_posts(&read, fetch_time) {
                Some(posts) => Ok(posts),
                None => Err(Error::Json),
            },
        },
    }
}

/// The posts that an answer to a request for `what` of `subject` holds,
/// each stamped with `fetch_time`.
pub fn read_answer(
    api: FediApi,
    host: &str,
    what: &str,
    subject: &str,
    reply: &Reply,
    fetch_time: i64,
) -> (posts: Result<Vec<Post>, Error>)
    ensures
        match posts {
            Ok(list) => answer_read(api, host@, what@, subject@, *reply, fetch_time as int) == Ok::<
                Seq<PostView>,
                ErrorView,
            >(post_views(list@)),
            Err(e) => answer_read(api, host@, what@, subject@, *reply, fetch_time as int) == Err::<
                Seq<PostView>,
                ErrorView,
            >(e@),
        },
{
    if reply.status != 200 {
        Err(failed(what, subject, reply.status, reply.text.as_str()))
    } else {
        read_posts(api, host, &reply.notes, fetch_time)
    }
}

fn every_post_dated(posts: &Vec<Post>) -> (dated: bool)
    ensures
        dated == all_dated(post_views(posts@)),
{
    let mut i: usize = 0;
    while i < posts.len()
        invariant
            i <= posts.len(),
            forall|k: int| 0 <= k < i ==> (#[trigger] post_views(posts@)[k]).created_at is Some,
        decreases posts.len() - i,
    {
        if posts[i].created_at.is_none() {
            assert(post_views(posts@)[i as int].created_at is None);
            return false;
        }
        i += 1;
    }
    true
}

/// The requests that find out which dialect `host` speaks: one to its
/// Mastodon-style endpoint and one to its Misskey-style endpoint.
pub fn probe_requests(host: &str) -> (requests: (ApiRequest, ApiRequest))
    ensures
        requests.0@ == mastodon_probe(host@),
        requests.1@ == misskey_probe(host@),
{
    let mut body: Vec<Member> = Vec::new();
    body.push(Member { name: String::from_str("detail"), value: JsonValue::Bool(false) });
    let misskey = post(host, "/api/meta", body);
    assert(misskey@.body =~= seq![("detail"@, JsonValueView::Bool(false))]);
    (get(host, "/api/v1/instance"), misskey)
}

impl FediApi {
    /// The dialect that stands behind what is recorded for a host:
    /// `Ok(None)` says that nothing is recorded and the host has to be
    /// probed. A recorded name that stands for no dialect is an `Api` error.
    pub fn resolve(recorded: Option<&str>) -> (api: Result<Option<FediApi>, Error>)
        ensures
            match recorded {
                None => api == Ok::<Option<FediApi>, Error>(None),
                Some(name) => match api {
                    Ok(found) => found is Some && api_named(name@) == found,
                    Err(e) => api_named(name@) is None && e@ == ErrorView::Api(
                        "Unknown host type: "@ + name@,
                    ),
                },
            },
    {
        match recorded {
            Some(name) => match FediApi::from_str(name) {
                Ok(api) => Ok(Some(api)),
                Err(e) => Err(e),
            },
            None => Ok(None),
        }
    }

    /// The dialect recorded for `host`, where one is recorded: `Ok(None)`
    /// says that the host has to be probed. A recorded name that stands for
    /// no dialect is an `Api` error.
    pub fn from_host(host: &str, db: &Database) -> (api: Result<Option<FediApi>, Error>)
        requires
            db.wf(),
        ensures
            match db@.instance_type(host@) {
                None => api == Ok::<Option<FediApi>, Error>(None),
                Some(name) => match api {
                    Ok(found) => found is Some && api_named(name) == found,
                    Err(e) => api_named(name) is None && e@ == ErrorView::Api(
                        "Unknown host type: "@ + name,
                    ),
                },
            },
    {
        match db.get_instance_type(host) {
            Ok(name) => FediApi::resolve(Some(name.as_str())),
            Err(_) => FediApi::resolve(None),
        }
    }

    /// Determines the dialect of `host` from the outcomes of the probes of
    /// its two endpoints, and records it. A dialect that is recorded already
    /// stays as it is; a host that answers neither probe with 200 gets none
    /// recorded.
    pub fn record(
        host: &str,
        db: &mut Database,
        mastodon_status: Option<u16>,
        misskey_status: Option<u16>,
    ) -> (api: Result<FediApi, Error>)
        requires
            old(db).wf(),
        ensures
            final(db).wf(),
            match api {
                Ok(a) => api_probed(mastodon_status, misskey_status) == Some(a) && final(db)@
                    == old(db)@.add_instance(host@, api_name(a)),
                Err(e) => api_probed(mastodon_status, misskey_status) is None && e@
                    == ErrorView::Api("Failed to determine api variant of "@ + host@) && final(db)@
                    == old(db)@,
            },
    {
        let api = match FediApi::determine(host, mastodon_status, misskey_status) {
            Ok(a) => a,
            Err(e) => return Err(e),
        };
        let name = api.to_str();
        let _ = db.add_instance(host, name.as_str());
        Ok(api)
    }

    /// The request for the trending posts of `host`.
    pub fn trending_request(&self, host: &str) -> (request: ApiRequest)
        ensures
            request@ == trending_request_of(*self, host@),
    {
        match self {
            FediApi::Mastodon | FediApi::Calckey => get(host, "/api/v1/trends/statuses?limit=10"),
            _ => {
                let mut body: Vec<Member> = Vec::new();
                body.push(Member { name: String::from_str("limit"), value: JsonValue::Number(10) });
                let request = post(host, "/api/notes/featured", body);
                assert(request@.body =~= seq![("limit"@, JsonValueView::Number(10))]);
                request
            },
        }
    }

    /// The trending posts of `host` that `reply` holds, each reduced to its
    /// origin and stamped with `fetch_time`.
    pub fn get_trending_posts(&self, host: &str, reply: &Reply, fetch_time: i64) -> (posts: Result<
        Vec<Post>,
        Error,
    >)
        ensures
            match posts {
                Ok(list) => trending_read(*self, host@, *reply, fetch_time as int) == Ok::<
                    Seq<PostView>,
                    ErrorView,
                >(post_views(list@)),
                Err(e) => trending_read(*self, host@, *reply, fetch_time as int) == Err::<
                    Seq<PostView>,
                    ErrorView,
                >(e@),
            },
    {
        let posts = match read_answer(*self, host, "trending posts", host, reply, fetch_time) {
            Ok(list) => list,
            Err(e) => return Err(e),
        };
        let mut reduced: Vec<Post> = Vec::new();
        let mut i: usize = 0;
        while i < posts.len()
            invariant
                i <= posts.len(),
                reduced@.len() == i,
                forall|k: int| 0 <= k < i ==> (#[trigger] reduced@[k])@ == posts@[k]@.origin(),
            decreases posts.len() - i,
        {
            reduced.push(posts[i].origin());
            i += 1;
        }
        assert(post_views(reduced@) =~= origins(post_views(posts@)));
        Ok(reduced)
    }

    /// The request for the global timeline of `host`, from `since_id` on
    /// where one is given.
    pub fn timeline_request(&self, host: &str, since_id: &Option<String>) -> (request: ApiRequest)
        ensures
            request@ == timeline_request_of(*self, host@, opt_text(*since_id)),
    {
        match self {
            FediApi::Mastodon | FediApi::Calckey => match since_id {
                Some(id) => {
                    let path = join2("/api/v1/timelines/public?limit=40&since_id=", id.as_str());
                    get(host, path.as_str())
                },
                None => get(host, "/api/v1/timelines/public?limit=40"),
            },
            _ => {
                let mut body: Vec<Member> = Vec::new();
                body.push(Member { name: String::from_str("limit"), value: JsonValue::Number(100) });
                match since_id {
                    Some(id) => {
                        body.push(
                            Member {
                                name: String::from_str("sinceId"),
                                value: JsonValue::Text(id.clone()),
                            },
                        );
                        let request = post(host, "/api/notes/global-timeline", body);
                        assert(request@.body =~= seq![
                            ("limit"@, JsonValueView::Number(100)),
                            ("sinceId"@, JsonValueView::Text(id@)),
                        ]);
                        request
                    },
                    None => {
                        let request = post(host, "/api/notes/global-timeline", body);
                        assert(request@.body =~= seq![("limit"@, JsonValueView::Number(100))]);
                        request
                    },
                }
            },
        }
    }

    /// The global timeline of `host` that `reply` holds, oldest post first,
    /// each post stamped with `fetch_time`.
    pub fn get_global_timeline(&self, host: &str, reply: &Reply, fetch_time: i64) -> (posts: Result<
        Vec<Post>,
        Error,
    >)
        ensures
            match posts {
                Ok(list) => timeline_read(*self, host@, *reply, fetch_time as int) == Ok::<
                    Seq<PostView>,
                    ErrorView,
                >(post_views(list@)),
                Err(e) => timeline_read(*self, host@, *reply, fetch_time as int) == Err::<
                    Seq<PostView>,
                    ErrorView,
                >(e@),
            },
    {
        let posts = match read_answer(*self, host, "global timeline", host, reply, fetch_time) {
            Ok(list) => list,
            Err(e) => return Err(e),
        };
        if posts.len() >= 2 && !every_post_dated(&posts) {
            return Err(
                Error::Api(
                    join3("Failed to get global timeline of ", host, ": post without creation time"),
                ),
            );
        }
        Ok(sort_by_creation(&posts))
    }
}

} // verus!
