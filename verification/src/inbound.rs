//! Answering what other instances post to the actors of the relay: a
//! request to follow, or to stop following.
use vstd::prelude::*;
use vstd::utf8::encode_utf8;
use crate::activitypub::{Action, ActionView, context_text};
use crate::actor::{Actor, ActorView, RemoteActor, RemoteActorView};
use crate::db::Database;
use crate::error::{Error, message_text};
use crate::store::DatabaseView;
use crate::text::{join2, join3, str_eq};
use crate::uri::{opt_text, percent_encode, percent_encoded};

verus! {

/// What a remote actor asks for.
#[derive(Debug, Clone, Copy, PartialEq, Eq, Structural)]
pub enum Inbound {
    /// To follow the actor.
    Follow,
    /// To stop following the actor.
    Undo,
    /// Something that the relay does not deal with.
    Unrecognized,
}

/// What an activity asks for, by its type and the type of its object: a
/// `Follow`, an `Undo` of a `Follow`, or something else.
pub open spec fn request_kind(action_type: Seq<char>, object_type: Option<Seq<char>>) -> Inbound {
    if action_type == "Follow"@ {
        Inbound::Follow
    } else if action_type == "Undo"@ && object_type == Some("Follow"@) {
        Inbound::Undo
    } else {
        Inbound::Unrecognized
    }
}

/// What an activity asks for, by its type and the type of its object.
pub fn classify(action_type: &str, object_type: &Option<String>) -> (kind: Inbound)
    ensures
        kind == request_kind(action_type@, opt_text(*object_type)),
{
    if str_eq(action_type, "Follow") {
        Inbound::Follow
    } else if str_eq(action_type, "Undo") {
        match object_type {
            Some(t) => if str_eq(t.as_str(), "Follow") {
                Inbound::Undo
            } else {
                Inbound::Unrecognized
            },
            None => Inbound::Unrecognized,
        }
    } else {
        Inbound::Unrecognized
    }
}

/// The answer to an inbound request.
#[derive(Debug, PartialEq, Eq)]
pub struct Response {
    pub status: u16,
    pub content_type: Option<String>,
    pub body: String,
}

/// The mathematical value of a [`Response`].
pub struct ResponseView {
    pub status: u16,
    pub content_type: Option<Seq<char>>,
    pub body: Seq<char>,
}

impl View for Response {
    type V = ResponseView;

    open spec fn view(&self) -> ResponseView {
        ResponseView {
            status: self.status,
            content_type: opt_text(self.content_type),
            body: self.body@,
        }
    }
}

/// The answer to a request that the relay takes on.
pub open spec fn accepted_response() -> ResponseView {
    ResponseView { status: 202, content_type: Some("application/activity+json"@), body: "{}"@ }
}

/// The answer that turns a request down with `status` and says why.
pub open spec fn refusal(status: u16, body: Seq<char>) -> ResponseView {
    ResponseView { status: status, content_type: None, body: body }
}

/// The address under which an `Accept` is published.
pub open spec fn accept_id(hostname: Seq<char>, actor: Seq<char>, inbox: Seq<char>) -> Seq<char> {
    "https://"@ + hostname + "/activity/accept/"@ + percent_encoded(encode_utf8(actor)) + "/"@
        + percent_encoded(encode_utf8(inbox))
}

/// The `Accept` with which `target`, served under `hostname`, answers the
/// `Follow` of `follower`: it hands the `Follow` back as its object.
pub open spec fn accept_of<T>(
    hostname: Seq<char>,
    target: ActorView,
    follower: RemoteActorView,
    payload: T,
) -> ActionView<T> {
    ActionView {
        jsonld_context: context_text(),
        action_type: "Accept"@,
        actor: target.uri(),
        to: Some(follower.id),
        id: accept_id(hostname, target.uri(), follower.inbox),
        object: Some(payload),
    }
}

/// The `Accept` with which `target`, served under `hostname`, answers the
/// `Follow` of `remote_actor` that arrived as `payload`.
pub fn accept<T>(hostname: &str, target: &Actor, remote_actor: &RemoteActor, payload: T) -> (action:
    Action<T>)
    ensures
        action@ == accept_of(hostname@, target@, remote_actor@, payload),
{
    let uri = target.uri();
    let mut id = join3("https://", hostname, "/activity/accept/");
    let actor = percent_encode(uri.as_str());
    id.append(actor.as_str());
    id.append("/");
    let inbox = percent_encode(remote_actor.inbox.as_str());
    id.append(inbox.as_str());
    Action {
        jsonld_context: String::from_str("https://www.w3.org/ns/activitystreams"),
        action_type: String::from_str("Accept"),
        actor: uri,
        to: Some(remote_actor.id.clone()),
        id,
        object: Some(payload),
    }
}

/// What the relay does about an inbound request.
#[derive(Debug, PartialEq, Eq)]
pub enum Outcome<T> {
    /// Only the answer is sent.
    Done,
    /// After the answer, `action` is posted to `inbox` in the name of
    /// `key_id`. Once that is delivered, the follow is recorded.
    SendAccept { inbox: String, key_id: String, action: Action<T> },
}

/// The answer to a request of the remote actor `follower` to `target`, and
/// the store after it. A `Follow` is taken on at once, and the store stays
/// as it is until the `Accept` has been delivered. An `Undo` of a `Follow`
/// removes the follow. Anything else is turned down with status 400.
pub open spec fn handled(
    db: DatabaseView,
    target: ActorView,
    follower: RemoteActorView,
    kind: Inbound,
) -> (ResponseView, DatabaseView) {
    match kind {
        Inbound::Follow => (accepted_response(), db),
        Inbound::Undo => (accepted_response(), db.del_follow(follower.id, target.uri())),
        Inbound::Unrecognized => (refusal(400, "Not a recognized request"@), db),
    }
}

/// The answer to a request that the relay takes on.
pub fn accepted() -> (response: Response)
    ensures
        response@ == accepted_response(),
{
    Response {
        status: 202,
        content_type: Some(String::from_str("application/activity+json")),
        body: String::from_str("{}"),
    }
}

/// The answer to a request that the relay does not deal with.
pub fn unrecognized() -> (response: Response)
    ensures
        response@ == refusal(400, "Not a recognized request"@),
{
    Response { status: 400, content_type: None, body: String::from_str("Not a recognized request") }
}

/// What is to be done about an inbound request.
#[derive(Debug, PartialEq, Eq)]
pub enum Decision<T> {
    /// The request is taken on at once. Then `action` is posted to `inbox`
    /// in the name of `key_id`, and once that is delivered the follow is
    /// recorded.
    Accept { inbox: String, key_id: String, action: Action<T> },
    /// The follow of the remote actor `id` to the actor at `actor` is
    /// removed; then the request is taken on.
    Unfollow { id: String, actor: String },
    /// The request is turned down.
    Refuse,
}

/// Decides what is to be done about a request that `remote_actor` posted
/// to `target`, an actor served under `hostname`: `action_type` is the type
/// of the activity, `object_type` the type of its object, `payload` the
/// activity itself.
pub fn decide<T>(
    hostname: &str,
    target: &Actor,
    remote_actor: &RemoteActor,
    action_type: &str,
    object_type: &Option<String>,
    payload: T,
) -> (decision: Decision<T>)
    ensures
        match request_kind(action_type@, opt_text(*object_type)) {
            Inbound::Follow => {
                &&& decision matches Decision::Accept { inbox, key_id, action }
                &&& inbox@ == remote_actor@.inbox
                &&& key_id@ == target@.key_id()
                &&& action@ == accept_of(hostname@, target@, remote_actor@, payload)
            },
            Inbound::Undo => {
                &&& decision matches Decision::Unfollow { id, actor }
                &&& id@ == remote_actor@.id
                &&& actor@ == target@.uri()
            },
            Inbound::Unrecognized => decision is Refuse,
        },
{
    match classify(action_type, object_type) {
        Inbound::Follow => Decision::Accept {
            inbox: remote_actor.inbox.clone(),
            key_id: target.key_id(),
            action: accept(hostname, target, remote_actor, payload),
        },
        Inbound::Undo => Decision::Unfollow { id: remote_actor.id.clone(), actor: target.uri() },
        Inbound::Unrecognized => Decision::Refuse,
    }
}

/// The answer to a request whose sender could not be made out.
pub fn bad_actor(e: &Error) -> (response: Response)
    ensures
        response@ == refusal(400, "Bad actor: "@ + message_text(e@)),
{
    let message = e.message();
    Response { status: 400, content_type: None, body: join2("Bad actor: ", message.as_str()) }
}

/// The answer to a request that the store could not carry out.
pub fn store_failure(e: &Error) -> (response: Response)
    ensures
        response@ == refusal(500, message_text(e@)),
{
    Response { status: 500, content_type: None, body: e.message() }
}

/// The answer to a request whose body is no activity.
pub fn bad_action(detail: &str) -> (response: Response)
    ensures
        response@ == refusal(400, "Bad action: "@ + detail@),
{
    Response { status: 400, content_type: None, body: join2("Bad action: ", detail) }
}

/// Deals with a request that `remote_actor` posted to `target`, an actor
/// served under `hostname`: `action_type` is the type of the activity,
/// `object_type` the type of its object, `payload` the activity itself.
pub fn post_relay<T>(
    hostname: &str,
    db: &mut Database,
    target: &Actor,
    remote_actor: &RemoteActor,
    action_type: &str,
    object_type: &Option<String>,
    payload: T,
) -> (answer: (Response, Outcome<T>))
    requires
        old(db).wf(),
    ensures
        final(db).wf(),
        (answer.0@, final(db)@) == handled(
            old(db)@,
            target@,
            remote_actor@,
            request_kind(action_type@, opt_text(*object_type)),
        ),
        match answer.1 {
            Outcome::SendAccept { inbox, key_id, action } => {
                &&& request_kind(action_type@, opt_text(*object_type)) == Inbound::Follow
                &&& inbox@ == remote_actor@.inbox
                &&& key_id@ == target@.key_id()
                &&& action@ == accept_of(hostname@, target@, remote_actor@, payload)
            },
            Outcome::Done => request_kind(action_type@, opt_text(*object_type)) != Inbound::Follow,
        },
{
    match decide(hostname, target, remote_actor, action_type, object_type, payload) {
        Decision::Accept { inbox, key_id, action } => (
            accepted(),
            Outcome::SendAccept { inbox, key_id, action },
        ),
        Decision::Unfollow { id, actor } => {
            let _ = db.del_follow(id.as_str(), actor.as_str());
            (accepted(), Outcome::Done)
        },
        Decision::Refuse => (unrecognized(), Outcome::Done),
    }
}

/// The store after the `Accept` for a `Follow` has been sent: the follow is
/// recorded where the `Accept` was delivered, and not where it was not.
pub open spec fn after_accept(
    db: DatabaseView,
    target: ActorView,
    follower: RemoteActorView,
    delivered: bool,
) -> DatabaseView {
    if delivered {
        db.add_follow(follower.id, follower.inbox, target.uri())
    } else {
        db
    }
}

/// Closes a `Follow` once the `Accept` has been sent: `sent` says how that
/// went. Only a delivered `Accept` makes `remote_actor` a follower of
/// `target`.
pub fn follow_accepted(db: &mut Database, target: &Actor, remote_actor: &RemoteActor, sent: &Result<
    (),
    Error,
>) -> (done: Result<(), Error>)
    requires
        old(db).wf(),
    ensures
        final(db).wf(),
        done is Ok,
        final(db)@ == after_accept(old(db)@, target@, remote_actor@, sent is Ok),
{
    match sent {
        Ok(_) => {
            let uri = target.uri();
            db.add_follow(remote_actor.id.as_str(), remote_actor.inbox.as_str(), uri.as_str())
        },
        Err(_) => Ok(()),
    }
}

} // verus!
