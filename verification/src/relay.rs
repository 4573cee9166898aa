//! Turning "this actor tells this follower of this post" into a delivery for
//! the worker of the follower's inbox host.
use vstd::prelude::*;
use vstd::utf8::encode_utf8;
use crate::activitypub::{Announce, AnnounceView, context_text, public_text};
use crate::actor::{Actor, ActorKind, ActorKindView, ActorView, RemoteActor, RemoteActorView};
use crate::post::{Post, PostView};
use crate::text::join3;
use crate::workers::Workers;
use crate::uri::{
    UriParts, UriPartsView, opt_parts, parse_uri, parsed_uri, percent_encode, percent_encoded,
    same_text, uri_host,
};

verus! {

/// How many deliveries wait for one inbox host before further ones are
/// dropped.
pub const INBOX_QUEUE_CAPACITY: usize = 1024;

/// How many announcements wait to be turned into deliveries before their
/// producers are held back.
pub const FAN_IN_CAPACITY: usize = 16;

/// An actor of the relay tells a follower of a post.
#[derive(Debug, PartialEq, Eq)]
pub struct Announcement {
    pub actor: Actor,
    pub remote_actor: RemoteActor,
    pub post: Post,
}

/// The mathematical value of an [`Announcement`].
pub struct AnnouncementView {
    pub actor: ActorView,
    pub remote_actor: RemoteActorView,
    pub post: PostView,
}

impl View for Announcement {
    type V = AnnouncementView;

    open spec fn view(&self) -> AnnouncementView {
        AnnouncementView { actor: self.actor@, remote_actor: self.remote_actor@, post: self.post@ }
    }
}

/// The values of a list of announcements.
pub open spec fn announcement_views(list: Seq<Announcement>) -> Seq<AnnouncementView> {
    Seq::new(list.len(), |i: int| list[i]@)
}

/// One announcement on its way to one inbox.
#[derive(Debug, PartialEq, Eq)]
pub struct Job {
    pub post_uri: String,
    pub actor_id: String,
    pub body: Announce,
    pub key_id: String,
    pub inbox_url: String,
    /// The host of the inbox: the worker that the delivery is queued for.
    pub host: String,
}

/// The mathematical value of a [`Job`].
pub struct JobView {
    pub post_uri: Seq<char>,
    pub actor_id: Seq<char>,
    pub body: AnnounceView,
    pub key_id: Seq<char>,
    pub inbox_url: Seq<char>,
    pub host: Seq<char>,
}

impl View for Job {
    type V = JobView;

    open spec fn view(&self) -> JobView {
        JobView {
            post_uri: self.post_uri@,
            actor_id: self.actor_id@,
            body: self.body@,
            key_id: self.key_id@,
            inbox_url: self.inbox_url@,
            host: self.host@,
        }
    }
}

/// The kinds that an announcement of `actor` carries: a completion relay
/// marks its announcements as relayed.
pub open spec fn announce_types(actor: ActorView) -> Seq<Seq<char>> {
    match actor.kind {
        ActorKindView::CompletionRelay => seq!["Announce"@, "Relay"@],
        ActorKindView::TrendsRelay(_) => seq!["Announce"@],
    }
}

/// The announcement with which `actor`, served under `hostname`, relays the
/// post at `post_uri`.
pub open spec fn announce_body(hostname: Seq<char>, actor: ActorView, post_uri: Seq<char>) -> AnnounceView {
    AnnounceView {
        jsonld_context: context_text(),
        announce_type: announce_types(actor),
        actor: actor.uri(),
        to: seq![public_text()],
        object: post_uri,
        id: "https://"@ + hostname + "/announce/"@ + percent_encoded(encode_utf8(post_uri)),
    }
}

/// The host that the worker for an inbox is named by: the host of the inbox
/// address, or the empty name where it has none.
pub open spec fn worker_host(inbox: UriPartsView) -> Seq<char> {
    match inbox.host {
        Some(host) => host,
        None => Seq::empty(),
    }
}

/// The delivery that tells `follower` of `post` in the name of `actor`,
/// given what parsing the inbox address and the address of the post's origin
/// gave. There is none where either is no URL, and none where both have the
/// same host: a post is not relayed back to the instance it comes from.
pub open spec fn delivery_for(
    hostname: Seq<char>,
    actor: ActorView,
    follower: RemoteActorView,
    post: PostView,
    inbox: Option<UriPartsView>,
    target: Option<UriPartsView>,
) -> Option<JobView> {
    match (inbox, target) {
        (Some(i), Some(t)) => if i.host == t.host {
            None
        } else {
            Some(
                JobView {
                    post_uri: post.origin().uri,
                    actor_id: actor.uri(),
                    body: announce_body(hostname, actor, post.origin().uri),
                    key_id: actor.key_id(),
                    inbox_url: follower.inbox,
                    host: worker_host(i),
                },
            )
        },
        _ => None,
    }
}

/// The delivery that tells `follower` of `post` in the name of `actor`.
pub open spec fn delivery(
    hostname: Seq<char>,
    actor: ActorView,
    follower: RemoteActorView,
    post: PostView,
) -> Option<JobView> {
    delivery_for(
        hostname,
        actor,
        follower,
        post,
        parsed_uri(follower.inbox),
        parsed_uri(post.origin().uri),
    )
}

/// A post is never delivered to the instance it comes from: where there is
/// a delivery, the host of the follower's inbox is not the host of the
/// post's origin.
pub proof fn no_delivery_to_the_origin(
    hostname: Seq<char>,
    actor: ActorView,
    follower: RemoteActorView,
    post: PostView,
)
    ensures
        delivery(hostname, actor, follower, post) is Some ==> uri_host(follower.inbox) != uri_host(
            post.origin().uri,
        ),
{
}

/// The announcement with which `actor`, served under `hostname`, relays the
/// post at `post_uri`.
pub fn announce(hostname: &str, actor: &Actor, post_uri: &str) -> (body: Announce)
    ensures
        body@ == announce_body(hostname@, actor@, post_uri@),
{
    let mut announce_type: Vec<String> = Vec::new();
    announce_type.push(String::from_str("Announce"));
    match &actor.kind {
        ActorKind::CompletionRelay => {
            announce_type.push(String::from_str("Relay"));
        },
        ActorKind::TrendsRelay(_) => {},
    }
    let mut to: Vec<String> = Vec::new();
    to.push(String::from_str("https://www.w3.org/ns/activitystreams#Public"));
    let mut id = join3("https://", hostname, "/announce/");
    let encoded = percent_encode(post_uri);
    id.append(encoded.as_str());
    let body = Announce {
        jsonld_context: String::from_str("https://www.w3.org/ns/activitystreams"),
        announce_type,
        actor: actor.uri(),
        to,
        object: String::from_str(post_uri),
        id,
    };
    assert(body@.announce_type =~= announce_types(actor@));
    assert(body@.to =~= seq![public_text()]);
    body
}

/// The delivery that tells `remote_actor` of `post` in the name of `actor`,
/// given what parsing the inbox address and the address of the post's origin
/// gave.
pub fn prepare(
    hostname: &str,
    actor: &Actor,
    remote_actor: &RemoteActor,
    post: &Post,
    inbox: &Option<UriParts>,
    target: &Option<UriParts>,
) -> (job: Option<Job>)
    ensures
        match job {
            Some(j) => Some(j@),
            None => None,
        } == delivery_for(
            hostname@,
            actor@,
            remote_actor@,
            post@,
            opt_parts(*inbox),
            opt_parts(*target),
        ),
{
    let inbox = match inbox {
        Some(parts) => parts,
        None => return None,
    };
    let target = match target {
        Some(parts) => parts,
        None => return None,
    };
    // A post is not relayed back to the instance it comes from.
    if same_text(&inbox.host, &target.host) {
        return None;
    }
    let origin = post.origin();
    let host = match &inbox.host {
        Some(h) => h.clone(),
        None => String::new(),
    };
    Some(
        Job {
            body: announce(hostname, actor, origin.uri.as_str()),
            post_uri: origin.uri,
            actor_id: actor.uri(),
            key_id: actor.key_id(),
            inbox_url: remote_actor.inbox.clone(),
            host,
        },
    )
}

/// What the relay does with one announcement.
#[derive(Debug, PartialEq, Eq)]
pub enum Dispatch {
    /// Nothing is sent.
    Skip,
    /// The delivery is queued for the worker of its inbox host, which is
    /// started first where `new_worker` says so.
    Deliver { job: Job, new_worker: bool },
}

/// The dispatcher of the relay: the host name it serves under and the inbox
/// hosts that have a worker.
pub struct Relay {
    hostname: String,
    workers: Workers,
}

impl Relay {
    /// The host name that the relay serves under.
    pub closed spec fn hostname(&self) -> Seq<char> {
        self.hostname@
    }

    /// The inbox hosts that have a worker, in the order in which the
    /// workers were started.
    pub closed spec fn workers(&self) -> Seq<Seq<char>> {
        self.workers@
    }

    /// Whether every inbox host has at most one worker.
    pub closed spec fn wf(&self) -> bool {
        self.workers.wf()
    }

    /// A dispatcher without workers.
    pub fn new(hostname: String) -> (relay: Relay)
        ensures
            relay.wf(),
            relay.hostname() == hostname@,
            relay.workers() == Seq::<Seq<char>>::empty(),
    {
        Relay { hostname, workers: Workers::new() }
    }

    /// Whether a worker serves the inbox host `host`.
    pub fn has_worker(&self, host: &str) -> (known: bool)
        ensures
            known == self.workers().contains(host@),
    {
        self.workers.contains(host)
    }

    /// Decides what to do with the announcement of `post` to `remote_actor`
    /// in the name of `actor`, given what parsing the inbox address and the
    /// address of the post's origin gave. A delivery goes to the worker of
    /// its inbox host; the first delivery for a host starts that worker.
    pub fn dispatch_parsed(
        &mut self,
        actor: &Actor,
        remote_actor: &RemoteActor,
        post: &Post,
        inbox: &Option<UriParts>,
        target: &Option<UriParts>,
    ) -> (dispatch: Dispatch)
        requires
            old(self).wf(),
        ensures
            final(self).wf(),
            final(self).hostname() == old(self).hostname(),
            match delivery_for(
                old(self).hostname(),
                actor@,
                remote_actor@,
                post@,
                opt_parts(*inbox),
                opt_parts(*target),
            ) {
                Some(j) => {
                    &&& dispatch matches Dispatch::Deliver { job, new_worker }
                    &&& job@ == j
                    &&& new_worker == !old(self).workers().contains(j.host)
                    &&& final(self).workers() == if new_worker {
                        old(self).workers().push(j.host)
                    } else {
                        old(self).workers()
                    }
                },
                None => dispatch == Dispatch::Skip && final(self).workers() == old(self).workers(),
            },
    {
        match prepare(self.hostname.as_str(), actor, remote_actor, post, inbox, target) {
            Some(job) => {
                let new_worker = self.workers.ensure(job.host.as_str());
                Dispatch::Deliver { job, new_worker }
            },
            None => Dispatch::Skip,
        }
    }

    /// Decides what to do with the announcement of `post` to `remote_actor`
    /// in the name of `actor`. Nothing is sent where the inbox address or
    /// the address of the post's origin is no URL, nor where both have the
    /// same host.
    pub fn dispatch(&mut self, actor: &Actor, remote_actor: &RemoteActor, post: &Post) -> (dispatch:
        Dispatch)
        requires
            old(self).wf(),
        ensures
            final(self).wf(),
            final(self).hostname() == old(self).hostname(),
            match delivery(old(self).hostname(), actor@, remote_actor@, post@) {
                Some(j) => {
                    &&& dispatch matches Dispatch::Deliver { job, new_worker }
                    &&& job@ == j
                    &&& new_worker == !old(self).workers().contains(j.host)
                    &&& final(self).workers() == if new_worker {
                        old(self).workers().push(j.host)
                    } else {
                        old(self).workers()
                    }
                },
                None => dispatch == Dispatch::Skip && final(self).workers() == old(self).workers(),
            },
            dispatch is Deliver ==> uri_host(remote_actor@.inbox) != uri_host(post@.origin().uri),
    {
        let inbox = parse_uri(remote_actor.inbox.as_str());
        let origin = post.origin();
        let target = parse_uri(origin.uri.as_str());
        self.dispatch_parsed(actor, remote_actor, post, &inbox, &target)
    }
}

} // verus!
