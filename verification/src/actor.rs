//! The actors that the relay serves, and the remote actors that follow them.
use vstd::prelude::*;
use crate::activitypub;
use crate::error::{Error, ErrorView};
use crate::signature::{key_pem, write_public_key};
use crate::text::{join2, join3, str_eq};
use crate::uri::{
    UriParts, UriPartsView, host_of, lowercase, lowercased, opt_parts, opt_text, parse_uri, parsed_uri,
    uri_domain,
};

verus! {

/// What an actor of the relay hands on to its followers.
#[derive(Debug, Hash, PartialEq, Eq, PartialOrd, Ord)]
pub enum ActorKind {
    /// Replies to the posts that its followers' instances have seen.
    CompletionRelay,
    /// The trending posts of the named instance.
    TrendsRelay(String),
}

/// The mathematical value of an [`ActorKind`].
pub enum ActorKindView {
    CompletionRelay,
    TrendsRelay(Seq<char>),
}

impl View for ActorKind {
    type V = ActorKindView;

    open spec fn view(&self) -> ActorKindView {
        match self {
            ActorKind::CompletionRelay => ActorKindView::CompletionRelay,
            ActorKind::TrendsRelay(instance) => ActorKindView::TrendsRelay(instance@),
        }
    }
}

impl Clone for ActorKind {
    fn clone(&self) -> (copy: Self)
        ensures
            copy == *self,
    {
        match self {
            ActorKind::CompletionRelay => ActorKind::CompletionRelay,
            ActorKind::TrendsRelay(instance) => ActorKind::TrendsRelay(instance.clone()),
        }
    }
}

/// An actor on another instance that follows an actor of the relay.
#[derive(Debug, Hash, PartialEq, Eq, PartialOrd, Ord)]
pub struct RemoteActor {
    /// The canonical address of the remote actor.
    pub id: String,
    /// Where activities for the remote actor are posted.
    pub inbox: String,
}

/// The mathematical value of a [`RemoteActor`].
pub struct RemoteActorView {
    pub id: Seq<char>,
    pub inbox: Seq<char>,
}

impl View for RemoteActor {
    type V = RemoteActorView;

    open spec fn view(&self) -> RemoteActorView {
        RemoteActorView { id: self.id@, inbox: self.inbox@ }
    }
}

/// The values of a list of remote actors.
pub open spec fn remote_actor_views(actors: Seq<RemoteActor>) -> Seq<RemoteActorView> {
    Seq::new(actors.len(), |i: int| actors[i]@)
}

impl Clone for RemoteActor {
    fn clone(&self) -> (copy: Self)
        ensures
            copy == *self,
    {
        RemoteActor { id: self.id.clone(), inbox: self.inbox.clone() }
    }
}

impl RemoteActor {
    /// The lowercased domain of the remote actor's address, where it has one.
    pub fn host(&self) -> (host: Option<String>)
        ensures
            opt_text(host) == uri_domain(self.id@),
    {
        host_of(self.id.as_str())
    }
}

/// An actor that the relay serves under its own host name.
#[derive(Debug, Hash, PartialEq, Eq, PartialOrd, Ord)]
pub struct Actor {
    /// The public host name of the relay.
    pub host: String,
    pub kind: ActorKind,
}

/// The mathematical value of an [`Actor`].
pub struct ActorView {
    pub host: Seq<char>,
    pub kind: ActorKindView,
}

impl View for Actor {
    type V = ActorView;

    open spec fn view(&self) -> ActorView {
        ActorView { host: self.host@, kind: self.kind@ }
    }
}

/// The values of a list of actors.
pub open spec fn actor_views(actors: Seq<Actor>) -> Seq<ActorView> {
    Seq::new(actors.len(), |i: int| actors[i]@)
}

impl Clone for Actor {
    fn clone(&self) -> (copy: Self)
        ensures
            copy == *self,
    {
        Actor { host: self.host.clone(), kind: self.kind.clone() }
    }
}

impl ActorView {
    /// The address of the actor.
    pub open spec fn uri(self) -> Seq<char> {
        match self.kind {
            ActorKindView::CompletionRelay => "https://"@ + self.host + "/completion"@,
            ActorKindView::TrendsRelay(instance) => "https://"@ + self.host + "/trends/"@
                + instance,
        }
    }

    /// The address of the actor's public key.
    pub open spec fn key_id(self) -> Seq<char> {
        self.uri() + "#key"@
    }

    /// The name that the actor shows.
    pub open spec fn name(self) -> Seq<char> {
        match self.kind {
            ActorKindView::CompletionRelay => "Courier Six - Mission Complete"@,
            ActorKindView::TrendsRelay(instance) => "Courier Six - Trends from ["@ + instance
                + "]"@,
        }
    }

    /// The user name of the actor.
    pub open spec fn preferred_username(self) -> Seq<char> {
        match self.kind {
            ActorKindView::CompletionRelay => "courier-completion"@,
            ActorKindView::TrendsRelay(instance) => "courier-"@ + instance,
        }
    }

    /// The document that describes the actor, with `pem` as its public key.
    pub open spec fn document(self, pem: Seq<char>) -> activitypub::ActorView {
        activitypub::ActorView {
            jsonld_context: activitypub::context_text(),
            actor_type: "Service"@,
            id: self.uri(),
            name: Some(self.name()),
            icon: Some(
                activitypub::MediaView {
                    media_type: "Image"@,
                    content_type: "image/jpeg"@,
                    url: "https://"@ + self.host + "/icon.png"@,
                },
            ),
            inbox: self.uri(),
            public_key: activitypub::ActorPublicKeyView {
                id: self.key_id(),
                owner: Some(self.uri()),
                pem: pem,
            },
            preferred_username: Some(self.preferred_username()),
        }
    }
}

/// The actor that the parts of an address name: the host as written, and the
/// kind by the last path segment. An address without a host or without path
/// segments names none.
pub open spec fn actor_of_parts(parts: Option<UriPartsView>) -> Option<ActorView> {
    match parts {
        Some(p) => match (p.host, p.last_segment) {
            (Some(host), Some(segment)) => Some(
                ActorView {
                    host: host,
                    kind: if segment == "completion"@ {
                        ActorKindView::CompletionRelay
                    } else {
                        ActorKindView::TrendsRelay(segment)
                    },
                },
            ),
            _ => None,
        },
        None => None,
    }
}

impl Actor {
    /// The completion relay that is served under `hostname`.
    pub fn completion(hostname: &str) -> (actor: Actor)
        ensures
            actor@ == (ActorView { host: hostname@, kind: ActorKindView::CompletionRelay }),
    {
        Actor { host: String::from_str(hostname), kind: ActorKind::CompletionRelay }
    }

    /// The trends relay for `instance` that is served under `hostname`. The
    /// name of the instance is taken in lower case.
    pub fn trends(hostname: &str, instance: &str) -> (actor: Actor)
        ensures
            actor@ == (ActorView {
                host: hostname@,
                kind: ActorKindView::TrendsRelay(lowercased(instance@)),
            }),
    {
        Actor { host: String::from_str(hostname), kind: ActorKind::TrendsRelay(lowercase(instance)) }
    }

    /// The actor that the parts of a parsed address name, or `InvalidUri`
    /// where they name none.
    pub fn from_parts(parts: Option<UriParts>) -> (actor: Result<Actor, Error>)
        ensures
            match actor {
                Ok(a) => actor_of_parts(opt_parts(parts)) == Some(a@),
                Err(e) => actor_of_parts(opt_parts(parts)) is None && e@ == ErrorView::InvalidUri,
            },
    {
        let parts = match parts {
            Some(p) => p,
            None => return Err(Error::InvalidUri),
        };
        let host = match parts.host {
            Some(h) => h,
            None => return Err(Error::InvalidUri),
        };
        let segment = match parts.last_segment {
            Some(s) => s,
            None => return Err(Error::InvalidUri),
        };
        if str_eq(segment.as_str(), "completion") {
            Ok(Actor { host, kind: ActorKind::CompletionRelay })
        } else {
            Ok(Actor { host, kind: ActorKind::TrendsRelay(segment) })
        }
    }

    /// The actor that `uri` names, or `InvalidUri` where `uri` is no URL, has
    /// no host or has no path segments.
    pub fn from_uri(uri: &str) -> (actor: Result<Actor, Error>)
        ensures
            match actor {
                Ok(a) => actor_of_parts(parsed_uri(uri@)) == Some(a@),
                Err(e) => actor_of_parts(parsed_uri(uri@)) is None && e@ == ErrorView::InvalidUri,
            },
    {
        Actor::from_parts(parse_uri(uri))
    }

    /// The address of the actor.
    pub fn uri(&self) -> (uri: String)
        ensures
            uri@ == self@.uri(),
    {
        match &self.kind {
            ActorKind::CompletionRelay => join3("https://", self.host.as_str(), "/completion"),
            ActorKind::TrendsRelay(instance) => {
                let mut uri = join3("https://", self.host.as_str(), "/trends/");
                uri.append(instance.as_str());
                uri
            },
        }
    }

    /// The address of the actor's public key.
    pub fn key_id(&self) -> (key_id: String)
        ensures
            key_id@ == self@.key_id(),
    {
        let mut key_id = self.uri();
        key_id.append("#key");
        key_id
    }

    /// The document that describes the actor, with `pem` as its public key.
    pub fn document(&self, pem: String) -> (doc: activitypub::Actor)
        ensures
            doc@ == self@.document(pem@),
    {
        let name = match &self.kind {
            ActorKind::CompletionRelay => String::from_str("Courier Six - Mission Complete"),
            ActorKind::TrendsRelay(instance) => join3(
                "Courier Six - Trends from [",
                instance.as_str(),
                "]",
            ),
        };
        let preferred_username = match &self.kind {
            ActorKind::CompletionRelay => String::from_str("courier-completion"),
            ActorKind::TrendsRelay(instance) => join2("courier-", instance.as_str()),
        };
        activitypub::Actor {
            jsonld_context: String::from_str("https://www.w3.org/ns/activitystreams"),
            actor_type: String::from_str("Service"),
            id: self.uri(),
            name: Some(name),
            icon: Some(
                activitypub::Media {
                    media_type: String::from_str("Image"),
                    content_type: String::from_str("image/jpeg"),
                    url: join3("https://", self.host.as_str(), "/icon.png"),
                },
            ),
            inbox: self.uri(),
            public_key: activitypub::ActorPublicKey {
                id: self.key_id(),
                owner: Some(self.uri()),
                pem,
            },
            preferred_username: Some(preferred_username),
        }
    }

    /// The document that describes the actor, with `pub_key` as its public
    /// key in PEM form, or `Signature` where the key cannot be written.
    pub fn as_activitypub(&self, pub_key: &sigh::PublicKey) -> (doc: Result<
        activitypub::Actor,
        Error,
    >)
        ensures
            match doc {
                Ok(d) => key_pem(*pub_key) == Some(d@.public_key.pem) && d@ == self@.document(
                    d@.public_key.pem,
                ),
                Err(e) => key_pem(*pub_key) is None && e@ == ErrorView::Signature,
            },
    {
        match write_public_key(pub_key) {
            Ok(pem) => Ok(self.document(pem)),
            Err(e) => Err(e),
        }
    }
}

} // verus!
