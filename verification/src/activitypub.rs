//! The ActivityPub documents that the relay publishes and sends.
use vstd::prelude::*;
use crate::uri::opt_text;

verus! {

/// The JSON-LD context that every document of the relay names.
pub open spec fn context_text() -> Seq<char> {
    "https://www.w3.org/ns/activitystreams"@
}

/// The address that stands for "everybody".
pub open spec fn public_text() -> Seq<char> {
    "https://www.w3.org/ns/activitystreams#Public"@
}

/// A picture attached to an actor.
#[derive(Debug, PartialEq, Eq)]
pub struct Media {
    /// The kind of object, written as `type`.
    pub media_type: String,
    /// The MIME type, written as `mediaType`.
    pub content_type: String,
    pub url: String,
}

/// The mathematical value of a [`Media`].
pub struct MediaView {
    pub media_type: Seq<char>,
    pub content_type: Seq<char>,
    pub url: Seq<char>,
}

impl View for Media {
    type V = MediaView;

    open spec fn view(&self) -> MediaView {
        MediaView {
            media_type: self.media_type@,
            content_type: self.content_type@,
            url: self.url@,
        }
    }
}

/// The key under which an actor signs.
#[derive(Debug, PartialEq, Eq)]
pub struct ActorPublicKey {
    pub id: String,
    pub owner: Option<String>,
    /// The key in PEM form, written as `publicKeyPem`.
    pub pem: String,
}

/// The mathematical value of an [`ActorPublicKey`].
pub struct ActorPublicKeyView {
    pub id: Seq<char>,
    pub owner: Option<Seq<char>>,
    pub pem: Seq<char>,
}

impl View for ActorPublicKey {
    type V = ActorPublicKeyView;

    open spec fn view(&self) -> ActorPublicKeyView {
        ActorPublicKeyView { id: self.id@, owner: opt_text(self.owner), pem: self.pem@ }
    }
}

/// The document that describes an actor to other instances.
#[derive(Debug, PartialEq, Eq)]
pub struct Actor {
    /// Written as `@context`.
    pub jsonld_context: String,
    /// Written as `type`.
    pub actor_type: String,
    pub id: String,
    pub name: Option<String>,
    pub icon: Option<Media>,
    pub inbox: String,
    /// Written as `publicKey`.
    pub public_key: ActorPublicKey,
    /// Written as `preferredUsername`.
    pub preferred_username: Option<String>,
}

/// The mathematical value of an actor document.
pub struct ActorView {
    pub jsonld_context: Seq<char>,
    pub actor_type: Seq<char>,
    pub id: Seq<char>,
    pub name: Option<Seq<char>>,
    pub icon: Option<MediaView>,
    pub inbox: Seq<char>,
    pub public_key: ActorPublicKeyView,
    pub preferred_username: Option<Seq<char>>,
}

impl View for Actor {
    type V = ActorView;

    open spec fn view(&self) -> ActorView {
        ActorView {
            jsonld_context: self.jsonld_context@,
            actor_type: self.actor_type@,
            id: self.id@,
            name: opt_text(self.name),
            icon: match self.icon {
                Some(media) => Some(media@),
                None => None,
            },
            inbox: self.inbox@,
            public_key: self.public_key@,
            preferred_username: opt_text(self.preferred_username),
        }
    }
}

/// The characters of each string of a list.
pub open spec fn text_list(list: Seq<String>) -> Seq<Seq<char>> {
    Seq::new(list.len(), |i: int| list[i]@)
}

/// An activity that relays a post to everybody.
#[derive(Debug, PartialEq, Eq)]
pub struct Announce {
    /// Written as `@context`.
    pub jsonld_context: String,
    /// Written as `type`.
    pub announce_type: Vec<String>,
    pub actor: String,
    pub to: Vec<String>,
    pub object: String,
    pub id: String,
}

/// The mathematical value of an [`Announce`].
pub struct AnnounceView {
    pub jsonld_context: Seq<char>,
    pub announce_type: Seq<Seq<char>>,
    pub actor: Seq<char>,
    pub to: Seq<Seq<char>>,
    pub object: Seq<char>,
    pub id: Seq<char>,
}

impl View for Announce {
    type V = AnnounceView;

    open spec fn view(&self) -> AnnounceView {
        AnnounceView {
            jsonld_context: self.jsonld_context@,
            announce_type: text_list(self.announce_type@),
            actor: self.actor@,
            to: text_list(self.to@),
            object: self.object@,
            id: self.id@,
        }
    }
}

/// An activity that one actor addresses to another, about some object.
#[derive(Debug, PartialEq, Eq)]
pub struct Action<T> {
    /// Written as `@context`.
    pub jsonld_context: String,
    /// Written as `type`.
    pub action_type: String,
    pub actor: String,
    pub to: Option<String>,
    pub id: String,
    pub object: Option<T>,
}

/// The mathematical value of an [`Action`].
pub struct ActionView<T> {
    pub jsonld_context: Seq<char>,
    pub action_type: Seq<char>,
    pub actor: Seq<char>,
    pub to: Option<Seq<char>>,
    pub id: Seq<char>,
    pub object: Option<T>,
}

impl<T> View for Action<T> {
    type V = ActionView<T>;

    open spec fn view(&self) -> ActionView<T> {
        ActionView {
            jsonld_context: self.jsonld_context@,
            action_type: self.action_type@,
            actor: self.actor@,
            to: opt_text(self.to),
            id: self.id@,
            object: self.object,
        }
    }
}

} // verus!
