//! A post as the relay knows it: an address, a few markers, and the post it
//! boosts, where it boosts one.
use vstd::prelude::*;
use crate::uri::{host_of, last_segment_of, opt_text, uri_domain, uri_last_segment};

verus! {

/// A post on some instance.
#[derive(Debug, PartialEq, Eq)]
pub struct Post {
    /// The canonical address of the post.
    pub uri: String,
    /// When the relay learned of the post, in seconds since the Unix epoch.
    pub fetch_time: i64,
    /// The identifier that the post has on the instance it was read from.
    pub timeline_id: Option<String>,
    /// When the post was written, as the instance reports it.
    pub created_at: Option<String>,
    /// The identifier of the post that this one answers.
    pub in_reply_to_id: Option<String>,
    /// The post that this one boosts.
    pub reblog: Option<Box<Post>>,
}

/// The mathematical value of a [`Post`].
pub struct PostView {
    pub uri: Seq<char>,
    pub fetch_time: int,
    pub timeline_id: Option<Seq<char>>,
    pub created_at: Option<Seq<char>>,
    pub in_reply_to_id: Option<Seq<char>>,
    pub reblog: Option<Box<PostView>>,
}

/// The value of a post, boosted posts included.
pub open spec fn post_view(p: Post) -> PostView
    decreases p,
{
    PostView {
        uri: p.uri@,
        fetch_time: p.fetch_time as int,
        timeline_id: opt_text(p.timeline_id),
        created_at: opt_text(p.created_at),
        in_reply_to_id: opt_text(p.in_reply_to_id),
        reblog: match p.reblog {
            Some(inner) => Some(Box::new(post_view(*inner))),
            None => None,
        },
    }
}

impl View for Post {
    type V = PostView;

    open spec fn view(&self) -> PostView {
        post_view(*self)
    }
}

/// The values of a list of posts.
pub open spec fn post_views(posts: Seq<Post>) -> Seq<PostView> {
    Seq::new(posts.len(), |i: int| posts[i]@)
}

impl PostView {
    /// The post that is relayed in place of this one: the boosted post where
    /// there is one, else the post itself.
    pub open spec fn origin(self) -> PostView {
        match self.reblog {
            Some(inner) => *inner,
            None => self,
        }
    }

    /// Whether the post answers another post.
    pub open spec fn is_reply(self) -> bool {
        self.in_reply_to_id is Some
    }
}

/// The seconds that the system clock counts since the Unix epoch, or `None`
/// where the clock stands before it. Reads `SystemTime::now`; nothing is
/// promised of the reading.
#[verifier::external_body]
pub(crate) fn seconds_since_epoch() -> (elapsed: Option<u64>) {
    match std::time::SystemTime::now().duration_since(std::time::UNIX_EPOCH) {
        Ok(elapsed) => Some(elapsed.as_secs()),
        Err(_) => None,
    }
}

/// The fetch time that a clock reading stands for: the seconds read, cut
/// off at the largest number that fits, or 0 where the clock stands before
/// the epoch.
pub open spec fn reading_time(elapsed: Option<u64>) -> int {
    match elapsed {
        Some(seconds) => if seconds <= i64::MAX {
            seconds as int
        } else {
            i64::MAX as int
        },
        None => 0,
    }
}

/// The fetch time for a clock reading: the seconds read, cut off at the
/// largest number that fits, or 0 where the clock stands before the epoch.
pub fn time_of_reading(elapsed: Option<u64>) -> (time: i64)
    ensures
        time == reading_time(elapsed),
{
    match elapsed {
        Some(seconds) => if seconds <= 0x7fff_ffff_ffff_ffff {
            seconds as i64
        } else {
            i64::MAX
        },
        None => 0,
    }
}

/// The current time in seconds since the Unix epoch, for stamping a post:
/// the fetch time for what the system clock reads.
pub fn fetch_time() -> (time: i64)
    ensures
        time >= 0,
{
    time_of_reading(seconds_since_epoch())
}

fn clone_text(s: &Option<String>) -> (copy: Option<String>)
    ensures
        copy == *s,
{
    match s {
        Some(t) => Some(t.clone()),
        None => None,
    }
}

impl Clone for Post {
    fn clone(&self) -> (copy: Self)
        ensures
            copy == *self,
        decreases self,
    {
        Post {
            uri: self.uri.clone(),
            fetch_time: self.fetch_time,
            timeline_id: clone_text(&self.timeline_id),
            created_at: clone_text(&self.created_at),
            in_reply_to_id: clone_text(&self.in_reply_to_id),
            reblog: match &self.reblog {
                Some(inner) => Some(Box::new((**inner).clone())),
                None => None,
            },
        }
    }
}

impl Post {
    /// The lowercased domain of the post's address, where it has one.
    pub fn host(&self) -> (host: Option<String>)
        ensures
            opt_text(host) == uri_domain(self.uri@),
    {
        host_of(self.uri.as_str())
    }

    /// The last path segment of the post's address: the identifier that the
    /// post has on the instance that holds it.
    pub fn id(&self) -> (id: Option<String>)
        ensures
            opt_text(id) == uri_last_segment(self.uri@),
    {
        last_segment_of(self.uri.as_str())
    }

    /// The post to relay in place of this one: the boosted post where there
    /// is one, else this post.
    pub fn origin(&self) -> (origin: Self)
        ensures
            origin@ == self@.origin(),
            origin == (match self.reblog {
                Some(inner) => *inner,
                None => *self,
            }),
    {
        match &self.reblog {
            Some(inner) => (**inner).clone(),
            None => self.clone(),
        }
    }

    /// Whether the post answers another post.
    pub fn is_reply(&self) -> (reply: bool)
        ensures
            reply == self@.is_reply(),
    {
        self.in_reply_to_id.is_some()
    }
}

/// Reducing a post to its origin twice gives what reducing it once gives,
/// for every post whose boosted post does not itself boost another.
pub proof fn origin_is_idempotent(p: PostView)
    requires
        p.reblog matches Some(inner) ==> inner.reblog is None,
    ensures
        p.origin().origin() == p.origin(),
{
}

} // verus!
