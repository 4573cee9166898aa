//! A post as an instance hands it over, before the relay has made sense of
//! it: which members the object has, and what they hold.
use vstd::prelude::*;
use crate::error::{Error, ErrorView};
use crate::post::{Post, PostView, post_views};
use crate::text::join3;

verus! {

/// What an object holds under the name of a text member.
#[derive(Debug, PartialEq, Eq)]
pub enum Field {
    /// The object has no such member.
    Absent,
    /// The member is `null`.
    Null,
    /// The member is a string.
    Text(String),
    /// The member is something else.
    Other,
}

/// The mathematical value of a [`Field`].
pub enum FieldView {
    Absent,
    Null,
    Text(Seq<char>),
    Other,
}

impl View for Field {
    type V = FieldView;

    open spec fn view(&self) -> FieldView {
        match self {
            Field::Absent => FieldView::Absent,
            Field::Null => FieldView::Null,
            Field::Text(t) => FieldView::Text(t@),
            Field::Other => FieldView::Other,
        }
    }
}

/// What an object holds under the name of a member that is a post.
#[derive(Debug, PartialEq, Eq)]
pub enum Nested {
    /// The object has no such member.
    Absent,
    /// The member is `null`.
    Null,
    /// The member is an object.
    Object(Box<Note>),
    /// The member is something else.
    Other,
}

/// A post as an instance hands it over.
#[derive(Debug, PartialEq, Eq)]
pub struct Note {
    /// The member `id`.
    pub id: Field,
    /// The member `uri`.
    pub uri: Field,
    /// The member `created_at` or `createdAt`.
    pub created_at: Field,
    /// The member `in_reply_to_id` or `replyId`.
    pub in_reply_to_id: Field,
    /// The member `reblog` or `renote`.
    pub reblog: Nested,
    /// The member `reply`.
    pub reply: Nested,
}

/// The mathematical value of a [`Nested`].
pub enum NestedView {
    Absent,
    Null,
    Object(Box<NoteView>),
    Other,
}

/// The mathematical value of a [`Note`].
pub struct NoteView {
    pub id: FieldView,
    pub uri: FieldView,
    pub created_at: FieldView,
    pub in_reply_to_id: FieldView,
    pub reblog: NestedView,
    pub reply: NestedView,
}

/// The value of a nested member.
pub open spec fn nested_view(n: Nested) -> NestedView
    decreases n,
{
    match n {
        Nested::Absent => NestedView::Absent,
        Nested::Null => NestedView::Null,
        Nested::Object(inner) => NestedView::Object(Box::new(note_view(*inner))),
        Nested::Other => NestedView::Other,
    }
}

/// The value of a note, nested notes included.
pub open spec fn note_view(n: Note) -> NoteView
    decreases n,
{
    NoteView {
        id: n.id@,
        uri: n.uri@,
        created_at: n.created_at@,
        in_reply_to_id: n.in_reply_to_id@,
        reblog: nested_view(n.reblog),
        reply: nested_view(n.reply),
    }
}

impl View for Nested {
    type V = NestedView;

    open spec fn view(&self) -> NestedView {
        nested_view(*self)
    }
}

impl View for Note {
    type V = NoteView;

    open spec fn view(&self) -> NoteView {
        note_view(*self)
    }
}

/// The values of a list of notes.
pub open spec fn note_views(notes: Seq<Note>) -> Seq<NoteView> {
    Seq::new(notes.len(), |i: int| notes[i]@)
}

/// What an optional text member gives: nothing where it is absent or
/// `null`, its text where it is a string, and no value at all where it is
/// something else.
pub open spec fn optional_text(f: FieldView) -> Option<Option<Seq<char>>> {
    match f {
        FieldView::Absent => Some(None),
        FieldView::Null => Some(None),
        FieldView::Text(t) => Some(Some(t)),
        FieldView::Other => None,
    }
}

/// The post that a note describes, stamped with `fetch_time`. A note
/// describes a post where its address is a string, each of its markers is a
/// string, `null` or absent, and the note that it boosts, where it holds
/// one, describes a post too.
pub open spec fn post_of(n: NoteView, fetch_time: int) -> Option<PostView>
    decreases n,
{
    match (
        n.uri,
        optional_text(n.id),
        optional_text(n.created_at),
        optional_text(n.in_reply_to_id),
    ) {
        (FieldView::Text(uri), Some(timeline_id), Some(created_at), Some(in_reply_to_id)) => {
            match n.reblog {
                NestedView::Absent | NestedView::Null => Some(
                    PostView {
                        uri: uri,
                        fetch_time: fetch_time,
                        timeline_id: timeline_id,
                        created_at: created_at,
                        in_reply_to_id: in_reply_to_id,
                        reblog: None,
                    },
                ),
                NestedView::Object(inner) => match post_of(*inner, fetch_time) {
                    Some(boosted) => Some(
                        PostView {
                            uri: uri,
                            fetch_time: fetch_time,
                            timeline_id: timeline_id,
                            created_at: created_at,
                            in_reply_to_id: in_reply_to_id,
                            reblog: Some(Box::new(boosted)),
                        },
                    ),
                    None => None,
                },
                NestedView::Other => None,
            }
        },
        _ => None,
    }
}

/// The posts that a list of notes describes, or nothing where one of them
/// describes none.
pub open spec fn posts_of(notes: Seq<NoteView>, fetch_time: int) -> Option<Seq<PostView>>
    decreases notes.len(),
{
    if notes.len() == 0 {
        Some(Seq::empty())
    } else {
        match (posts_of(notes.drop_last(), fetch_time), post_of(notes.last(), fetch_time)) {
            (Some(posts), Some(post)) => Some(posts.push(post)),
            _ => None,
        }
    }
}

/// The address that a note of `host` with the identifier `id` gets where
/// the instance did not send one.
pub open spec fn note_uri(host: Seq<char>, id: Seq<char>) -> Seq<char> {
    "https://"@ + host + "/notes/"@ + id
}

/// The error for a note of `host` that has no `id`.
pub open spec fn missing_id(host: Seq<char>) -> ErrorView {
    ErrorView::Api("Failed to parse response from "@ + host + ": missing field `id`"@)
}

/// The error for a note of `host` whose `id` is no string.
pub open spec fn id_not_text(host: Seq<char>) -> ErrorView {
    ErrorView::Api("Failed to parse response from "@ + host + ": `id` is not string"@)
}

/// The note with an address: where it has none, one is made from `host` and
/// the note's `id`. A note without an `id`, or with one that is no string,
/// is an error.
pub open spec fn with_uri(host: Seq<char>, n: NoteView) -> Result<NoteView, ErrorView> {
    match n.id {
        FieldView::Absent => Err(missing_id(host)),
        FieldView::Text(id) => Ok(
            NoteView {
                uri: if n.uri is Absent {
                    FieldView::Text(note_uri(host, id))
                } else {
                    n.uri
                },
                ..n
            },
        ),
        _ => Err(id_not_text(host)),
    }
}

/// The nested member with an address, where it is an object.
pub open spec fn nested_with_uri(host: Seq<char>, n: NestedView) -> Result<NestedView, ErrorView> {
    match n {
        NestedView::Object(inner) => match with_uri(host, *inner) {
            Ok(done) => Ok(NestedView::Object(Box::new(done))),
            Err(e) => Err(e),
        },
        other => Ok(other),
    }
}

/// The note as the relay reads it: the note itself, the note that it
/// boosts and the note that it answers each have an address. The first that
/// cannot be given one is the error.
pub open spec fn normalized(host: Seq<char>, n: NoteView) -> Result<NoteView, ErrorView> {
    match with_uri(host, n) {
        Err(e) => Err(e),
        Ok(top) => match nested_with_uri(host, top.reblog) {
            Err(e) => Err(e),
            Ok(reblog) => match nested_with_uri(host, top.reply) {
                Err(e) => Err(e),
                Ok(reply) => Ok(NoteView { reblog: reblog, reply: reply, ..top }),
            },
        },
    }
}

/// Each note of a list as the relay reads it; the first note that cannot be
/// read is the error.
pub open spec fn all_normalized(host: Seq<char>, notes: Seq<NoteView>) -> Result<
    Seq<NoteView>,
    ErrorView,
>
    decreases notes.len(),
{
    if notes.len() == 0 {
        Ok(Seq::empty())
    } else {
        match all_normalized(host, notes.drop_last()) {
            Err(e) => Err(e),
            Ok(done) => match normalized(host, notes.last()) {
                Err(e) => Err(e),
                Ok(n) => Ok(done.push(n)),
            },
        }
    }
}

fn optional(f: &Field) -> (value: Option<Option<String>>)
    ensures
        match value {
            Some(Some(t)) => optional_text(f@) == Some(Some(t@)),
            Some(None) => optional_text(f@) == Some(None::<Seq<char>>),
            None => optional_text(f@) is None,
        },
{
    match f {
        Field::Absent => Some(None),
        Field::Null => Some(None),
        Field::Text(t) => Some(Some(t.clone())),
        Field::Other => None,
    }
}

impl Field {
    fn clone_field(&self) -> (copy: Field)
        ensures
            copy == *self,
    {
        match self {
            Field::Absent => Field::Absent,
            Field::Null => Field::Null,
            Field::Text(t) => Field::Text(t.clone()),
            Field::Other => Field::Other,
        }
    }
}

impl Clone for Field {
    fn clone(&self) -> (copy: Self)
        ensures
            copy == *self,
    {
        self.clone_field()
    }
}

impl Clone for Nested {
    fn clone(&self) -> (copy: Self)
        ensures
            copy == *self,
        decreases self,
    {
        match self {
            Nested::Absent => Nested::Absent,
            Nested::Null => Nested::Null,
            Nested::Object(inner) => Nested::Object(Box::new((**inner).clone())),
            Nested::Other => Nested::Other,
        }
    }
}

impl Clone for Note {
    fn clone(&self) -> (copy: Self)
        ensures
            copy == *self,
        decreases self,
    {
        Note {
            id: self.id.clone_field(),
            uri: self.uri.clone_field(),
            created_at: self.created_at.clone_field(),
            in_reply_to_id: self.in_reply_to_id.clone_field(),
            reblog: self.reblog.clone(),
            reply: self.reply.clone(),
        }
    }
}

impl Note {
    /// The post that the note describes, stamped with `fetch_time`, or
    /// nothing where it describes none.
    pub fn to_post(&self, fetch_time: i64) -> (post: Option<Post>)
        ensures
            match post {
                Some(p) => post_of(self@, fetch_time as int) == Some(p@),
                None => post_of(self@, fetch_time as int) is None,
            },
        decreases self,
    {
        let uri = match &self.uri {
            Field::Text(uri) => uri.clone(),
            _ => return None,
        };
        let timeline_id = match optional(&self.id) {
            Some(v) => v,
            None => return None,
        };
        let created_at = match optional(&self.created_at) {
            Some(v) => v,
            None => return None,
        };
        let in_reply_to_id = match optional(&self.in_reply_to_id) {
            Some(v) => v,
            None => return None,
        };
        let reblog = match &self.reblog {
            Nested::Absent => None,
            Nested::Null => None,
            Nested::Object(inner) => match inner.to_post(fetch_time) {
                Some(boosted) => Some(Box::new(boosted)),
                None => return None,
            },
            Nested::Other => return None,
        };
        Some(Post { uri, fetch_time, timeline_id, created_at, in_reply_to_id, reblog })
    }

    /// The note with an address: where it has none, one is made from `host`
    /// and the note's `id`.
    pub fn supplement_uri(&self, host: &str) -> (done: Result<Note, Error>)
        ensures
            match done {
                Ok(n) => with_uri(host@, self@) == Ok::<NoteView, ErrorView>(n@),
                Err(e) => with_uri(host@, self@) == Err::<NoteView, ErrorView>(e@),
            },
    {
        let uri = match &self.id {
            Field::Absent => {
                return Err(
                    Error::Api(
                        join3("Failed to parse response from ", host, ": missing field `id`"),
                    ),
                );
            },
            Field::Text(id) => match &self.uri {
                Field::Absent => {
                    let mut uri = join3("https://", host, "/notes/");
                    uri.append(id.as_str());
                    Field::Text(uri)
                },
                other => other.clone_field(),
            },
            _ => {
                return Err(
                    Error::Api(join3("Failed to parse response from ", host, ": `id` is not string")),
                );
            },
        };
        Ok(
            Note {
                id: self.id.clone_field(),
                uri,
                created_at: self.created_at.clone_field(),
                in_reply_to_id: self.in_reply_to_id.clone_field(),
                reblog: self.reblog.clone(),
                reply: self.reply.clone(),
            },
        )
    }

    /// The note as the relay reads it: the note itself, the note that it
    /// boosts and the note that it answers each get an address where they
    /// have none.
    pub fn normalize(&self, host: &str) -> (done: Result<Note, Error>)
        ensures
            match done {
                Ok(n) => normalized(host@, self@) == Ok::<NoteView, ErrorView>(n@),
                Err(e) => normalized(host@, self@) == Err::<NoteView, ErrorView>(e@),
            },
    {
        let top = match self.supplement_uri(host) {
            Ok(n) => n,
            Err(e) => return Err(e),
        };
        let reblog = match supplement_nested(&top.reblog, host) {
            Ok(n) => n,
            Err(e) => return Err(e),
        };
        let reply = match supplement_nested(&top.reply, host) {
            Ok(n) => n,
            Err(e) => return Err(e),
        };
        Ok(
            Note {
                id: top.id,
                uri: top.uri,
                created_at: top.created_at,
                in_reply_to_id: top.in_reply_to_id,
                reblog,
                reply,
            },
        )
    }
}

fn supplement_nested(nested: &Nested, host: &str) -> (done: Result<Nested, Error>)
    ensures
        match done {
            Ok(n) => nested_with_uri(host@, nested@) == Ok::<NestedView, ErrorView>(n@),
            Err(e) => nested_with_uri(host@, nested@) == Err::<NestedView, ErrorView>(e@),
        },
{
    match nested {
        Nested::Object(inner) => match inner.supplement_uri(host) {
            Ok(done) => Ok(Nested::Object(Box::new(done))),
            Err(e) => Err(e),
        },
        Nested::Absent => Ok(Nested::Absent),
        Nested::Null => Ok(Nested::Null),
        Nested::Other => Ok(Nested::Other),
    }
}

/// Each note of `notes` as the relay reads it; the first note that cannot
/// be read is the error.
pub fn normalize_all(notes: &Vec<Note>, host: &str) -> (done: Result<Vec<Note>, Error>)
    ensures
        match done {
            Ok(list) => all_normalized(host@, note_views(notes@)) == Ok::<
                Seq<NoteView>,
                ErrorView,
            >(note_views(list@)),
            Err(e) => all_normalized(host@, note_views(notes@)) == Err::<Seq<NoteView>, ErrorView>(
                e@,
            ),
        },
{
    let ghost all = note_views(notes@);
    let mut done: Vec<Note> = Vec::new();
    let mut i: usize = 0;
    assert(note_views(done@) =~= Seq::empty());
    while i < notes.len()
        invariant
            i <= notes.len(),
            all == note_views(notes@),
            all_normalized(host@, all.take(i as int)) == Ok::<Seq<NoteView>, ErrorView>(
                note_views(done@),
            ),
        decreases notes.len() - i,
    {
        proof {
            assert(all.take(i + 1).drop_last() =~= all.take(i as int));
        }
        let ghost before = done@;
        match notes[i].normalize(host) {
            Ok(read) => {
                done.push(read);
                assert(note_views(done@) =~= note_views(before).push(read@));
            },
            Err(e) => {
                proof {
                    lemma_error_stays(host@, all, i + 1);
                }
                return Err(e);
            },
        }
        i += 1;
    }
    assert(all.take(i as int) =~= all);
    Ok(done)
}

proof fn lemma_error_stays(host: Seq<char>, notes: Seq<NoteView>, k: int)
    requires
        0 <= k <= notes.len(),
        all_normalized(host, notes.take(k)) is Err,
    ensures
        all_normalized(host, notes) == all_normalized(host, notes.take(k)),
    decreases notes.len() - k,
{
    if k < notes.len() {
        assert(notes.take(k + 1).drop_last() =~= notes.take(k));
        lemma_error_stays(host, notes, k + 1);
    } else {
        assert(notes.take(k) =~= notes);
    }
}

/// The posts that `notes` describe, each stamped with `fetch_time`, or
/// nothing where one of them describes none.
pub fn to_posts(notes: &Vec<Note>, fetch_time: i64) -> (posts: Option<Vec<Post>>)
    ensures
        match posts {
            Some(list) => posts_of(note_views(notes@), fetch_time as int) == Some(
                post_views(list@),
            ),
            None => posts_of(note_views(notes@), fetch_time as int) is None,
        },
{
    let ghost all = note_views(notes@);
    let mut posts: Vec<Post> = Vec::new();
    let mut i: usize = 0;
    while i < notes.len()
        invariant
            i <= notes.len(),
            all == note_views(notes@),
            posts_of(all.take(i as int), fetch_time as int) == Some(post_views(posts@)),
        decreases notes.len() - i,
    {
        proof {
            assert(all.take(i + 1).drop_last() =~= all.take(i as int));
        }
        match notes[i].to_post(fetch_time) {
            Some(post) => {
                posts.push(post);
            },
            None => {
                proof {
                    lemma_failure_stays(all, fetch_time as int, i + 1);
                }
                return None;
            },
        }
        i += 1;
    }
    assert(all.take(i as int) =~= all);
    Some(posts)
}

proof fn lemma_failure_stays(notes: Seq<NoteView>, fetch_time: int, k: int)
    requires
        0 <= k <= notes.len(),
        posts_of(notes.take(k), fetch_time) is None,
    ensures
        posts_of(notes, fetch_time) is None,
    decreases notes.len() - k,
{
    if k < notes.len() {
        assert(notes.take(k + 1).drop_last() =~= notes.take(k));
        lemma_failure_stays(notes, fetch_time, k + 1);
    } else {
        assert(notes.take(k) =~= notes);
    }
}

} // verus!
