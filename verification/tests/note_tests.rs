use courier::error::Error;
use courier::note::{normalize_all, to_posts, Field, Nested, Note};

fn note(id: Field, uri: Field) -> Note {
    Note {
        id,
        uri,
        created_at: Field::Absent,
        in_reply_to_id: Field::Absent,
        reblog: Nested::Absent,
        reply: Nested::Absent,
    }
}

fn text(s: &str) -> Field {
    Field::Text(s.to_string())
}

#[test]
fn a_missing_address_is_made_from_host_and_id() {
    let n = note(text("9abc"), Field::Absent).normalize("m.example").unwrap();
    assert_eq!(n.uri, text("https://m.example/notes/9abc"));
    assert_eq!(n.id, text("9abc"));
}

#[test]
fn an_address_that_is_there_stays() {
    let n = note(text("9abc"), text("https://other.example/objects/1")).normalize("m.example").unwrap();
    assert_eq!(n.uri, text("https://other.example/objects/1"));
}

#[test]
fn an_address_that_is_null_stays_null() {
    let n = note(text("9abc"), Field::Null).normalize("m.example").unwrap();
    assert_eq!(n.uri, Field::Null);
    assert_eq!(n.to_post(0), None);
}

#[test]
fn a_note_without_id_is_an_error() {
    match note(Field::Absent, Field::Absent).normalize("m.example") {
        Err(Error::Api(message)) => {
            assert_eq!(message, "Failed to parse response from m.example: missing field `id`")
        }
        other => panic!("unexpected: {:?}", other),
    }
}

#[test]
fn an_id_that_is_no_string_is_an_error() {
    for id in [Field::Null, Field::Other] {
        match note(id, text("https://m.example/notes/1")).normalize("m.example") {
            Err(Error::Api(message)) => {
                assert_eq!(message, "Failed to parse response from m.example: `id` is not string")
            }
            other => panic!("unexpected: {:?}", other),
        }
    }
}

#[test]
fn the_boosted_note_and_the_answered_note_get_addresses_too() {
    let n = Note {
        reblog: Nested::Object(Box::new(note(text("r1"), Field::Absent))),
        reply: Nested::Object(Box::new(note(text("q1"), Field::Absent))),
        ..note(text("top"), Field::Absent)
    };
    let n = n.normalize("m.example").unwrap();
    match (&n.reblog, &n.reply) {
        (Nested::Object(r), Nested::Object(p)) => {
            assert_eq!(r.uri, text("https://m.example/notes/r1"));
            assert_eq!(p.uri, text("https://m.example/notes/q1"));
        }
        other => panic!("unexpected: {:?}", other),
    }
}

#[test]
fn a_nested_note_without_id_fails_the_whole_note() {
    let n = Note {
        reply: Nested::Object(Box::new(note(Field::Absent, text("https://m.example/notes/p")))),
        ..note(text("top"), Field::Absent)
    };
    assert!(matches!(n.normalize("m.example"), Err(Error::Api(_))));
}

#[test]
fn the_error_of_the_boosted_note_comes_before_that_of_the_answered_note() {
    let n = Note {
        reblog: Nested::Object(Box::new(note(Field::Other, Field::Absent))),
        reply: Nested::Object(Box::new(note(Field::Absent, Field::Absent))),
        ..note(text("top"), Field::Absent)
    };
    match n.normalize("m.example") {
        Err(Error::Api(message)) => assert!(message.ends_with("`id` is not string")),
        other => panic!("unexpected: {:?}", other),
    }
}

#[test]
fn notes_two_levels_down_are_left_alone() {
    let deep = note(text("d"), Field::Absent);
    let middle = Note { reblog: Nested::Object(Box::new(deep.clone())), ..note(text("m"), Field::Absent) };
    let top = Note { reblog: Nested::Object(Box::new(middle)), ..note(text("t"), Field::Absent) };
    let n = top.normalize("m.example").unwrap();
    match &n.reblog {
        Nested::Object(m) => assert_eq!(m.reblog, Nested::Object(Box::new(deep))),
        other => panic!("unexpected: {:?}", other),
    }
    assert_eq!(n.to_post(0), None);
}

#[test]
fn normalize_all_stops_at_the_first_error() {
    let notes = vec![note(text("1"), Field::Absent), note(Field::Absent, Field::Absent), note(Field::Null, Field::Absent)];
    match normalize_all(&notes, "m.example") {
        Err(Error::Api(message)) => assert!(message.ends_with("missing field `id`")),
        other => panic!("unexpected: {:?}", other),
    }
}

#[test]
fn normalize_all_keeps_the_order() {
    let notes = vec![note(text("1"), Field::Absent), note(text("2"), Field::Absent)];
    let read = normalize_all(&notes, "m.example").unwrap();
    assert_eq!(read[0].uri, text("https://m.example/notes/1"));
    assert_eq!(read[1].uri, text("https://m.example/notes/2"));
}

#[test]
fn a_note_becomes_a_post() {
    let n = Note {
        id: text("7"),
        uri: text("https://a.example/notes/7"),
        created_at: text("2023-01-01T00:00:00Z"),
        in_reply_to_id: text("6"),
        reblog: Nested::Null,
        reply: Nested::Other,
    };
    let p = n.to_post(1_700_000_000).unwrap();
    assert_eq!(p.uri, "https://a.example/notes/7");
    assert_eq!(p.fetch_time, 1_700_000_000);
    assert_eq!(p.timeline_id, Some("7".to_string()));
    assert_eq!(p.created_at, Some("2023-01-01T00:00:00Z".to_string()));
    assert_eq!(p.in_reply_to_id, Some("6".to_string()));
    assert_eq!(p.reblog, None);
}

#[test]
fn absent_and_null_markers_become_none() {
    let p = note(Field::Null, text("https://a.example/notes/7")).to_post(0).unwrap();
    assert_eq!(p.timeline_id, None);
    assert_eq!(p.created_at, None);
    assert_eq!(p.in_reply_to_id, None);
}

#[test]
fn a_marker_that_is_no_string_describes_no_post() {
    let n = Note { created_at: Field::Other, ..note(text("7"), text("https://a.example/notes/7")) };
    assert_eq!(n.to_post(0), None);
    let n = Note { reblog: Nested::Other, ..note(text("7"), text("https://a.example/notes/7")) };
    assert_eq!(n.to_post(0), None);
}

#[test]
fn a_boost_becomes_a_post_with_a_boosted_post() {
    let inner = note(text("1"), text("https://b.example/notes/1"));
    let n = Note { reblog: Nested::Object(Box::new(inner)), ..note(text("7"), text("https://a.example/notes/7")) };
    let p = n.to_post(3).unwrap();
    let boosted = p.reblog.unwrap();
    assert_eq!(boosted.uri, "https://b.example/notes/1");
    assert_eq!(boosted.fetch_time, 3);
}

#[test]
fn to_posts_fails_where_one_note_fails() {
    let notes = vec![note(text("1"), text("https://a.example/notes/1")), note(text("2"), Field::Absent)];
    assert_eq!(to_posts(&notes, 0), None);
    assert_eq!(to_posts(&notes[..1].to_vec(), 0).unwrap().len(), 1);
}
