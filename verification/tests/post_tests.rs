use courier::post::{fetch_time, time_of_reading, Post};

fn post(uri: &str) -> Post {
    Post {
        uri: uri.to_string(),
        fetch_time: 1_700_000_000,
        timeline_id: None,
        created_at: None,
        in_reply_to_id: None,
        reblog: None,
    }
}

#[test]
fn origin_of_a_plain_post_is_the_post() {
    let p = post("https://a.example/notes/1");
    assert_eq!(p.origin(), p);
}

#[test]
fn origin_of_a_boost_is_the_boosted_post() {
    let inner = Post { timeline_id: Some("7".to_string()), ..post("https://b.example/notes/7") };
    let outer = Post { reblog: Some(Box::new(inner.clone())), ..post("https://a.example/notes/1") };
    assert_eq!(outer.origin(), inner);
}

#[test]
fn origin_is_idempotent_on_a_boost() {
    let inner = post("https://b.example/notes/7");
    let outer = Post { reblog: Some(Box::new(inner)), ..post("https://a.example/notes/1") };
    assert_eq!(outer.origin().origin(), outer.origin());
}

#[test]
fn origin_goes_one_level_deep_only() {
    let innermost = post("https://c.example/notes/9");
    let inner = Post { reblog: Some(Box::new(innermost.clone())), ..post("https://b.example/notes/7") };
    let outer = Post { reblog: Some(Box::new(inner.clone())), ..post("https://a.example/notes/1") };
    assert_eq!(outer.origin(), inner);
    assert_eq!(outer.origin().origin(), innermost);
}

#[test]
fn is_reply_tells_replies_apart() {
    assert!(!post("https://a.example/notes/1").is_reply());
    let reply = Post { in_reply_to_id: Some("1".to_string()), ..post("https://a.example/notes/2") };
    assert!(reply.is_reply());
}

#[test]
fn host_is_the_lowercased_domain() {
    assert_eq!(post("https://A.Example/notes/1").host(), Some("a.example".to_string()));
}

#[test]
fn host_is_none_where_the_address_is_no_url() {
    assert_eq!(post("notes/1").host(), None);
}

#[test]
fn id_is_the_last_path_segment() {
    assert_eq!(post("https://a.example/notes/9xyz").id(), Some("9xyz".to_string()));
    assert_eq!(post("https://a.example/users/bob/statuses/42").id(), Some("42".to_string()));
}

#[test]
fn id_of_a_bare_host_is_empty() {
    assert_eq!(post("https://a.example").id(), Some(String::new()));
}

#[test]
fn id_is_none_where_the_address_has_no_path_segments() {
    assert_eq!(post("mailto:bob@a.example").id(), None);
}

#[test]
fn clone_keeps_every_field() {
    let inner = post("https://b.example/notes/7");
    let p = Post {
        timeline_id: Some("1".to_string()),
        created_at: Some("2023-01-01T00:00:00Z".to_string()),
        in_reply_to_id: Some("0".to_string()),
        reblog: Some(Box::new(inner)),
        ..post("https://a.example/notes/1")
    };
    assert_eq!(p.clone(), p);
}

#[test]
fn time_of_reading_takes_the_seconds() {
    assert_eq!(time_of_reading(Some(1_700_000_000)), 1_700_000_000);
    assert_eq!(time_of_reading(Some(0)), 0);
}

#[test]
fn time_of_reading_is_zero_before_the_epoch() {
    assert_eq!(time_of_reading(None), 0);
}

#[test]
fn fetch_time_is_after_2020() {
    assert!(fetch_time() > 1_577_836_800);
}

#[test]
fn time_of_reading_is_cut_off_at_the_largest_time() {
    assert_eq!(time_of_reading(Some(i64::MAX as u64)), i64::MAX);
    assert_eq!(time_of_reading(Some(i64::MAX as u64 + 1)), i64::MAX);
    assert_eq!(time_of_reading(Some(u64::MAX)), i64::MAX);
}
