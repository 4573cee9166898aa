use courier::api::{probe_requests, ApiRequest, FediApi, JsonValue, Member, Method, Reply};
use courier::db::Database;
use courier::error::Error;
use courier::note::{Field, Nested, Note};

fn note(id: &str, created_at: &str) -> Note {
    Note {
        id: Field::Text(id.to_string()),
        uri: Field::Absent,
        created_at: Field::Text(created_at.to_string()),
        in_reply_to_id: Field::Null,
        reblog: Nested::Null,
        reply: Nested::Absent,
    }
}

fn mastodon_note(uri: &str, id: &str, created_at: &str) -> Note {
    Note { uri: Field::Text(uri.to_string()), ..note(id, created_at) }
}

fn ok(notes: Vec<Note>) -> Reply {
    Reply { status: 200, text: String::new(), notes: Some(notes) }
}

fn member(name: &str, value: JsonValue) -> Member {
    Member { name: name.to_string(), value }
}

#[test]
fn from_str_reads_the_three_names() {
    assert_eq!(FediApi::from_str("mastodon").unwrap(), FediApi::Mastodon);
    assert_eq!(FediApi::from_str("misskey").unwrap(), FediApi::Misskey);
    assert_eq!(FediApi::from_str("calckey").unwrap(), FediApi::Calckey);
}

#[test]
fn from_str_rejects_other_names() {
    match FediApi::from_str("pleroma") {
        Err(Error::Api(message)) => assert_eq!(message, "Unknown host type: pleroma"),
        other => panic!("unexpected: {:?}", other),
    }
    assert!(matches!(FediApi::from_str("Mastodon"), Err(Error::Api(_))));
    assert!(matches!(FediApi::from_str(""), Err(Error::Api(_))));
}

#[test]
fn to_str_writes_the_three_names() {
    assert_eq!(FediApi::Mastodon.to_str(), "mastodon");
    assert_eq!(FediApi::Misskey.to_str(), "misskey");
    assert_eq!(FediApi::Calckey.to_str(), "calckey");
}

#[test]
fn names_round_trip() {
    for api in [FediApi::Mastodon, FediApi::Misskey, FediApi::Calckey] {
        assert_eq!(FediApi::from_str(&api.to_str()).unwrap(), api);
    }
}

#[test]
fn determine_follows_the_probe_table() {
    assert_eq!(FediApi::determine("a.example", Some(200), Some(200)).unwrap(), FediApi::Calckey);
    assert_eq!(FediApi::determine("a.example", Some(200), Some(404)).unwrap(), FediApi::Mastodon);
    assert_eq!(FediApi::determine("a.example", Some(404), Some(200)).unwrap(), FediApi::Misskey);
    match FediApi::determine("a.example", Some(404), Some(500)) {
        Err(Error::Api(message)) => {
            assert_eq!(message, "Failed to determine api variant of a.example")
        }
        other => panic!("unexpected: {:?}", other),
    }
}

#[test]
fn a_probe_that_fails_on_the_way_counts_as_not_ok() {
    assert_eq!(FediApi::determine("a.example", Some(200), None).unwrap(), FediApi::Mastodon);
    assert_eq!(FediApi::determine("a.example", None, Some(200)).unwrap(), FediApi::Misskey);
    assert!(FediApi::determine("a.example", None, None).is_err());
    assert!(FediApi::determine("a.example", None, Some(404)).is_err());
}

#[test]
fn determine_takes_only_200_for_success() {
    assert!(FediApi::determine("a.example", Some(204), Some(201)).is_err());
    assert_eq!(FediApi::determine("a.example", Some(204), Some(200)).unwrap(), FediApi::Misskey);
}

#[test]
fn probe_requests_ask_both_endpoints() {
    let (mastodon, misskey) = probe_requests("a.example");
    assert_eq!(
        mastodon,
        ApiRequest {
            method: Method::Get,
            url: "https://a.example/api/v1/instance".to_string(),
            body: vec![],
        }
    );
    assert_eq!(
        misskey,
        ApiRequest {
            method: Method::Post,
            url: "https://a.example/api/meta".to_string(),
            body: vec![member("detail", JsonValue::Bool(false))],
        }
    );
}

#[test]
fn trending_request_by_dialect() {
    for api in [FediApi::Mastodon, FediApi::Calckey] {
        assert_eq!(
            api.trending_request("a.example"),
            ApiRequest {
                method: Method::Get,
                url: "https://a.example/api/v1/trends/statuses?limit=10".to_string(),
                body: vec![],
            }
        );
    }
    assert_eq!(
        FediApi::Misskey.trending_request("m.example"),
        ApiRequest {
            method: Method::Post,
            url: "https://m.example/api/notes/featured".to_string(),
            body: vec![member("limit", JsonValue::Number(10))],
        }
    );
}

#[test]
fn timeline_request_by_dialect_without_cursor() {
    assert_eq!(
        FediApi::Mastodon.timeline_request("a.example", &None),
        ApiRequest {
            method: Method::Get,
            url: "https://a.example/api/v1/timelines/public?limit=40".to_string(),
            body: vec![],
        }
    );
    assert_eq!(
        FediApi::Misskey.timeline_request("m.example", &None),
        ApiRequest {
            method: Method::Post,
            url: "https://m.example/api/notes/global-timeline".to_string(),
            body: vec![member("limit", JsonValue::Number(100))],
        }
    );
}

#[test]
fn timeline_request_by_dialect_with_cursor() {
    let since = Some("109".to_string());
    assert_eq!(
        FediApi::Mastodon.timeline_request("a.example", &since).url,
        "https://a.example/api/v1/timelines/public?limit=40&since_id=109"
    );
    assert_eq!(
        FediApi::Calckey.timeline_request("a.example", &since).url,
        "https://a.example/api/v1/timelines/public?limit=40&since_id=109"
    );
    assert_eq!(
        FediApi::Misskey.timeline_request("m.example", &since).body,
        vec![
            member("limit", JsonValue::Number(100)),
            member("sinceId", JsonValue::Text("109".to_string())),
        ]
    );
}

#[test]
fn trending_posts_are_reduced_to_their_origin() {
    let boosted = mastodon_note("https://b.example/notes/7", "7", "2023-01-01T00:00:00Z");
    let boost = Note {
        reblog: Nested::Object(Box::new(boosted)),
        ..mastodon_note("https://a.example/notes/1", "1", "2023-01-02T00:00:00Z")
    };
    let plain = mastodon_note("https://a.example/notes/2", "2", "2023-01-03T00:00:00Z");
    let posts =
        FediApi::Mastodon.get_trending_posts("a.example", &ok(vec![boost, plain]), 5).unwrap();
    assert_eq!(posts.len(), 2);
    assert_eq!(posts[0].uri, "https://b.example/notes/7");
    assert_eq!(posts[0].timeline_id, Some("7".to_string()));
    assert_eq!(posts[0].fetch_time, 5);
    assert_eq!(posts[1].uri, "https://a.example/notes/2");
}

#[test]
fn misskey_notes_get_an_address() {
    let posts =
        FediApi::Misskey.get_trending_posts("m.example", &ok(vec![note("9abc", "t")]), 0).unwrap();
    assert_eq!(posts[0].uri, "https://m.example/notes/9abc");
    assert_eq!(posts[0].timeline_id, Some("9abc".to_string()));
}

#[test]
fn mastodon_notes_without_an_address_are_refused() {
    let reply = ok(vec![note("1", "t")]);
    assert!(matches!(
        FediApi::Mastodon.get_trending_posts("a.example", &reply, 0),
        Err(Error::Http)
    ));
}

#[test]
fn an_answer_that_is_no_list_is_refused() {
    let reply = Reply { status: 200, text: "<html>".to_string(), notes: None };
    for api in [FediApi::Mastodon, FediApi::Misskey] {
        assert!(matches!(api.get_trending_posts("a.example", &reply, 0), Err(Error::Http)));
    }
}

#[test]
fn a_failed_status_is_reported_with_the_body() {
    let reply = Reply { status: 503, text: "try later".to_string(), notes: Some(vec![]) };
    match FediApi::Mastodon.get_trending_posts("a.example", &reply, 0) {
        Err(Error::Api(message)) => assert_eq!(
            message,
            "Failed to get trending posts of a.example: status: 503, response: try later"
        ),
        other => panic!("unexpected: {:?}", other),
    }
    match FediApi::Misskey.get_global_timeline("m.example", &reply, 0) {
        Err(Error::Api(message)) => assert_eq!(
            message,
            "Failed to get global timeline of m.example: status: 503, response: try later"
        ),
        other => panic!("unexpected: {:?}", other),
    }
}

#[test]
fn the_timeline_comes_back_oldest_first() {
    let reply = ok(vec![
        mastodon_note("https://a.example/notes/3", "3", "2023-03-01T00:00:00Z"),
        mastodon_note("https://a.example/notes/1", "1", "2023-01-01T00:00:00Z"),
        mastodon_note("https://a.example/notes/2", "2", "2023-02-01T00:00:00Z"),
    ]);
    let posts = FediApi::Mastodon.get_global_timeline("a.example", &reply, 0).unwrap();
    let ids: Vec<_> = posts.iter().map(|p| p.timeline_id.clone().unwrap()).collect();
    assert_eq!(ids, vec!["1", "2", "3"]);
}

#[test]
fn posts_of_the_same_time_keep_their_order() {
    let reply = ok(vec![
        mastodon_note("https://a.example/notes/b", "b", "2023-01-01T00:00:00Z"),
        mastodon_note("https://a.example/notes/c", "c", "2022-01-01T00:00:00Z"),
        mastodon_note("https://a.example/notes/a", "a", "2023-01-01T00:00:00Z"),
    ]);
    let posts = FediApi::Mastodon.get_global_timeline("a.example", &reply, 0).unwrap();
    let ids: Vec<_> = posts.iter().map(|p| p.timeline_id.clone().unwrap()).collect();
    assert_eq!(ids, vec!["c", "b", "a"]);
}

#[test]
fn the_timeline_is_not_reduced_to_origins() {
    let boosted = mastodon_note("https://b.example/notes/7", "7", "2023-01-01T00:00:00Z");
    let boost = Note {
        reblog: Nested::Object(Box::new(boosted)),
        ..mastodon_note("https://a.example/notes/1", "1", "2023-01-02T00:00:00Z")
    };
    let posts = FediApi::Mastodon.get_global_timeline("a.example", &ok(vec![boost]), 0).unwrap();
    assert_eq!(posts[0].uri, "https://a.example/notes/1");
    assert!(posts[0].reblog.is_some());
}

#[test]
fn an_undated_post_among_several_is_an_error() {
    let undated = Note { created_at: Field::Absent, ..mastodon_note("https://a.example/notes/2", "2", "") };
    let reply = ok(vec![mastodon_note("https://a.example/notes/1", "1", "2023"), undated]);
    match FediApi::Mastodon.get_global_timeline("a.example", &reply, 0) {
        Err(Error::Api(message)) => assert_eq!(
            message,
            "Failed to get global timeline of a.example: post without creation time"
        ),
        other => panic!("unexpected: {:?}", other),
    }
}

#[test]
fn a_single_undated_post_is_a_timeline() {
    let undated = Note { created_at: Field::Absent, ..mastodon_note("https://a.example/notes/2", "2", "") };
    let posts = FediApi::Mastodon.get_global_timeline("a.example", &ok(vec![undated]), 0).unwrap();
    assert_eq!(posts.len(), 1);
}

#[test]
fn an_empty_timeline_is_fine() {
    let posts = FediApi::Misskey.get_global_timeline("m.example", &ok(vec![]), 0).unwrap();
    assert!(posts.is_empty());
}

#[test]
fn first_contact_probes_and_records() {
    let mut db = Database::new();
    assert_eq!(FediApi::from_host("a.example", &db).unwrap(), None);
    assert_eq!(FediApi::record("a.example", &mut db, Some(200), Some(404)).unwrap(), FediApi::Mastodon);
    assert_eq!(db.get_instance_type("a.example").unwrap(), "mastodon");
    assert_eq!(FediApi::from_host("a.example", &db).unwrap(), Some(FediApi::Mastodon));
}

#[test]
fn a_later_probe_does_not_rewrite_the_dialect() {
    let mut db = Database::new();
    FediApi::record("a.example", &mut db, Some(200), Some(404)).unwrap();
    assert_eq!(FediApi::record("a.example", &mut db, Some(404), Some(200)).unwrap(), FediApi::Misskey);
    assert_eq!(db.get_instance_type("a.example").unwrap(), "mastodon");
    assert_eq!(FediApi::from_host("a.example", &db).unwrap(), Some(FediApi::Mastodon));
}

#[test]
fn a_failed_probe_records_nothing() {
    let mut db = Database::new();
    assert!(FediApi::record("a.example", &mut db, Some(404), Some(404)).is_err());
    assert!(matches!(db.get_instance_type("a.example"), Err(Error::Database)));
    assert_eq!(FediApi::from_host("a.example", &db).unwrap(), None);
}

#[test]
fn an_unknown_recorded_name_is_an_error() {
    let mut db = Database::new();
    db.add_instance("a.example", "pleroma").unwrap();
    match FediApi::from_host("a.example", &db) {
        Err(Error::Api(message)) => assert_eq!(message, "Unknown host type: pleroma"),
        other => panic!("unexpected: {:?}", other),
    }
}

#[test]
fn resolve_reads_what_is_recorded() {
    assert_eq!(FediApi::resolve(None).unwrap(), None);
    assert_eq!(FediApi::resolve(Some("misskey")).unwrap(), Some(FediApi::Misskey));
    assert!(matches!(FediApi::resolve(Some("other")), Err(Error::Api(_))));
}

#[test]
fn a_misskey_note_that_describes_no_post_is_a_json_error() {
    let odd = Note { uri: Field::Null, ..note("9abc", "t") };
    assert!(matches!(
        FediApi::Misskey.get_trending_posts("m.example", &ok(vec![odd]), 0),
        Err(Error::Json)
    ));
    let odd = Note { created_at: Field::Other, ..note("9abc", "t") };
    assert!(matches!(
        FediApi::Misskey.get_global_timeline("m.example", &ok(vec![odd]), 0),
        Err(Error::Json)
    ));
}

#[test]
fn an_instance_of_both_dialects_is_read_in_the_mastodon_style() {
    let without_address = ok(vec![note("1", "t")]);
    assert!(matches!(
        FediApi::Calckey.get_trending_posts("a.example", &without_address, 0),
        Err(Error::Http)
    ));
    let reply = ok(vec![mastodon_note("https://a.example/notes/1", "1", "2023")]);
    let posts = FediApi::Calckey.get_global_timeline("a.example", &reply, 0).unwrap();
    assert_eq!(posts[0].uri, "https://a.example/notes/1");
}
