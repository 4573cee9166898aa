use courier::actor::{Actor, ActorKind};
use courier::error::Error;
use courier::inbound::{bad_action, bad_actor, classify, Inbound, Response};
use courier::order::{sort_by_creation, written_before};
use courier::post::Post;
use courier::text::{decimal, join2, join3, str_eq};
use courier::uri::{host_of, last_segment_of, same_text};
use courier::workers::Workers;

fn dated(uri: &str, created_at: Option<&str>) -> Post {
    Post {
        uri: uri.to_string(),
        fetch_time: 0,
        timeline_id: None,
        created_at: created_at.map(String::from),
        in_reply_to_id: None,
        reblog: None,
    }
}

#[test]
fn str_eq_compares_characters() {
    assert!(str_eq("", ""));
    assert!(str_eq("héllo", "héllo"));
    assert!(!str_eq("hello", "hellO"));
    assert!(!str_eq("hello", "hell"));
    assert!(!str_eq("", "a"));
}

#[test]
fn joins_concatenate() {
    assert_eq!(join2("ab", "cd"), "abcd");
    assert_eq!(join3("a", "", "c"), "ac");
}

#[test]
fn decimal_writes_digits() {
    assert_eq!(decimal(0), "0");
    assert_eq!(decimal(7), "7");
    assert_eq!(decimal(10), "10");
    assert_eq!(decimal(404), "404");
    assert_eq!(decimal(65535), "65535");
}

#[test]
fn same_text_compares_optional_strings() {
    let a = Some("a".to_string());
    assert!(same_text(&a, &Some("a".to_string())));
    assert!(!same_text(&a, &Some("b".to_string())));
    assert!(!same_text(&a, &None));
    assert!(same_text(&None, &None));
}

#[test]
fn host_of_reads_domains_only() {
    assert_eq!(host_of("https://Sub.Example.ORG:8443/x"), Some("sub.example.org".to_string()));
    assert_eq!(host_of("https://[::1]/x"), None);
    assert_eq!(host_of("https://192.168.0.1/x"), None);
    assert_eq!(host_of("/x"), None);
}

#[test]
fn last_segment_of_reads_the_path() {
    assert_eq!(last_segment_of("https://a.example/a/b/c?q=1#f"), Some("c".to_string()));
    assert_eq!(last_segment_of("https://a.example/a/b/"), Some(String::new()));
    assert_eq!(last_segment_of("data:text/plain,x"), None);
}

#[test]
fn messages() {
    assert_eq!(Error::Digest.message(), "HTTP Digest generation error");
    assert_eq!(Error::Json.message(), "JSON encoding error");
    assert_eq!(Error::Signature.message(), "Signature error");
    assert_eq!(Error::SignatureFail.message(), "Signature verification failure");
    assert_eq!(Error::HttpReq.message(), "HTTP request error");
    assert_eq!(Error::Http.message(), "HTTP client error");
    assert_eq!(Error::Database.message(), "Database error");
    assert_eq!(Error::InvalidUri.message(), "Invalid URI");
    assert_eq!(
        Error::Response("no \"luck\"\n".to_string()).message(),
        "Error response from remote: \"no \\\"luck\\\"\\n\""
    );
    assert_eq!(Error::Api("x".to_string()).message(), "Api error: \"x\"");
}

#[test]
fn classify_reads_type_and_object_type() {
    assert_eq!(classify("Follow", &None), Inbound::Follow);
    assert_eq!(classify("Follow", &Some("Person".to_string())), Inbound::Follow);
    assert_eq!(classify("Undo", &Some("Follow".to_string())), Inbound::Undo);
    assert_eq!(classify("Undo", &Some("Announce".to_string())), Inbound::Unrecognized);
    assert_eq!(classify("Undo", &None), Inbound::Unrecognized);
    assert_eq!(classify("Announce", &Some("Follow".to_string())), Inbound::Unrecognized);
}

#[test]
fn refusals() {
    assert_eq!(
        bad_actor(&Error::SignatureFail),
        Response {
            status: 400,
            content_type: None,
            body: "Bad actor: Signature verification failure".to_string(),
        }
    );
    assert_eq!(
        bad_action("missing field `type`"),
        Response { status: 400, content_type: None, body: "Bad action: missing field `type`".to_string() }
    );
}

#[test]
fn written_before_compares_creation_times() {
    let early = dated("a", Some("2023-01-01T00:00:00Z"));
    let late = dated("b", Some("2023-01-01T00:00:01Z"));
    let undated = dated("c", None);
    assert!(written_before(&early, &late));
    assert!(!written_before(&late, &early));
    assert!(written_before(&early, &early));
    assert!(written_before(&undated, &early));
    assert!(!written_before(&early, &undated));
    assert!(written_before(&dated("d", Some("2023")), &dated("e", Some("2023-01"))));
    assert!(!written_before(&dated("e", Some("2023-01")), &dated("d", Some("2023"))));
}

#[test]
fn sort_by_creation_is_stable() {
    let posts = vec![
        dated("1", Some("c")),
        dated("2", Some("a")),
        dated("3", Some("b")),
        dated("4", Some("a")),
        dated("5", None),
        dated("6", Some("c")),
    ];
    let sorted: Vec<String> = sort_by_creation(&posts).into_iter().map(|p| p.uri).collect();
    assert_eq!(sorted, vec!["5", "2", "4", "3", "1", "6"]);
    assert!(sort_by_creation(&vec![]).is_empty());
}

#[test]
fn workers_are_counted_once() {
    let mut workers = Workers::new();
    assert!(workers.ensure("a.example"));
    assert!(workers.ensure("b.example"));
    assert!(!workers.ensure("a.example"));
    assert!(workers.contains("b.example"));
    assert!(!workers.contains("c.example"));
    assert_eq!(workers.len(), 2);
}

#[test]
fn the_actor_document() {
    let actor = Actor { host: "relay.example".to_string(), kind: ActorKind::TrendsRelay("m.example".to_string()) };
    let doc = actor.document("PEM".to_string());
    assert_eq!(doc.jsonld_context, "https://www.w3.org/ns/activitystreams");
    assert_eq!(doc.actor_type, "Service");
    assert_eq!(doc.id, "https://relay.example/trends/m.example");
    assert_eq!(doc.name, Some("Courier Six - Trends from [m.example]".to_string()));
    assert_eq!(doc.preferred_username, Some("courier-m.example".to_string()));
    assert_eq!(doc.inbox, "https://relay.example/trends/m.example");
    let icon = doc.icon.unwrap();
    assert_eq!(
        (icon.media_type.as_str(), icon.content_type.as_str(), icon.url.as_str()),
        ("Image", "image/jpeg", "https://relay.example/icon.png")
    );
    assert_eq!(doc.public_key.id, "https://relay.example/trends/m.example#key");
    assert_eq!(doc.public_key.owner, Some("https://relay.example/trends/m.example".to_string()));
    assert_eq!(doc.public_key.pem, "PEM");

    let actor = Actor { host: "relay.example".to_string(), kind: ActorKind::CompletionRelay };
    let doc = actor.document(String::new());
    assert_eq!(doc.name, Some("Courier Six - Mission Complete".to_string()));
    assert_eq!(doc.preferred_username, Some("courier-completion".to_string()));
    assert_eq!(doc.id, "https://relay.example/completion");
}

#[test]
fn the_actor_document_carries_the_key_in_pem_form() {
    let (_, public_key) = sigh::alg::Algorithm::generate_keys(&sigh::alg::RsaSha256).unwrap();
    let actor = Actor { host: "relay.example".to_string(), kind: ActorKind::CompletionRelay };
    let doc = actor.as_activitypub(&public_key).unwrap();
    assert!(doc.public_key.pem.starts_with("-----BEGIN PUBLIC KEY-----\n"));
    assert_eq!(doc, actor.document(sigh::Key::to_pem(&public_key).unwrap()));
}
