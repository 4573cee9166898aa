use courier::actor::{Actor, ActorKind, RemoteActor};
use courier::api::FediApi;
use courier::completion::{advance, Batch};
use courier::error::Error;
use courier::inbound::{decide, store_failure, Decision, Response};
use courier::post::Post;
use courier::replies::Walk;
use courier::send::{build_fetch, fetch, Envelope, Header};
use courier::timeline::{reading, Reading};
use courier::trends::{task, TrendsTask};
use courier::uri::{domain_of, UriParts};

fn post(uri: &str) -> Post {
    Post {
        uri: uri.to_string(),
        fetch_time: 0,
        timeline_id: None,
        created_at: None,
        in_reply_to_id: None,
        reblog: None,
    }
}

fn remote(host: &str) -> RemoteActor {
    RemoteActor { id: format!("https://{host}/actor"), inbox: format!("https://{host}/inbox") }
}

fn completion() -> Actor {
    Actor { host: "relay.example".to_string(), kind: ActorKind::CompletionRelay }
}

fn trends(instance: &str) -> Actor {
    Actor { host: "relay.example".to_string(), kind: ActorKind::TrendsRelay(instance.to_string()) }
}

fn header(name: &str, value: &str) -> Header {
    Header { name: name.to_string(), value: value.to_string() }
}

#[test]
fn domain_of_lowercases_the_domain() {
    let parts = Some(UriParts {
        host: Some("MiXed.Example".to_string()),
        domain: Some("MiXed.Example".to_string()),
        last_segment: None,
    });
    assert_eq!(domain_of(&parts), Some("mixed.example".to_string()));
    let address = Some(UriParts { host: Some("10.0.0.1".to_string()), domain: None, last_segment: None });
    assert_eq!(domain_of(&address), None);
    assert_eq!(domain_of(&None), None);
}

#[test]
fn a_task_needs_a_trends_relay_and_a_follower() {
    assert_eq!(
        task(&trends("m.example"), vec![remote("a.example")]),
        Some(TrendsTask {
            actor: trends("m.example"),
            instance: "m.example".to_string(),
            followers: vec![remote("a.example")],
        })
    );
    assert_eq!(task(&trends("m.example"), vec![]), None);
    assert_eq!(task(&completion(), vec![remote("a.example")]), None);
}

#[test]
fn a_reading_asks_for_roots_and_a_cursor() {
    assert_eq!(reading(&vec![]), None);
    let first = Post { timeline_id: Some("1".to_string()), ..post("https://a.example/notes/1") };
    let reply = Post {
        timeline_id: Some("2".to_string()),
        in_reply_to_id: Some("1".to_string()),
        ..post("https://a.example/notes/2")
    };
    assert_eq!(
        reading(&vec![first.clone(), reply]),
        Some(Reading { roots: vec![first.clone()], latest_id: Some("2".to_string()) })
    );
    assert_eq!(
        reading(&vec![post("https://a.example/notes/3")]),
        Some(Reading { roots: vec![post("https://a.example/notes/3")], latest_id: None })
    );
}

#[test]
fn advance_moves_to_the_greatest_sequence_number() {
    let batch = Batch {
        post: post("https://a.example/notes/r"),
        update_sequence: 4,
        new_posts: vec![
            (post("https://a.example/notes/5"), 5),
            (post("https://a.example/notes/9"), 9),
            (post("https://a.example/notes/7"), 7),
        ],
    };
    assert_eq!(advance(&batch, true), Some(9));
    assert_eq!(advance(&batch, false), None);
    let empty = Batch { post: post("https://a.example/notes/r"), update_sequence: 4, new_posts: vec![] };
    assert_eq!(advance(&empty, true), Some(4));
    let stale = Batch {
        post: post("https://a.example/notes/r"),
        update_sequence: 4,
        new_posts: vec![(post("https://a.example/notes/2"), 2)],
    };
    assert_eq!(advance(&stale, true), Some(4));
}

#[test]
fn decide_reads_the_request() {
    let follower = remote("example.org");
    match decide("relay.example", &trends("m.example"), &follower, "Follow", &None, 7) {
        Decision::Accept { inbox, key_id, action } => {
            assert_eq!(inbox, "https://example.org/inbox");
            assert_eq!(key_id, "https://relay.example/trends/m.example#key");
            assert_eq!(action.object, Some(7));
            assert_eq!(
                action.id,
                "https://relay.example/activity/accept/https%3A%2F%2Frelay.example%2Ftrends%2Fm.example/https%3A%2F%2Fexample.org%2Finbox"
            );
        }
        other => panic!("unexpected: {:?}", other),
    }
    assert_eq!(
        decide("relay.example", &completion(), &follower, "Undo", &Some("Follow".to_string()), ()),
        Decision::Unfollow {
            id: "https://example.org/actor".to_string(),
            actor: "https://relay.example/completion".to_string(),
        }
    );
    assert_eq!(
        decide("relay.example", &completion(), &follower, "Like", &None, ()),
        Decision::Refuse
    );
}

#[test]
fn a_store_failure_is_answered_with_500() {
    assert_eq!(
        store_failure(&Error::Database),
        Response { status: 500, content_type: None, body: "Database error".to_string() }
    );
}

#[test]
fn a_fetch_is_a_get_with_an_empty_body() {
    let parts = Some(UriParts {
        host: Some("a.example".to_string()),
        domain: Some("a.example".to_string()),
        last_segment: Some("actor".to_string()),
    });
    assert_eq!(
        build_fetch("https://a.example/actor", &parts, "Wed, 07 Dec 2022 17:25:25 +0000").unwrap(),
        Envelope {
            method: "GET".to_string(),
            uri: "https://a.example/actor".to_string(),
            headers: vec![
                header("host", "a.example"),
                header("content-type", "application/activity+json"),
                header("date", "Wed, 07 Dec 2022 17:25:25 GMT"),
                header("accept", "application/activity+json"),
                header("digest", "SHA-256=47DEQpj8HBSa+/TImW+5JCeuQeRkm5NMpJWZG3hSuFU="),
            ],
            body: vec![],
        }
    );
    assert!(matches!(build_fetch("actor", &None, "now"), Err(Error::InvalidUri)));
}

#[test]
fn a_signed_fetch_verifies() {
    let (private_key, public_key) =
        sigh::alg::Algorithm::generate_keys(&sigh::alg::RsaSha256).unwrap();
    let request = fetch("https://a.example/users/alice", "https://relay.example/completion#key", &private_key).unwrap();
    assert_eq!(request.method, "GET");
    assert_eq!(request.headers.len(), 6);
    assert_eq!(request.headers[5].name, "signature");
    let pem = sigh::Key::to_pem(&public_key).unwrap();
    assert!(courier::signature::verify(&request, &pem).is_ok());
    assert!(matches!(courier::signature::verify(&request, "no key"), Err(Error::Signature)));
    let mut unsigned = request;
    unsigned.headers.pop();
    assert!(matches!(courier::signature::verify(&unsigned, &pem), Err(Error::Signature)));
    assert_eq!(courier::signature::key_id(&unsigned), None);
}

#[test]
fn the_answer_member_depends_on_the_dialect() {
    let p = post("https://a.example/notes/1");
    assert_eq!(Walk::start(FediApi::Mastodon, &p).unwrap().answer_member(), Some("descendants"));
    assert_eq!(Walk::start(FediApi::Misskey, &p).unwrap().answer_member(), None);
    assert_eq!(
        FediApi::Calckey.get_descendants_of(&p).unwrap().answer_member(),
        Some("descendants")
    );
}

#[test]
fn an_answer_to_a_finished_walk_changes_nothing() {
    let p = post("https://a.example/notes/1");
    let none = courier::api::Reply { status: 200, text: String::new(), notes: Some(vec![]) };
    let walk = Walk::start(FediApi::Misskey, &p).unwrap().absorb(&none, 0).unwrap();
    assert!(walk.is_done());
    let failed = courier::api::Reply { status: 500, text: String::new(), notes: None };
    let walk = walk.absorb(&failed, 0).unwrap();
    assert!(walk.is_done());
    assert!(walk.finish().is_empty());
}
