use courier::activitypub::Announce;
use courier::actor::{Actor, ActorKind, RemoteActor};
use courier::post::Post;
use courier::relay::{announce, Dispatch, Job, Relay, FAN_IN_CAPACITY, INBOX_QUEUE_CAPACITY};

fn post(uri: &str) -> Post {
    Post {
        uri: uri.to_string(),
        fetch_time: 0,
        timeline_id: None,
        created_at: None,
        in_reply_to_id: None,
        reblog: None,
    }
}

fn remote(host: &str) -> RemoteActor {
    RemoteActor { id: format!("https://{host}/actor"), inbox: format!("https://{host}/inbox") }
}

fn completion() -> Actor {
    Actor { host: "relay.example".to_string(), kind: ActorKind::CompletionRelay }
}

fn trends(instance: &str) -> Actor {
    Actor { host: "relay.example".to_string(), kind: ActorKind::TrendsRelay(instance.to_string()) }
}

#[test]
fn capacities() {
    assert_eq!(INBOX_QUEUE_CAPACITY, 1024);
    assert_eq!(FAN_IN_CAPACITY, 16);
}

#[test]
fn a_completion_announce_is_marked_as_relayed() {
    let body = announce("relay.example", &completion(), "https://b.example/notes/1");
    assert_eq!(
        body,
        Announce {
            jsonld_context: "https://www.w3.org/ns/activitystreams".to_string(),
            announce_type: vec!["Announce".to_string(), "Relay".to_string()],
            actor: "https://relay.example/completion".to_string(),
            to: vec!["https://www.w3.org/ns/activitystreams#Public".to_string()],
            object: "https://b.example/notes/1".to_string(),
            id: "https://relay.example/announce/https%3A%2F%2Fb.example%2Fnotes%2F1".to_string(),
        }
    );
}

#[test]
fn a_trends_announce_is_a_plain_announce() {
    let body = announce("relay.example", &trends("m.example"), "https://m.example/notes/1");
    assert_eq!(body.announce_type, vec!["Announce".to_string()]);
    assert_eq!(body.actor, "https://relay.example/trends/m.example");
}

#[test]
fn the_announce_id_escapes_everything_but_unreserved_characters() {
    let body = announce("relay.example", &completion(), "https://b.example/a-b_c.d~e/ü?x=1&y=z w");
    assert_eq!(
        body.id,
        "https://relay.example/announce/https%3A%2F%2Fb.example%2Fa-b_c.d~e%2F%C3%BC%3Fx%3D1%26y%3Dz%20w"
    );
}

#[test]
fn a_delivery_goes_to_the_worker_of_the_inbox_host() {
    let mut relay = Relay::new("relay.example".to_string());
    let follower = remote("a.example");
    let dispatch = relay.dispatch(&completion(), &follower, &post("https://b.example/notes/1"));
    assert_eq!(
        dispatch,
        Dispatch::Deliver {
            job: Job {
                post_uri: "https://b.example/notes/1".to_string(),
                actor_id: "https://relay.example/completion".to_string(),
                body: announce("relay.example", &completion(), "https://b.example/notes/1"),
                key_id: "https://relay.example/completion#key".to_string(),
                inbox_url: "https://a.example/inbox".to_string(),
                host: "a.example".to_string(),
            },
            new_worker: true,
        }
    );
    assert!(relay.has_worker("a.example"));
    assert!(!relay.has_worker("b.example"));
}

#[test]
fn a_worker_is_started_once_for_each_host() {
    let mut relay = Relay::new("relay.example".to_string());
    let started: Vec<bool> = ["a.example", "b.example", "a.example", "b.example", "c.example"]
        .iter()
        .map(|host| match relay.dispatch(&completion(), &remote(host), &post("https://x.example/notes/1")) {
            Dispatch::Deliver { new_worker, .. } => new_worker,
            Dispatch::Skip => panic!("skipped"),
        })
        .collect();
    assert_eq!(started, vec![true, true, false, false, true]);
}

#[test]
fn a_boost_is_announced_as_the_boosted_post() {
    let mut relay = Relay::new("relay.example".to_string());
    let boost = Post {
        reblog: Some(Box::new(post("https://b.example/notes/7"))),
        ..post("https://a.example/notes/1")
    };
    match relay.dispatch(&completion(), &remote("c.example"), &boost) {
        Dispatch::Deliver { job, .. } => {
            assert_eq!(job.post_uri, "https://b.example/notes/7");
            assert_eq!(job.body.object, "https://b.example/notes/7");
        }
        Dispatch::Skip => panic!("skipped"),
    }
}

#[test]
fn a_post_is_not_relayed_back_to_its_instance() {
    let mut relay = Relay::new("relay.example".to_string());
    let follower = remote("example.org");
    let dispatch = relay.dispatch(&completion(), &follower, &post("https://example.org/notes/1"));
    assert_eq!(dispatch, Dispatch::Skip);
    assert!(!relay.has_worker("example.org"));
}

#[test]
fn the_origin_of_a_boost_decides_about_the_loop() {
    let mut relay = Relay::new("relay.example".to_string());
    let boost = Post {
        reblog: Some(Box::new(post("https://example.org/notes/7"))),
        ..post("https://a.example/notes/1")
    };
    assert_eq!(relay.dispatch(&completion(), &remote("example.org"), &boost), Dispatch::Skip);
    assert!(matches!(
        relay.dispatch(&completion(), &remote("a.example"), &boost),
        Dispatch::Deliver { .. }
    ));
}

#[test]
fn an_inbox_that_is_no_url_is_skipped() {
    let mut relay = Relay::new("relay.example".to_string());
    let follower = RemoteActor { id: "https://a.example/actor".to_string(), inbox: "inbox".to_string() };
    assert_eq!(relay.dispatch(&completion(), &follower, &post("https://b.example/notes/1")), Dispatch::Skip);
}

#[test]
fn a_post_whose_address_is_no_url_is_skipped() {
    let mut relay = Relay::new("relay.example".to_string());
    assert_eq!(relay.dispatch(&completion(), &remote("a.example"), &post("notes/1")), Dispatch::Skip);
}

#[test]
fn hosts_are_compared_as_the_parser_writes_them() {
    let mut relay = Relay::new("relay.example".to_string());
    let follower = RemoteActor {
        id: "https://example.org/actor".to_string(),
        inbox: "https://EXAMPLE.org:443/inbox".to_string(),
    };
    assert_eq!(relay.dispatch(&completion(), &follower, &post("https://example.org/notes/1")), Dispatch::Skip);
}
