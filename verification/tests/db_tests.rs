use courier::actor::{Actor, ActorKind, RemoteActor};
use courier::db::Database;
use courier::error::Error;
use courier::post::Post;

fn post(uri: &str) -> Post {
    Post {
        uri: uri.to_string(),
        fetch_time: 1_700_000_000,
        timeline_id: None,
        created_at: None,
        in_reply_to_id: None,
        reblog: None,
    }
}

fn remote(host: &str) -> RemoteActor {
    RemoteActor { id: format!("https://{host}/actor"), inbox: format!("https://{host}/inbox") }
}

fn completion() -> Actor {
    Actor { host: "relay.example".to_string(), kind: ActorKind::CompletionRelay }
}

fn trends(instance: &str) -> Actor {
    Actor { host: "relay.example".to_string(), kind: ActorKind::TrendsRelay(instance.to_string()) }
}

fn follow(db: &mut Database, remote: &RemoteActor, actor: &Actor) {
    db.add_follow(&remote.id, &remote.inbox, &actor.uri()).unwrap();
}

fn uris(posts: &[(Post, i64)]) -> Vec<(String, i64)> {
    posts.iter().map(|(p, s)| (p.uri.clone(), *s)).collect()
}

#[test]
fn an_empty_store_knows_nothing() {
    let db = Database::new();
    assert!(matches!(db.get_instance_type("a.example"), Err(Error::Database)));
    assert!(db.get_all_actors().unwrap().is_empty());
    assert!(db.get_all_posts().unwrap().is_empty());
    assert!(db.get_following_remote_actors(&completion()).unwrap().is_empty());
    assert_eq!(db.get_latest_id_of(&remote("a.example")), None);
}

#[test]
fn the_first_dialect_recorded_for_a_host_stays() {
    let mut db = Database::new();
    db.add_instance("a.example", "mastodon").unwrap();
    db.add_instance("a.example", "misskey").unwrap();
    db.add_instance("b.example", "calckey").unwrap();
    assert_eq!(db.get_instance_type("a.example").unwrap(), "mastodon");
    assert_eq!(db.get_instance_type("b.example").unwrap(), "calckey");
}

#[test]
fn a_follow_is_listed_once() {
    let mut db = Database::new();
    let alice = remote("a.example");
    follow(&mut db, &alice, &completion());
    follow(&mut db, &alice, &completion());
    assert_eq!(db.get_following_remote_actors(&completion()).unwrap(), vec![alice]);
    assert_eq!(db.get_all_actors().unwrap(), vec![completion()]);
}

#[test]
fn the_most_recent_inbox_wins() {
    let mut db = Database::new();
    let alice = remote("a.example");
    follow(&mut db, &alice, &completion());
    db.add_follow(&alice.id, "https://a.example/shared-inbox", &trends("m.example").uri()).unwrap();
    let moved = RemoteActor { id: alice.id.clone(), inbox: "https://a.example/shared-inbox".to_string() };
    assert_eq!(db.get_following_remote_actors(&completion()).unwrap(), vec![moved.clone()]);
    assert_eq!(db.get_following_remote_actors(&trends("m.example")).unwrap(), vec![moved]);
}

#[test]
fn followers_are_listed_by_actor() {
    let mut db = Database::new();
    let (alice, bob) = (remote("a.example"), remote("b.example"));
    follow(&mut db, &alice, &completion());
    follow(&mut db, &bob, &trends("m.example"));
    follow(&mut db, &alice, &trends("m.example"));
    assert_eq!(db.get_following_remote_actors(&completion()).unwrap(), vec![alice.clone()]);
    assert_eq!(db.get_following_remote_actors(&trends("m.example")).unwrap(), vec![alice, bob]);
    assert!(db.get_following_remote_actors(&trends("other.example")).unwrap().is_empty());
}

#[test]
fn actors_are_listed_once_in_the_order_of_first_follow() {
    let mut db = Database::new();
    follow(&mut db, &remote("a.example"), &trends("m.example"));
    follow(&mut db, &remote("b.example"), &completion());
    follow(&mut db, &remote("c.example"), &trends("m.example"));
    assert_eq!(db.get_all_actors().unwrap(), vec![trends("m.example"), completion()]);
    assert_eq!(
        db.get_actor_uris(),
        vec!["https://relay.example/trends/m.example", "https://relay.example/completion"]
    );
}

#[test]
fn an_address_that_names_no_actor_fails_the_listing() {
    let mut db = Database::new();
    follow(&mut db, &remote("a.example"), &completion());
    db.add_follow("https://b.example/actor", "https://b.example/inbox", "no address").unwrap();
    assert!(matches!(db.get_all_actors(), Err(Error::InvalidUri)));
}

#[test]
fn del_follow_removes_one_follow() {
    let mut db = Database::new();
    let (alice, bob) = (remote("a.example"), remote("b.example"));
    follow(&mut db, &alice, &completion());
    follow(&mut db, &bob, &completion());
    follow(&mut db, &alice, &trends("m.example"));
    db.del_follow(&alice.id, &completion().uri()).unwrap();
    assert_eq!(db.get_following_remote_actors(&completion()).unwrap(), vec![bob]);
    assert_eq!(db.get_following_remote_actors(&trends("m.example")).unwrap(), vec![alice]);
}

#[test]
fn del_follow_of_what_is_not_followed_changes_nothing() {
    let mut db = Database::new();
    let alice = remote("a.example");
    follow(&mut db, &alice, &completion());
    db.del_follow(&alice.id, &trends("m.example").uri()).unwrap();
    db.del_follow("https://x.example/actor", &completion().uri()).unwrap();
    assert_eq!(db.get_following_remote_actors(&completion()).unwrap(), vec![alice]);
}

#[test]
fn monitored_posts_are_tracked_once() {
    let mut db = Database::new();
    let alice = remote("a.example");
    follow(&mut db, &alice, &completion());
    let later = Post { fetch_time: 1_800_000_000, ..post("https://a.example/notes/1") };
    db.monitor_posts(&alice, &vec![post("https://a.example/notes/1"), post("https://a.example/notes/2")]).unwrap();
    db.monitor_posts(&alice, &vec![later]).unwrap();
    let roots = db.get_all_posts().unwrap();
    assert_eq!(roots, vec![post("https://a.example/notes/1"), post("https://a.example/notes/2")]);
    assert_eq!(
        uris(&db.get_monitoring_posts_of(&alice).unwrap()),
        vec![("https://a.example/notes/1".to_string(), 0), ("https://a.example/notes/2".to_string(), 0)]
    );
}

#[test]
fn monitoring_for_an_unknown_follower_tracks_without_a_link() {
    let mut db = Database::new();
    let stranger = remote("x.example");
    assert!(matches!(
        db.monitor_posts(&stranger, &vec![post("https://a.example/notes/1")]),
        Err(Error::Database)
    ));
    assert_eq!(db.get_all_posts().unwrap().len(), 1);
    assert!(db.get_monitoring_posts_of(&stranger).unwrap().is_empty());
    assert!(db.monitor_posts(&stranger, &vec![]).is_ok());
}

#[test]
fn replies_get_growing_sequence_numbers() {
    let mut db = Database::new();
    let alice = remote("a.example");
    follow(&mut db, &alice, &completion());
    let (r, s) = (post("https://a.example/notes/r"), post("https://a.example/notes/s"));
    db.monitor_posts(&alice, &vec![r.clone(), s.clone()]).unwrap();
    db.insert_descendants(&r, &vec![post("https://a.example/notes/r1"), post("https://a.example/notes/r2")]).unwrap();
    db.insert_descendants(&s, &vec![post("https://a.example/notes/s1")]).unwrap();
    db.insert_descendants(&r, &vec![post("https://a.example/notes/r3")]).unwrap();
    assert_eq!(
        uris(&db.get_descendants_after(&r, 0).unwrap()),
        vec![
            ("https://a.example/notes/r1".to_string(), 1),
            ("https://a.example/notes/r2".to_string(), 2),
            ("https://a.example/notes/r3".to_string(), 4),
        ]
    );
    assert_eq!(uris(&db.get_descendants_after(&s, 0).unwrap()), vec![("https://a.example/notes/s1".to_string(), 3)]);
}

#[test]
fn descendants_after_returns_exactly_the_later_ones() {
    let mut db = Database::new();
    let alice = remote("a.example");
    follow(&mut db, &alice, &completion());
    let r = post("https://a.example/notes/r");
    db.monitor_posts(&alice, &vec![r.clone()]).unwrap();
    let replies: Vec<Post> = (1..=5).map(|i| post(&format!("https://a.example/notes/r{i}"))).collect();
    db.insert_descendants(&r, &replies).unwrap();
    for after in 0..=6 {
        let found = db.get_descendants_after(&r, after).unwrap();
        let expected: Vec<i64> = ((after + 1)..=5).collect();
        assert_eq!(found.iter().map(|(_, s)| *s).collect::<Vec<_>>(), expected);
    }
    assert_eq!(db.get_descendants_after(&r, -3).unwrap().len(), 5);
}

#[test]
fn a_reply_is_recorded_once() {
    let mut db = Database::new();
    let alice = remote("a.example");
    follow(&mut db, &alice, &completion());
    let (r, s) = (post("https://a.example/notes/r"), post("https://a.example/notes/s"));
    db.monitor_posts(&alice, &vec![r.clone(), s.clone()]).unwrap();
    let reply = post("https://a.example/notes/r1");
    db.insert_descendants(&r, &vec![reply.clone(), reply.clone()]).unwrap();
    db.insert_descendants(&r, &vec![reply.clone()]).unwrap();
    db.insert_descendants(&s, &vec![reply.clone(), post("https://a.example/notes/s1")]).unwrap();
    assert_eq!(uris(&db.get_descendants_after(&r, 0).unwrap()), vec![("https://a.example/notes/r1".to_string(), 1)]);
    assert_eq!(uris(&db.get_descendants_after(&s, 0).unwrap()), vec![("https://a.example/notes/s1".to_string(), 2)]);
}

#[test]
fn replies_under_a_post_that_is_not_tracked_are_refused() {
    let mut db = Database::new();
    let r = post("https://a.example/notes/r");
    assert!(matches!(
        db.insert_descendants(&r, &vec![post("https://a.example/notes/r1")]),
        Err(Error::Database)
    ));
    assert!(db.get_descendants_after(&r, 0).unwrap().is_empty());
}

#[test]
fn a_returned_reply_carries_address_and_fetch_time_only() {
    let mut db = Database::new();
    let alice = remote("a.example");
    follow(&mut db, &alice, &completion());
    let r = post("https://a.example/notes/r");
    db.monitor_posts(&alice, &vec![r.clone()]).unwrap();
    let reply = Post {
        fetch_time: 42,
        timeline_id: Some("r1".to_string()),
        in_reply_to_id: Some("r".to_string()),
        ..post("https://a.example/notes/r1")
    };
    db.insert_descendants(&r, &vec![reply]).unwrap();
    let found = db.get_descendants_after(&r, 0).unwrap();
    assert_eq!(found, vec![(Post { fetch_time: 42, ..post("https://a.example/notes/r1") }, 1)]);
}

#[test]
fn a_link_moves_forward_only() {
    let mut db = Database::new();
    let alice = remote("a.example");
    follow(&mut db, &alice, &completion());
    let r = post("https://a.example/notes/r");
    db.monitor_posts(&alice, &vec![r.clone()]).unwrap();
    db.update_monitoring_post(&alice, &r, 5).unwrap();
    assert_eq!(db.get_monitoring_posts_of(&alice).unwrap()[0].1, 5);
    db.update_monitoring_post(&alice, &r, 3).unwrap();
    assert_eq!(db.get_monitoring_posts_of(&alice).unwrap()[0].1, 5);
    db.update_monitoring_post(&alice, &r, 9).unwrap();
    assert_eq!(db.get_monitoring_posts_of(&alice).unwrap()[0].1, 9);
}

#[test]
fn updating_a_link_that_is_not_there_changes_nothing() {
    let mut db = Database::new();
    let (alice, bob) = (remote("a.example"), remote("b.example"));
    follow(&mut db, &alice, &completion());
    follow(&mut db, &bob, &completion());
    let r = post("https://a.example/notes/r");
    db.monitor_posts(&alice, &vec![r.clone()]).unwrap();
    db.update_monitoring_post(&bob, &r, 5).unwrap();
    assert_eq!(db.get_monitoring_posts_of(&alice).unwrap()[0].1, 0);
    assert!(db.get_monitoring_posts_of(&bob).unwrap().is_empty());
}

#[test]
fn links_are_kept_by_follower() {
    let mut db = Database::new();
    let (alice, bob) = (remote("a.example"), remote("b.example"));
    follow(&mut db, &alice, &completion());
    follow(&mut db, &bob, &completion());
    let r = post("https://a.example/notes/r");
    db.monitor_posts(&alice, &vec![r.clone()]).unwrap();
    db.monitor_posts(&bob, &vec![r.clone()]).unwrap();
    db.update_monitoring_post(&alice, &r, 2).unwrap();
    assert_eq!(db.get_monitoring_posts_of(&alice).unwrap()[0].1, 2);
    assert_eq!(db.get_monitoring_posts_of(&bob).unwrap()[0].1, 0);
    assert_eq!(db.get_all_posts().unwrap().len(), 1);
}

#[test]
fn the_cursor_is_upserted() {
    let mut db = Database::new();
    let (alice, bob) = (remote("a.example"), remote("b.example"));
    follow(&mut db, &alice, &completion());
    follow(&mut db, &bob, &completion());
    db.update_timeline(&alice, &Some("10".to_string())).unwrap();
    db.update_timeline(&bob, &Some("77".to_string())).unwrap();
    db.update_timeline(&alice, &Some("11".to_string())).unwrap();
    assert_eq!(db.get_latest_id_of(&alice), Some("11".to_string()));
    assert_eq!(db.get_latest_id_of(&bob), Some("77".to_string()));
    db.update_timeline(&bob, &None).unwrap();
    assert_eq!(db.get_latest_id_of(&bob), None);
}

#[test]
fn the_cursor_of_an_unknown_follower_is_refused() {
    let mut db = Database::new();
    let stranger = remote("x.example");
    assert!(matches!(db.update_timeline(&stranger, &Some("1".to_string())), Err(Error::Database)));
    assert_eq!(db.get_latest_id_of(&stranger), None);
}

#[test]
fn replies_that_are_recorded_already_are_passed_over_whatever_the_root() {
    let mut db = Database::new();
    let alice = remote("a.example");
    follow(&mut db, &alice, &completion());
    let r = post("https://a.example/notes/r");
    db.monitor_posts(&alice, &vec![r.clone()]).unwrap();
    let reply = post("https://a.example/notes/r1");
    db.insert_descendants(&r, &vec![reply.clone()]).unwrap();
    let stranger = post("https://x.example/notes/x");
    assert!(db.insert_descendants(&stranger, &vec![]).is_ok());
    assert!(db.insert_descendants(&stranger, &vec![reply.clone()]).is_ok());
    assert!(matches!(
        db.insert_descendants(&stranger, &vec![reply, post("https://a.example/notes/r2")]),
        Err(Error::Database)
    ));
    assert_eq!(uris(&db.get_descendants_after(&r, 0).unwrap()), vec![("https://a.example/notes/r1".to_string(), 1)]);
    assert!(db.get_descendants_after(&stranger, 0).unwrap().is_empty());
}
