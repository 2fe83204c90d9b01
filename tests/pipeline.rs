use bluflare::hub::{frame_for_topic, BroadcastHub, StreamPost};
use bluflare::identity::{collect_aliases, identities_to_resolve, lookup_url, resolver_base_url};
use bluflare::config::DidResolver;
use bluflare::message::JetstreamMessage;
use bluflare::models::{Post, PostWithAuthor, Topic};
use bluflare::processor::{Action, MessageJob, Outcome, Stage};
use bluflare::supervisor::{Phase, Supervisor, SupervisorAction, SupervisorEvent};

fn s(v: &str) -> String {
    v.to_string()
}

fn topic(id: i64, keywords: &[&str]) -> Topic {
    Topic {
        id,
        created_at: 0,
        enabled: true,
        slug: format!("topic-{id}"),
        subject: s("subject"),
        description: s("description"),
        keywords: keywords.iter().map(|k| k.to_string()).collect(),
        last_analysis: None,
        last_analysis_at: None,
    }
}

fn message(text: &str, mentions: &[&str]) -> JetstreamMessage {
    let facets: Vec<String> = mentions
        .iter()
        .map(|d| format!(r#"{{"features":[{{"$type":"app.bsky.richtext.facet#mention","did":"{d}"}}]}}"#))
        .collect();
    let raw = format!(
        r#"{{"did":"did:plc:author","kind":"commit","commit":{{"operation":"create","rkey":"rk","cid":"cid1","record":{{"createdAt":"2024-05-01T10:00:00Z","text":"{text}","facets":[{}]}}}}}}"#,
        facets.join(",")
    );
    JetstreamMessage::new(raw).expect("a post")
}

fn post(id: i64) -> Post {
    Post {
        id,
        cid: s("cid1"),
        rkey: s("rk"),
        created_at: s("2024-05-01T10:00:00Z"),
        text: s("text"),
        langs: vec![],
        urls: vec![],
        tags: vec![],
        author_id: 100,
    }
}

/// Storage that makes writes visible only on commit.
#[derive(Default)]
struct FakeStore {
    posts: Vec<i64>,
    post_topics: Vec<(i64, i64)>,
    post_mentions: Vec<(i64, i64)>,
    pending_posts: Vec<i64>,
    pending_topics: Vec<(i64, i64)>,
    pending_mentions: Vec<(i64, i64)>,
    fail_topic_links: bool,
    author_row_missing: bool,
}

fn run(job: &mut MessageJob, first: Action, store: &mut FakeStore, hub: &mut BroadcastHub) -> Vec<&'static str> {
    let mut log = Vec::new();
    let mut action = first;
    loop {
        let outcome = match action {
            Action::Resolve(ids) => {
                log.push("resolve");
                Outcome::Resolved(ids.iter().map(|d| Some(vec![format!("{d}.alias")])).collect())
            }
            Action::Begin => {
                log.push("begin");
                Outcome::Begun
            }
            Action::StoreUsers(users) => {
                log.push("users");
                let rows = users
                    .iter()
                    .enumerate()
                    .filter(|(_, u)| !(store.author_row_missing && u.did == "did:plc:author"))
                    .map(|(i, u)| (u.did.clone(), 100 + i as i64))
                    .collect();
                Outcome::UsersStored(rows)
            }
            Action::StorePost(row) => {
                log.push("post");
                assert_eq!(row.author_id, 100);
                store.pending_posts.push(1);
                Outcome::PostStored(post(1))
            }
            Action::LinkTopics(pid, ids) => {
                log.push("topics");
                if store.fail_topic_links {
                    Outcome::Failed
                } else {
                    store.pending_topics.extend(ids.iter().map(|t| (pid, *t)));
                    Outcome::Linked
                }
            }
            Action::LinkMentions(pid, ids) => {
                log.push("mentions");
                store.pending_mentions.extend(ids.iter().map(|u| (pid, *u)));
                Outcome::Linked
            }
            Action::Commit => {
                log.push("commit");
                store.posts.append(&mut store.pending_posts);
                store.post_topics.append(&mut store.pending_topics);
                store.post_mentions.append(&mut store.pending_mentions);
                Outcome::Committed
            }
            Action::Rollback => {
                log.push("rollback");
                store.pending_posts.clear();
                store.pending_topics.clear();
                store.pending_mentions.clear();
                return log;
            }
            Action::Publish(frame) => {
                log.push("publish");
                hub.publish(frame);
                return log;
            }
            Action::Done => {
                log.push("done");
                return log;
            }
        };
        action = job.advance(outcome);
    }
}

#[test]
fn failed_lookup_gives_empty_aliases_and_keeps_the_rest() {
    let r = collect_aliases(vec![s("A"), s("B")], vec![Some(vec![s("a.example")]), None]);
    assert_eq!(r, vec![(s("A"), vec![s("a.example")]), (s("B"), vec![])]);
}

#[test]
fn identities_are_author_then_distinct_mentions() {
    let ids = identities_to_resolve(&s("did:a"), &vec![s("did:b"), s("did:a"), s("did:b"), s("did:c")]);
    assert_eq!(ids, vec![s("did:a"), s("did:b"), s("did:c")]);
}

#[test]
fn lookups_are_off_without_a_base_url() {
    assert_eq!(lookup_url("", "did:plc:x"), None);
    assert_eq!(lookup_url("https://plc.example/", "did:plc:x"), Some(s("https://plc.example/did:plc:x")));
    let off = DidResolver { enabled: false, base_url: s("https://plc.example/"), timeout_seconds: 3, user_agent: s("ua") };
    assert_eq!(resolver_base_url(&off), "");
    let on = DidResolver { enabled: true, ..off };
    assert_eq!(resolver_base_url(&on), "https://plc.example/");
}

fn frame(id: i64, topics: Vec<i64>) -> StreamPost {
    StreamPost { post: post(id), topic_ids: topics, akas: vec![(s("did:plc:author"), vec![s("me.example")])], did: s("did:plc:author") }
}

#[test]
fn subscriber_reads_only_the_latest_frame() {
    let mut hub = BroadcastHub::new();
    let mut cursor = hub.get_post_stream();
    hub.publish(frame(1, vec![7]));
    hub.publish(frame(2, vec![7]));
    let read = hub.changed(&mut cursor).expect("a frame");
    assert_eq!(read.post.id, 2);
    assert!(hub.changed(&mut cursor).is_none());
}

#[test]
fn new_subscriber_reads_the_frame_already_published() {
    let mut hub = BroadcastHub::new();
    let mut early = hub.get_post_stream();
    assert!(hub.is_empty());
    assert!(hub.changed(&mut early).is_none());
    assert!(hub.current().is_none());
    hub.publish(frame(1, vec![7]));
    hub.publish(frame(2, vec![7]));
    let mut late = hub.get_post_stream();
    assert_eq!(hub.changed(&mut late).unwrap().post.id, 2);
    assert!(hub.changed(&mut late).is_none());
    assert_eq!(hub.current().unwrap().post.id, 2);
    assert!(!hub.is_empty());
    hub.send_message(post(3), vec![8], vec![], s("did:plc:author"));
    assert_eq!(hub.changed(&mut late).unwrap().topic_ids, vec![8]);
}

#[test]
fn subscribers_filter_frames_by_topic() {
    let f = frame(1, vec![3, 9]);
    assert!(frame_for_topic(&f, 9));
    assert!(!frame_for_topic(&f, 4));
}

#[test]
fn post_with_author_takes_the_author_aliases() {
    let f = StreamPost {
        post: post(5),
        topic_ids: vec![1],
        akas: vec![(s("did:plc:other"), vec![s("other.example")]), (s("did:plc:author"), vec![s("me.example")])],
        did: s("did:plc:author"),
    };
    let p = PostWithAuthor::from_stream(f);
    assert_eq!(p.aka, vec![s("me.example")]);
    assert_eq!(p.did, "did:plc:author");
    assert_eq!(p.post.id, 5);
    let unknown = StreamPost { post: post(6), topic_ids: vec![], akas: vec![], did: s("did:plc:nobody") };
    assert!(PostWithAuthor::from_stream(unknown).aka.is_empty());
}

#[test]
fn no_match_means_nothing_is_stored() {
    let m = message("I love rust!", &[]);
    assert!(MessageJob::start(m, &[topic(11, &["rust"])]).is_none());
}

#[test]
fn match_stores_one_post_linked_to_the_topic_and_publishes_once() {
    let m = message("I love rust", &[]);
    let (mut job, first) = MessageJob::start(m, &[topic(11, &["rust"])]).expect("a match");
    let mut store = FakeStore::default();
    let mut hub = BroadcastHub::new();
    let mut cursor = hub.get_post_stream();
    let log = run(&mut job, first, &mut store, &mut hub);
    assert_eq!(log, vec!["resolve", "begin", "users", "post", "topics", "commit", "publish"]);
    assert_eq!(store.posts, vec![1]);
    assert_eq!(store.post_topics, vec![(1, 11)]);
    let published = hub.changed(&mut cursor).expect("one frame");
    assert_eq!(published.topic_ids, vec![11]);
    assert_eq!(published.akas, vec![(s("did:plc:author"), vec![s("did:plc:author.alias")])]);
    assert!(hub.changed(&mut cursor).is_none());
    assert!(matches!(job.stage, Stage::Finished));
}

#[test]
fn mentions_are_linked_to_their_rows() {
    let m = message("rust news", &["did:plc:friend"]);
    let (mut job, first) = MessageJob::start(m, &[topic(2, &["rust"])]).expect("a match");
    let mut store = FakeStore::default();
    let mut hub = BroadcastHub::new();
    let log = run(&mut job, first, &mut store, &mut hub);
    assert_eq!(log, vec!["resolve", "begin", "users", "post", "topics", "mentions", "commit", "publish"]);
    assert_eq!(store.post_mentions, vec![(1, 101)]);
}

#[test]
fn failure_at_link_insertion_leaves_no_post() {
    let m = message("I love rust", &[]);
    let (mut job, first) = MessageJob::start(m, &[topic(11, &["rust"])]).expect("a match");
    let mut store = FakeStore { fail_topic_links: true, ..FakeStore::default() };
    let mut hub = BroadcastHub::new();
    let mut cursor = hub.get_post_stream();
    let log = run(&mut job, first, &mut store, &mut hub);
    assert_eq!(log, vec!["resolve", "begin", "users", "post", "topics", "rollback"]);
    assert!(store.posts.is_empty());
    assert!(store.post_topics.is_empty());
    assert!(hub.changed(&mut cursor).is_none());
    assert!(matches!(job.advance(Outcome::Committed), Action::Done));
}

#[test]
fn missing_author_row_rolls_back() {
    let m = message("rust", &["did:plc:friend"]);
    let (mut job, first) = MessageJob::start(m, &[topic(2, &["rust"])]).expect("a match");
    let mut store = FakeStore { author_row_missing: true, ..FakeStore::default() };
    let mut hub = BroadcastHub::new();
    let log = run(&mut job, first, &mut store, &mut hub);
    assert_eq!(log, vec!["resolve", "begin", "users", "rollback"]);
    assert!(store.posts.is_empty());
}

#[test]
fn failed_begin_drops_the_event_without_rollback() {
    let m = message("rust", &[]);
    let (mut job, _) = MessageJob::start(m, &[topic(2, &["rust"])]).expect("a match");
    assert!(matches!(job.advance(Outcome::Resolved(vec![None])), Action::Begin));
    assert!(matches!(job.advance(Outcome::Failed), Action::Done));
}

#[test]
fn two_failed_connections_then_streaming() {
    let (mut sup, first) = Supervisor::new(5);
    let mut constructions = 0;
    let mut slept = Vec::new();
    let mut results = vec![false, false, true].into_iter();
    let mut action = first;
    loop {
        let event = match action {
            SupervisorAction::Connect => {
                constructions += 1;
                if results.next().unwrap() { SupervisorEvent::Connected } else { SupervisorEvent::ConnectFailed }
            }
            SupervisorAction::RetryAfter(secs) => {
                slept.push(secs);
                constructions += 1;
                if results.next().unwrap() { SupervisorEvent::Connected } else { SupervisorEvent::ConnectFailed }
            }
            SupervisorAction::FetchTopics => SupervisorEvent::TopicsFetched(vec![topic(1, &["rust"])]),
            SupervisorAction::Continue => break,
            SupervisorAction::Dispatch(_, _) => panic!("no message was read"),
        };
        action = sup.on_event(event);
    }
    assert_eq!(constructions, 3);
    assert_eq!(slept, vec![5, 5]);
    assert!(matches!(sup.phase, Phase::Streaming));
    assert_eq!(sup.topics.len(), 1);
}

#[test]
fn refresh_failure_keeps_the_snapshot_and_stream_end_reconnects() {
    let (mut sup, _) = Supervisor::new(2);
    sup.on_event(SupervisorEvent::Connected);
    sup.on_event(SupervisorEvent::TopicsFetched(vec![topic(1, &["a"])]));
    assert!(matches!(sup.on_event(SupervisorEvent::Tick), SupervisorAction::FetchTopics));
    assert!(matches!(sup.on_event(SupervisorEvent::TopicsFailed), SupervisorAction::Continue));
    assert_eq!(sup.topics[0].id, 1);
    assert!(matches!(sup.on_event(SupervisorEvent::StreamEnded), SupervisorAction::Connect));
    assert!(matches!(sup.phase, Phase::Connecting));
}

#[test]
fn read_error_ends_the_transport_and_reconnects() {
    let (mut sup, _) = Supervisor::new(2);
    sup.on_event(SupervisorEvent::Connected);
    sup.on_event(SupervisorEvent::TopicsFetched(vec![topic(1, &["a"])]));
    assert!(matches!(sup.on_event(SupervisorEvent::ReadFailed), SupervisorAction::Connect));
    assert!(matches!(sup.phase, Phase::Connecting));
    assert_eq!(sup.topics[0].id, 1);
}

#[test]
fn failed_first_topic_load_keeps_the_stream() {
    let (mut sup, _) = Supervisor::new(2);
    sup.on_event(SupervisorEvent::Connected);
    assert!(matches!(sup.on_event(SupervisorEvent::TopicsFailed), SupervisorAction::Continue));
    assert!(matches!(sup.phase, Phase::Streaming));
    assert!(sup.topics.is_empty());
    assert!(matches!(sup.on_event(SupervisorEvent::Tick), SupervisorAction::FetchTopics));
}

#[test]
fn throughput_is_reported_every_thousand_messages() {
    let (mut sup, _) = Supervisor::new(1);
    sup.on_event(SupervisorEvent::Connected);
    sup.on_event(SupervisorEvent::TopicsFetched(vec![]));
    let mut reports = 0;
    for _ in 0..2000 {
        if let SupervisorAction::Dispatch(_, true) = sup.on_event(SupervisorEvent::Message(message("x", &[]))) {
            reports += 1;
        }
    }
    assert_eq!(reports, 2);
    assert_eq!(sup.messages, 2000);
}
