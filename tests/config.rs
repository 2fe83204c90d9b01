use bluflare::config::{DidResolver, Jetstream};

fn jetstream(compress: bool, cols: &[&str]) -> Jetstream {
    Jetstream {
        enabled: true,
        base_url: "wss://jetstream.example/subscribe".to_string(),
        compress,
        wanted_collections: cols.iter().map(|c| c.to_string()).collect(),
        reconnect_interval: 5,
        did_resolver: DidResolver {
            enabled: false,
            base_url: String::new(),
            timeout_seconds: 3,
            user_agent: "agent".to_string(),
        },
    }
}

#[test]
fn url_with_one_collection() {
    assert_eq!(
        jetstream(true, &["app.bsky.feed.post"]).url(),
        "wss://jetstream.example/subscribe?compress=true&wantedCollections=app.bsky.feed.post"
    );
}

#[test]
fn url_with_two_collections() {
    assert_eq!(
        jetstream(false, &["a.b", "c.d"]).url(),
        "wss://jetstream.example/subscribe?compress=false&wantedCollections=a.b&wantedCollections=c.d"
    );
}

#[test]
fn url_with_no_collection_ends_in_separator() {
    assert_eq!(
        jetstream(true, &[]).url(),
        "wss://jetstream.example/subscribe?compress=true&"
    );
}
