use bluflare::matcher::contains_token;
use bluflare::message::JetstreamMessage;
use bluflare::models::Topic;

fn envelope(kind: &str, operation: &str, record: &str) -> String {
    format!(
        r#"{{"did":"did:plc:author","time_us":1,"kind":"{kind}","commit":{{"rev":"r1","operation":"{operation}","collection":"app.bsky.feed.post","rkey":"3kabc","cid":"bafycid","record":{record}}}}}"#
    )
}

fn plain_record(text: &str) -> String {
    format!(r#"{{"$type":"app.bsky.feed.post","createdAt":"2024-05-01T10:00:00Z","text":"{text}"}}"#)
}

fn topic(id: i64, keywords: &[&str]) -> Topic {
    Topic {
        id,
        created_at: 0,
        enabled: true,
        slug: format!("topic-{id}"),
        subject: "subject".to_string(),
        description: "description".to_string(),
        keywords: keywords.iter().map(|k| k.to_string()).collect(),
        last_analysis: None,
        last_analysis_at: None,
    }
}

fn chars(s: &str) -> Vec<char> {
    s.chars().collect()
}

#[test]
fn parses_create_commit_with_facets() {
    let record = r#"{"$type":"app.bsky.feed.post","createdAt":"2024-05-01T10:00:00Z","langs":["en","fr"],"text":"Hello #Rust https://x.y","facets":[{"index":{"byteStart":6,"byteEnd":11},"features":[{"$type":"app.bsky.richtext.facet#tag","tag":"Rust"}]},{"features":[{"$type":"app.bsky.richtext.facet#link","uri":"https://x.y"},{"$type":"app.bsky.richtext.facet#mention","did":"did:plc:friend"},{"$type":"app.bsky.richtext.facet#hashtag","tag":"bsky"}]}]}"#;
    let m = JetstreamMessage::new(envelope("commit", "create", record)).expect("a post");
    assert_eq!(m.did, "did:plc:author");
    assert_eq!(m.cid, "bafycid");
    assert_eq!(m.rkey, "3kabc");
    assert_eq!(m.created_at, "2024-05-01T10:00:00Z");
    assert_eq!(m.text, "Hello #Rust https://x.y");
    assert_eq!(m.text_lower, "hello #rust https://x.y");
    assert_eq!(m.langs, vec!["en".to_string(), "fr".to_string()]);
    assert_eq!(m.tags, vec!["Rust".to_string(), "bsky".to_string()]);
    assert_eq!(m.urls, vec!["https://x.y".to_string()]);
    assert_eq!(m.mentions, vec!["did:plc:friend".to_string()]);
}

#[test]
fn optional_fields_default_to_empty() {
    let m = JetstreamMessage::new(envelope("commit", "create", &plain_record("hi"))).expect("a post");
    assert!(m.langs.is_empty());
    assert!(m.tags.is_empty());
    assert!(m.urls.is_empty());
    assert!(m.mentions.is_empty());
}

#[test]
fn links_and_tags_come_only_from_facets() {
    let m = JetstreamMessage::new(envelope("commit", "create", &plain_record("see #tag https://a.b"))).expect("a post");
    assert!(m.tags.is_empty());
    assert!(m.urls.is_empty());
}

#[test]
fn update_and_delete_operations_give_nothing() {
    assert!(JetstreamMessage::new(envelope("commit", "update", &plain_record("hi"))).is_none());
    assert!(JetstreamMessage::new(envelope("commit", "delete", &plain_record("hi"))).is_none());
}

#[test]
fn other_event_kinds_give_nothing() {
    assert!(JetstreamMessage::new(envelope("identity", "create", &plain_record("hi"))).is_none());
    assert!(JetstreamMessage::new(r#"{"did":"did:plc:a","kind":"account","account":{}}"#.to_string()).is_none());
}

#[test]
fn malformed_frames_give_nothing() {
    assert!(JetstreamMessage::new("not json at all".to_string()).is_none());
    assert!(JetstreamMessage::new("{\"kind\":\"commit\"".to_string()).is_none());
    assert!(JetstreamMessage::new("[1,2,3]".to_string()).is_none());
    assert!(JetstreamMessage::new(String::new()).is_none());
}

#[test]
fn missing_required_field_gives_nothing() {
    let no_text = r#"{"createdAt":"2024-05-01T10:00:00Z"}"#;
    assert!(JetstreamMessage::new(envelope("commit", "create", no_text)).is_none());
    let bad_langs = r#"{"createdAt":"x","text":"t","langs":"en"}"#;
    assert!(JetstreamMessage::new(envelope("commit", "create", bad_langs)).is_none());
    let bad_feature = r#"{"createdAt":"x","text":"t","facets":[{"features":[{"$type":"app.bsky.richtext.facet#unknown"}]}]}"#;
    assert!(JetstreamMessage::new(envelope("commit", "create", bad_feature)).is_none());
}

#[test]
fn whole_token_match_not_substring() {
    let m = JetstreamMessage::new(envelope("commit", "create", &plain_record("I love cats"))).unwrap();
    assert!(m.matches_any_interest(&[topic(1, &["cat"])]).is_empty());
    assert_eq!(m.matches_any_interest(&[topic(1, &["cats"])]), vec![1]);
}

#[test]
fn keywords_are_lowercased_before_comparison() {
    let m = JetstreamMessage::new(envelope("commit", "create", &plain_record("I love CATS"))).unwrap();
    assert!(m.matches_interest(&topic(4, &["Cats"])));
}

#[test]
fn matching_keeps_topic_order_and_skips_misses() {
    let m = JetstreamMessage::new(envelope("commit", "create", &plain_record("rust and go"))).unwrap();
    let topics = [topic(3, &["go"]), topic(1, &["java", "python"]), topic(2, &["zig", "rust"])];
    assert_eq!(m.matches_any_interest(&topics), vec![3, 2]);
    assert!(m.matches_any_interest(&[]).is_empty());
}

#[test]
fn trailing_punctuation_is_part_of_the_token() {
    let m = JetstreamMessage::new(envelope("commit", "create", &plain_record("I love rust!"))).unwrap();
    assert!(m.matches_any_interest(&[topic(7, &["rust"])]).is_empty());
    assert_eq!(m.matches_any_interest(&[topic(7, &["rust!"])]), vec![7]);
}

#[test]
fn tokens_split_on_any_white_space() {
    assert!(contains_token(&chars("a\tb\nc  d"), &chars("c")));
    assert!(contains_token(&chars("  lead"), &chars("lead")));
    assert!(!contains_token(&chars("abc"), &chars("")));
    assert!(!contains_token(&chars(""), &chars("a")));
    assert!(!contains_token(&chars("two words"), &chars("two words")));
    assert!(!contains_token(&chars("concatenate"), &chars("cat")));
}

#[test]
fn white_space_agrees_with_the_standard_library() {
    for c in (0u32..=0x10ffff).filter_map(char::from_u32) {
        assert_eq!(bluflare::text::is_white_space(c), c.is_whitespace(), "{c:?}");
    }
}
