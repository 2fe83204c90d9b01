use bluflare::transport::{Frame, FrameDecoder, FrameOutcome};

const POST: &str = r#"{"did":"did:plc:author","kind":"commit","commit":{"operation":"create","rkey":"rk","cid":"c","record":{"createdAt":"t","text":"Zstd Rust"}}}"#;

#[test]
fn text_frames_are_parsed() {
    let d = FrameDecoder::new(vec![]).expect("empty dictionary loads");
    match d.handle_message(Frame::Text(POST.to_string())) {
        FrameOutcome::Message(m) => assert_eq!(m.text_lower, "zstd rust"),
        _ => panic!("expected a message"),
    }
    assert!(matches!(d.handle_message(Frame::Text("{}".to_string())), FrameOutcome::Skip));
}

#[test]
fn binary_frames_are_decompressed_with_the_dictionary() {
    let dictionary = b"{\"did\":\"did:plc:\",\"kind\":\"commit\",\"commit\":{\"operation\":\"create\"".to_vec();
    let mut compressor = zstd::bulk::Compressor::with_dictionary(3, &dictionary).unwrap();
    let compressed = compressor.compress(POST.as_bytes()).unwrap();
    let d = FrameDecoder::new(dictionary).expect("raw dictionary loads");
    match d.handle_message(Frame::Binary(compressed)) {
        FrameOutcome::Message(m) => assert_eq!(m.text, "Zstd Rust"),
        _ => panic!("expected a message"),
    }
}

#[test]
fn undecodable_binary_frame_is_skipped() {
    let d = FrameDecoder::new(vec![]).expect("empty dictionary loads");
    assert!(matches!(d.handle_message(Frame::Binary(vec![1, 2, 3, 4])), FrameOutcome::Skip));
    let not_utf8 = zstd::encode_all(&[0xffu8, 0xfe][..], 0).unwrap();
    assert!(matches!(d.handle_message(Frame::Binary(not_utf8)), FrameOutcome::Skip));
}

#[test]
fn control_frames() {
    let d = FrameDecoder::new(vec![]).expect("empty dictionary loads");
    assert!(matches!(d.handle_message(Frame::Ping(vec![1])), FrameOutcome::ReplyPong));
    assert!(matches!(d.handle_message(Frame::Pong(vec![])), FrameOutcome::Skip));
    assert!(matches!(d.handle_message(Frame::Close), FrameOutcome::Skip));
}

#[test]
fn dictionary_that_zstd_rejects_gives_no_decoder() {
    let bad = vec![0x37, 0xa4, 0x30, 0xec, 0, 0, 0, 0];
    assert!(FrameDecoder::new(bad).is_none());
}
