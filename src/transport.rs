use vstd::prelude::*;
use vstd::utf8::{decode_utf8, valid_utf8};

use crate::message::{message_of_text, JetstreamMessage, MessageView};

verus! {

/// One frame read from the firehose connection.
pub enum Frame {
    Text(String),
    Binary(Vec<u8>),
    Ping(Vec<u8>),
    Pong(Vec<u8>),
    Close,
}

/// What to do with a frame.
pub enum FrameOutcome {
    /// A post creation to match against the topics.
    Message(JetstreamMessage),
    /// Answer a ping with a pong.
    ReplyPong,
    /// Nothing to do: a control frame, or a frame that did not decode.
    Skip,
}

/// The bytes that zstd restores from a frame compressed with `dictionary`.
pub uninterp spec fn zstd_decompressed(dictionary: Seq<u8>, frame: Seq<u8>) -> Option<Seq<u8>>;

/// zstd's prepared decompression dictionary.
#[verifier::external_type_specification]
#[verifier::external_body]
pub struct ExDecoderDictionary<'a>(zstd::dict::DecoderDictionary<'a>);

/// The dictionary bytes that a prepared dictionary holds.
pub uninterp spec fn dictionary_bytes(d: zstd::dict::DecoderDictionary<'static>) -> Seq<u8>;

/// Relies on zstd-safe's `DDict::try_create`, which gives `None` where zstd
/// rejects the dictionary, and then on zstd's `dict::DecoderDictionary::copy`,
/// which prepares the dictionary from its own copy of the bytes.
#[verifier::external_body]
fn prepare_dictionary(bytes: &[u8]) -> (r: Option<zstd::dict::DecoderDictionary<'static>>)
    ensures
        r matches Some(d) ==> dictionary_bytes(d) == bytes@,
{
    zstd::zstd_safe::DDict::try_create(bytes)?;
    Some(zstd::dict::DecoderDictionary::copy(bytes))
}

/// Relies on zstd's `stream::read::Decoder::with_prepared_dictionary`, read
/// to its end: the outcome depends on the dictionary's bytes and the frame
/// alone.
#[verifier::external_body]
fn decompress(dictionary: &zstd::dict::DecoderDictionary<'static>, frame: &[u8]) -> (r: Option<Vec<u8>>)
    ensures
        match r {
            Some(b) => zstd_decompressed(dictionary_bytes(*dictionary), frame@) == Some(b@),
            None => zstd_decompressed(dictionary_bytes(*dictionary), frame@) is None,
        },
{
    let mut decoder = zstd::stream::read::Decoder::with_prepared_dictionary(frame, dictionary).ok()?;
    let mut out = Vec::new();
    std::io::Read::read_to_end(&mut decoder, &mut out).ok()?;
    Some(out)
}

/// Relies on `String::from_utf8`: it succeeds exactly on valid UTF-8 and
/// then holds the decoded characters.
#[verifier::external_body]
fn utf8_string(bytes: Vec<u8>) -> (r: Option<String>)
    ensures
        r is Some <==> valid_utf8(bytes@),
        r matches Some(s) ==> s@ == decode_utf8(bytes@),
{
    String::from_utf8(bytes).ok()
}

/// The text inside a compressed binary frame, if it decompresses to UTF-8.
pub open spec fn binary_text(dictionary: Seq<u8>, frame: Seq<u8>) -> Option<Seq<char>> {
    match zstd_decompressed(dictionary, frame) {
        Some(b) => if valid_utf8(b) {
            Some(decode_utf8(b))
        } else {
            None
        },
        None => None,
    }
}

/// The outcome hands over exactly the expected message, or skips when
/// there is none.
pub open spec fn delivers(r: FrameOutcome, expected: Option<MessageView>) -> bool {
    match (r, expected) {
        (FrameOutcome::Message(m), Some(v)) => m@ == v,
        (FrameOutcome::Skip, None) => true,
        _ => false,
    }
}

/// Turns frames into messages. The dictionary is prepared once and shared
/// by every binary frame.
pub struct FrameDecoder {
    prepared: zstd::dict::DecoderDictionary<'static>,
}

impl View for FrameDecoder {
    type V = Seq<u8>;

    /// The dictionary's bytes.
    closed spec fn view(&self) -> Seq<u8> {
        dictionary_bytes(self.prepared)
    }
}

impl FrameDecoder {
    /// A decoder for the dictionary, or `None` where zstd cannot load it.
    pub fn new(dictionary: Vec<u8>) -> (r: Option<Self>)
        ensures
            r matches Some(f) ==> f@ == dictionary@,
    {
        match prepare_dictionary(dictionary.as_slice()) {
            Some(prepared) => Some(FrameDecoder { prepared }),
            None => None,
        }
    }

    /// Text frames are parsed as they are; binary frames are decompressed
    /// with the dictionary first, and a frame that fails to decompress is
    /// skipped alone. Pings are answered; pongs and closes are ignored.
    pub fn handle_message(&self, frame: Frame) -> (r: FrameOutcome)
        ensures
            match frame {
                Frame::Text(t) => delivers(r, message_of_text(t@)),
                Frame::Binary(b) => match binary_text(self@, b@) {
                    Some(t) => delivers(r, message_of_text(t)),
                    None => r is Skip,
                },
                Frame::Ping(_) => r is ReplyPong,
                _ => r is Skip,
            },
    {
        match frame {
            Frame::Text(t) => Self::deliver(t),
            Frame::Binary(b) => match decompress(&self.prepared, b.as_slice()) {
                Some(bytes) => match utf8_string(bytes) {
                    Some(t) => Self::deliver(t),
                    None => FrameOutcome::Skip,
                },
                None => FrameOutcome::Skip,
            },
            Frame::Ping(_) => FrameOutcome::ReplyPong,
            Frame::Pong(_) => FrameOutcome::Skip,
            Frame::Close => FrameOutcome::Skip,
        }
    }

    fn deliver(text: String) -> (r: FrameOutcome)
        ensures
            delivers(r, message_of_text(text@)),
    {
        match JetstreamMessage::new(text) {
            Some(m) => FrameOutcome::Message(m),
            None => FrameOutcome::Skip,
        }
    }
}

} // verus!
