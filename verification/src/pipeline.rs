//! The shape of the playback pipeline: how frames are queued, which caps the
//! appsink asks for, and which chain of elements a decoded stream is given.

use vstd::prelude::*;

use crate::formats::PixelFormat;

verus! {

/// How many decoded frames may wait for the reader before the decoder blocks.
pub const FRAME_QUEUE_CAPACITY: usize = 10;

/// The caps the appsink accepts for frames in `format`: the media type of raw
/// video, and the format name.
pub fn appsink_caps(format: &PixelFormat) -> (caps: (&'static str, &str))
    ensures
        caps.0@ == "video/x-raw"@,
        caps.1@ == format.gst_name(),
{
    ("video/x-raw", format.to_gst_format())
}

/// Calls `str::starts_with` with a string pattern, which is true exactly when
/// `prefix` is a prefix of `s`.
#[verifier::external_body]
fn str_starts_with(s: &str, prefix: &str) -> (starts: bool)
    ensures
        starts == prefix@.is_prefix_of(s@),
{
    s.starts_with(prefix)
}

/// The kind of a stream that the decoder exposes.
#[derive(Debug, Copy, Clone, PartialEq, Eq, Structural)]
pub enum StreamKind {
    Video,
    Audio,
    Other,
}

/// The kind of a stream whose caps are named `caps_name` (`None` when the pad
/// has no caps or they have no structure): video when the name starts with
/// `video/`, otherwise audio when it starts with `audio/`.
pub open spec fn stream_kind_of(caps_name: Option<Seq<char>>) -> StreamKind {
    match caps_name {
        Some(name) => if "video/"@.is_prefix_of(name) {
            StreamKind::Video
        } else if "audio/"@.is_prefix_of(name) {
            StreamKind::Audio
        } else {
            StreamKind::Other
        },
        None => StreamKind::Other,
    }
}

/// The kind of the stream behind a new decoder pad.
pub fn classify_stream(caps_name: Option<&str>) -> (kind: StreamKind)
    ensures
        kind == stream_kind_of(
            match caps_name {
                Some(name) => Some(name@),
                None => None,
            },
        ),
        caps_name is None ==> kind == StreamKind::Other,
        caps_name matches Some(name) ==> {
            &&& (kind == StreamKind::Video <==> "video/"@.is_prefix_of(name@))
            &&& (kind == StreamKind::Audio <==> (!"video/"@.is_prefix_of(name@)
                && "audio/"@.is_prefix_of(name@)))
            &&& (kind == StreamKind::Other <==> (!"video/"@.is_prefix_of(name@)
                && !"audio/"@.is_prefix_of(name@)))
        },
{
    match caps_name {
        Some(name) => {
            if str_starts_with(name, "video/") {
                StreamKind::Video
            } else if str_starts_with(name, "audio/") {
                StreamKind::Audio
            } else {
                StreamKind::Other
            }
        },
        None => StreamKind::Other,
    }
}

/// The elements, in link order, that a stream of `kind` is played through;
/// the decoder pad is linked to the first. Video is converted, scaled and
/// handed to the appsink; audio is converted, resampled and played.
pub open spec fn sink_chain_of(kind: StreamKind) -> Seq<Seq<char>> {
    match kind {
        StreamKind::Video => seq!["queue"@, "videoconvert"@, "videoscale"@, "appsink"@],
        StreamKind::Audio => seq!["queue"@, "audioconvert"@, "audioresample"@, "autoaudiosink"@],
        StreamKind::Other => seq![],
    }
}

/// The names of the elements that a stream of `kind` is played through.
pub fn sink_chain(kind: StreamKind) -> (chain: Vec<&'static str>)
    ensures
        chain@.map_values(|element: &str| element@) == sink_chain_of(kind),
        kind == StreamKind::Video ==> chain@.map_values(|element: &str| element@) == seq![
            "queue"@,
            "videoconvert"@,
            "videoscale"@,
            "appsink"@,
        ],
        kind == StreamKind::Audio ==> chain@.map_values(|element: &str| element@) == seq![
            "queue"@,
            "audioconvert"@,
            "audioresample"@,
            "autoaudiosink"@,
        ],
        kind == StreamKind::Other ==> chain@.len() == 0,
{
    let chain = match kind {
        StreamKind::Video => vec!["queue", "videoconvert", "videoscale", "appsink"],
        StreamKind::Audio => vec!["queue", "audioconvert", "audioresample", "autoaudiosink"],
        StreamKind::Other => Vec::new(),
    };
    assert(chain@.map_values(|element: &str| element@) =~= sink_chain_of(kind));
    chain
}

/// Every stream that is played starts its chain with a queue, and only video
/// streams end in the appsink that delivers frames.
pub proof fn lemma_sink_chains(kind: StreamKind)
    ensures
        kind != StreamKind::Other ==> sink_chain_of(kind).len() == 4 && sink_chain_of(kind)[0]
            == "queue"@,
        kind == StreamKind::Other ==> sink_chain_of(kind).len() == 0,
        (sink_chain_of(kind).len() > 0 && sink_chain_of(kind).last() == "appsink"@) <==> kind
            == StreamKind::Video,
{
    reveal_strlit("appsink");
    reveal_strlit("autoaudiosink");
    if kind == StreamKind::Audio {
        assert("autoaudiosink"@.len() != "appsink"@.len());
    }
}

/// A stream is video exactly when its caps name starts with `video/`, audio
/// exactly when it starts with `audio/` (and not `video/`), and any other
/// stream, or one without caps, gets no chain at all.
pub proof fn lemma_stream_kinds(name: Seq<char>)
    ensures
        stream_kind_of(Some(name)) == StreamKind::Video <==> "video/"@.is_prefix_of(name),
        stream_kind_of(Some(name)) == StreamKind::Audio <==> (!"video/"@.is_prefix_of(name)
            && "audio/"@.is_prefix_of(name)),
        stream_kind_of(Some(name)) == StreamKind::Other <==> (!"video/"@.is_prefix_of(name)
            && !"audio/"@.is_prefix_of(name)),
        stream_kind_of(None) == StreamKind::Other,
        sink_chain_of(stream_kind_of(Some(name))).len() == 0 <==> (!"video/"@.is_prefix_of(name)
            && !"audio/"@.is_prefix_of(name)),
{
}

} // verus!
