//! Reading the probe tool's JSON report: the streams it lists, the first
//! video stream's dimensions, and the full resize decision built on them.

use vstd::prelude::*;
use vstd::string::StringExecFns;
use crate::resize::{compute_resize_dimensions, resize_dims};

verus! {

/// One entry of the probe report's stream list, reduced to what the resize
/// logic reads: the stream kind and its frame size. A missing or non-string
/// codec type reads as empty; a missing or non-numeric dimension reads as 0.
pub struct StreamInfo {
    pub codec_type: String,
    pub width: u64,
    pub height: u64,
}

/// The mathematical content of one stream entry.
pub struct StreamView {
    pub codec_type: Seq<char>,
    pub width: u64,
    pub height: u64,
}

impl View for StreamInfo {
    type V = StreamView;

    open spec fn view(&self) -> StreamView {
        StreamView { codec_type: self.codec_type@, width: self.width, height: self.height }
    }
}

/// The contents of a stream list, entry by entry.
pub open spec fn views_of(streams: Seq<StreamInfo>) -> Seq<StreamView> {
    streams.map_values(|s: StreamInfo| s@)
}

/// The stream list a probe report's bytes denote: None when the bytes are
/// not a JSON object with a "streams" array.
pub uninterp spec fn probe_streams_of(bytes: Seq<u8>) -> Option<Seq<StreamView>>;

/// Relies on serde_json::from_slice and serde_json::Value::{get, as_array,
/// as_str, as_u64}: whether the bytes are a JSON object holding a "streams"
/// array, and what that array's entries hold — a function of the bytes alone.
#[verifier::external_body]
fn parse_probe_report(bytes: &[u8]) -> (r: Option<Vec<StreamInfo>>)
    ensures
        match r {
            Some(v) => probe_streams_of(bytes@) == Some(views_of(v@)),
            None => probe_streams_of(bytes@) is None,
        },
{
    let value: serde_json::Value = serde_json::from_slice(bytes).ok()?;
    let streams = value.get("streams")?.as_array()?;
    Some(streams.iter().map(|s| StreamInfo {
        codec_type: s.get("codec_type").and_then(|c| c.as_str()).unwrap_or("").to_string(),
        width: s.get("width").and_then(|w| w.as_u64()).unwrap_or(0),
        height: s.get("height").and_then(|h| h.as_u64()).unwrap_or(0),
    }).collect())
}

/// Whether a stream entry is a video stream.
pub open spec fn is_video_stream(s: StreamView) -> bool {
    s.codec_type == "video"@
}

/// The frame size of the first video stream in the list.
pub open spec fn video_dims_spec(streams: Seq<StreamView>) -> Option<(u64, u64)>
    decreases streams.len(),
{
    if streams.len() == 0 {
        None
    } else if is_video_stream(streams[0]) {
        Some((streams[0].width, streams[0].height))
    } else {
        video_dims_spec(streams.drop_first())
    }
}

/// Find the first video stream's dimensions.
pub fn find_video_dimensions(streams: &Vec<StreamInfo>) -> (r: Option<(u64, u64)>)
    ensures
        r == video_dims_spec(views_of(streams@)),
{
    let ghost sv = views_of(streams@);
    let mut i: usize = 0;
    proof {
        assert(sv.skip(0) =~= sv);
    }
    while i < streams.len()
        invariant
            i <= streams@.len(),
            sv == views_of(streams@),
            video_dims_spec(sv) == video_dims_spec(sv.skip(i as int)),
        decreases streams@.len() - i,
    {
        let s = &streams[i];
        proof {
            assert(sv.skip(i as int)[0] == sv[i as int]);
        }
        if s.codec_type == String::from_str("video") {
            return Some((s.width, s.height));
        }
        proof {
            assert(sv.skip(i as int).drop_first() =~= sv.skip(i + 1));
        }
        i += 1;
    }
    None
}

/// Why a probe report yields no dimensions.
#[derive(Clone, Copy, Debug, PartialEq, Eq, Structural)]
pub enum ProbeError {
    NoStreams,
    NoVideoStream,
}

impl ProbeError {
    /// The diagnostic text each failure is reported with.
    pub fn message(&self) -> (r: &'static str)
        ensures
            *self is NoStreams ==> r@ == "No streams found"@,
            *self is NoVideoStream ==> r@ == "No video stream found"@,
    {
        match self {
            ProbeError::NoStreams => "No streams found",
            ProbeError::NoVideoStream => "No video stream found",
        }
    }
}

/// The dimensions of the first video stream of a probe report, truncated to
/// 32 bits as they are consumed.
pub fn probe_dimensions(report: &[u8]) -> (r: Result<(u32, u32), ProbeError>)
    ensures
        match probe_streams_of(report@) {
            None => r == Err::<(u32, u32), ProbeError>(ProbeError::NoStreams),
            Some(streams) => match video_dims_spec(streams) {
                None => r == Err::<(u32, u32), ProbeError>(ProbeError::NoVideoStream),
                Some(wh) => r == Ok::<(u32, u32), ProbeError>((wh.0 as u32, wh.1 as u32)),
            },
        },
{
    match parse_probe_report(report) {
        None => Err(ProbeError::NoStreams),
        Some(streams) => match find_video_dimensions(&streams) {
            None => Err(ProbeError::NoVideoStream),
            Some((w, h)) => Ok((
                #[verifier::truncate]
                (w as u32),
                #[verifier::truncate]
                (h as u32),
            )),
        },
    }
}

/// The full resize decision for one request: from the probe report and the
/// bounding box to the target dimensions, or to the failure to report. A
/// probed dimension of 0 is passed through unchanged; the transcoder rejects
/// such a frame size downstream.
pub fn plan_resize(report: &[u8], max_width: u32, max_height: u32) -> (r: Result<
    (u32, u32),
    ProbeError,
>)
    ensures
        match probe_streams_of(report@) {
            None => r == Err::<(u32, u32), ProbeError>(ProbeError::NoStreams),
            Some(streams) => match video_dims_spec(streams) {
                None => r == Err::<(u32, u32), ProbeError>(ProbeError::NoVideoStream),
                Some(wh) => {
                    let ow = wh.0 as u32;
                    let oh = wh.1 as u32;
                    if ow >= 1 && oh >= 1 {
                        r == Ok::<(u32, u32), ProbeError>((
                            resize_dims(
                                ow as int,
                                oh as int,
                                max_width as int,
                                max_height as int,
                            ).0 as u32,
                            resize_dims(
                                ow as int,
                                oh as int,
                                max_width as int,
                                max_height as int,
                            ).1 as u32,
                        ))
                    } else {
                        r == Ok::<(u32, u32), ProbeError>((ow, oh))
                    }
                },
            },
        },
{
    match probe_dimensions(report) {
        Err(e) => Err(e),
        Ok((ow, oh)) => {
            if ow >= 1 && oh >= 1 {
                Ok(compute_resize_dimensions(ow, oh, max_width, max_height))
            } else {
                Ok((ow, oh))
            }
        },
    }
}

} // verus!
