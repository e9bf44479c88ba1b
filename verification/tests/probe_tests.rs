use model_server::probe::{
    find_video_dimensions, plan_resize, probe_dimensions, ProbeError, StreamInfo,
};

fn stream(codec_type: &str, width: u64, height: u64) -> StreamInfo {
    StreamInfo { codec_type: codec_type.to_string(), width, height }
}

#[test]
fn first_video_stream_wins() {
    let streams = vec![
        stream("audio", 0, 0),
        stream("video", 1280, 720),
        stream("video", 99, 99),
    ];
    assert_eq!(find_video_dimensions(&streams), Some((1280, 720)));
}

#[test]
fn no_video_stream_yields_nothing() {
    assert_eq!(find_video_dimensions(&vec![]), None);
    assert_eq!(find_video_dimensions(&vec![stream("audio", 0, 0)]), None);
    // The codec type is matched exactly.
    assert_eq!(find_video_dimensions(&vec![stream("Video", 10, 10)]), None);
}

#[test]
fn probe_report_is_read_for_the_first_video_stream() {
    let report = "{\"streams\":[{\"codec_type\":\"audio\",\"sample_rate\":\"48000\"},{\"codec_type\":\"video\",\"width\":1280,\"height\":720},{\"codec_type\":\"video\",\"width\":99,\"height\":99}]}";
    assert_eq!(probe_dimensions(report.as_bytes()), Ok((1280, 720)));
}

#[test]
fn unreadable_report_means_no_streams() {
    assert_eq!(probe_dimensions(b"not json"), Err(ProbeError::NoStreams));
    assert_eq!(probe_dimensions(b"{}"), Err(ProbeError::NoStreams));
    assert_eq!(probe_dimensions(b"{\"streams\":{}}"), Err(ProbeError::NoStreams));
}

#[test]
fn report_without_video_stream_says_so() {
    assert_eq!(probe_dimensions(b"{\"streams\":[]}"), Err(ProbeError::NoVideoStream));
    assert_eq!(
        probe_dimensions(b"{\"streams\":[{\"codec_type\":\"audio\"}]}"),
        Err(ProbeError::NoVideoStream)
    );
}

#[test]
fn missing_dimensions_read_as_zero() {
    assert_eq!(
        probe_dimensions(b"{\"streams\":[{\"codec_type\":\"video\"}]}"),
        Ok((0, 0))
    );
}

#[test]
fn error_messages_match_the_report() {
    assert_eq!(ProbeError::NoStreams.message(), "No streams found");
    assert_eq!(ProbeError::NoVideoStream.message(), "No video stream found");
}

#[test]
fn plan_resize_scales_the_probed_video() {
    let report = b"{\"streams\":[{\"codec_type\":\"video\",\"width\":1000,\"height\":500}]}";
    assert_eq!(plan_resize(report, 800, 800), Ok((800, 400)));
    // A source that fits is left alone.
    assert_eq!(plan_resize(report, 1920, 1080), Ok((1000, 500)));
}

#[test]
fn plan_resize_passes_zero_dimensions_through() {
    let report = b"{\"streams\":[{\"codec_type\":\"video\"}]}";
    assert_eq!(plan_resize(report, 800, 800), Ok((0, 0)));
}

#[test]
fn plan_resize_reports_probe_failures() {
    assert_eq!(plan_resize(b"[]", 800, 800), Err(ProbeError::NoStreams));
    assert_eq!(
        plan_resize(b"{\"streams\":[]}", 800, 800),
        Err(ProbeError::NoVideoStream)
    );
}
