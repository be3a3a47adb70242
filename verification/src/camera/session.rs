//! One run of the capture tool: how it is invoked, what its start and its end
//! do to the connectivity counters, and what its exit means.

use crate::config::{CameraConfig, RecordingConfig};
use crate::state::{after_connect, after_disconnect, ServiceState};
use crate::text::{
    decimal, decimal_text, join_path, joined, signed_decimal, signed_decimal_text,
};
use vstd::prelude::*;

verus! {

/// The program that captures a stream.
pub const CAPTURE_PROGRAM: &'static str = "ffmpeg";

/// What stands in a segment's file name before the camera's id: the time at
/// which the segment was opened, for the capture tool to fill in.
pub const SEGMENT_NAME_PREFIX: &'static str = "%Y%m%d_%H%M%S_";

/// What stands in a segment's file name after the camera's id.
pub const SEGMENT_NAME_SUFFIX: &'static str = ".mp4";

/// Why a session failed.
#[derive(Debug, Clone, Copy, PartialEq, Eq, Structural)]
pub enum SessionFailure {
    /// The capture process could not be started.
    Spawn,
    /// The capture process gave no diagnostic stream.
    DiagnosticStream,
    /// Waiting for the capture process failed.
    Wait,
    /// The capture process exited without success, with this code if it had one.
    Exit { code: Option<i32> },
}

/// An exit code as it is written in a failure's message.
pub open spec fn exit_code_text(code: Option<i32>) -> Seq<char> {
    match code {
        Some(c) => "Some("@ + signed_decimal_text(c as int) + ")"@,
        None => "None"@,
    }
}

/// A failure in words.
pub open spec fn failure_text(failure: SessionFailure) -> Seq<char> {
    match failure {
        SessionFailure::Spawn => "Failed to spawn FFmpeg"@,
        SessionFailure::DiagnosticStream => "Failed to get stderr"@,
        SessionFailure::Wait => "FFmpeg process error"@,
        SessionFailure::Exit { code } => "FFmpeg exited with code: "@ + exit_code_text(code),
    }
}

impl SessionFailure {
    /// The failure in words.
    pub fn message(&self) -> (text: String)
        ensures
            text@ == failure_text(*self),
    {
        match self {
            SessionFailure::Spawn => String::from_str("Failed to spawn FFmpeg"),
            SessionFailure::DiagnosticStream => String::from_str("Failed to get stderr"),
            SessionFailure::Wait => String::from_str("FFmpeg process error"),
            SessionFailure::Exit { code } => {
                let mut text = String::from_str("FFmpeg exited with code: ");
                match code {
                    Some(c) => {
                        text.append("Some(");
                        text.append(signed_decimal(*c as i64).as_str());
                        text.append(")");
                        assert(text@ =~= failure_text(*self));
                    },
                    None => {
                        text.append("None");
                    },
                }
                text
            },
        }
    }
}

/// How one session ended.
#[derive(Debug, Clone, Copy, PartialEq, Eq, Structural)]
pub enum RecordingSessionOutcome {
    /// The capture process exited with success.
    Ended,
    /// Anything else.
    Failed(SessionFailure),
}

/// The file name pattern of a camera's segments.
pub open spec fn segment_name_pattern(camera_id: Seq<char>) -> Seq<char> {
    SEGMENT_NAME_PREFIX@ + camera_id + SEGMENT_NAME_SUFFIX@
}

/// The arguments of the capture tool: read `rtsp_url` over TCP, encode with
/// the two codecs, cut the output into MP4 segments of `segment_secs` seconds
/// that can be read while they are written, name each segment after the time
/// it was opened, restart timestamps in each, and overwrite what is there.
pub open spec fn capture_args(
    rtsp_url: Seq<char>,
    video_codec: Seq<char>,
    audio_codec: Seq<char>,
    segment_secs: nat,
    output_pattern: Seq<char>,
) -> Seq<Seq<char>> {
    seq![
        "-rtsp_transport"@,
        "tcp"@,
        "-i"@,
        rtsp_url,
        "-c:v"@,
        video_codec,
        "-c:a"@,
        audio_codec,
        "-f"@,
        "segment"@,
        "-segment_time"@,
        decimal_text(segment_secs),
        "-segment_format"@,
        "mp4"@,
        "-segment_format_options"@,
        "movflags=+frag_keyframe+empty_moov+default_base_moof"@,
        "-strftime"@,
        "1"@,
        "-reset_timestamps"@,
        "1"@,
        "-y"@,
        output_pattern,
    ]
}

/// The directory that holds a camera's segments: the camera's id under the
/// recording directory.
pub fn camera_temp_dir(recording: &RecordingConfig, camera: &CameraConfig) -> (dir: String)
    ensures
        dir@ == joined(recording.temp_dir@, camera.id@),
{
    join_path(recording.temp_dir.as_str(), camera.id.as_str())
}

/// The output path handed to the capture tool: the camera's segment name
/// pattern under `temp_dir`.
pub fn output_pattern(temp_dir: &str, camera_id: &str) -> (pattern: String)
    ensures
        pattern@ == joined(temp_dir@, segment_name_pattern(camera_id@)),
{
    let mut name = String::from_str(SEGMENT_NAME_PREFIX);
    name.append(camera_id);
    name.append(SEGMENT_NAME_SUFFIX);
    join_path(temp_dir, name.as_str())
}

/// The arguments with which the capture tool is started for `camera`,
/// writing under `temp_dir`.
pub fn capture_arguments(camera: &CameraConfig, recording: &RecordingConfig, temp_dir: &str) -> (args:
    Vec<String>)
    ensures
        args.deep_view() == capture_args(
            camera.rtsp_url@,
            recording.video_codec@,
            recording.audio_codec@,
            camera.segment_duration_secs as nat,
            joined(temp_dir@, segment_name_pattern(camera.id@)),
        ),
{
    let mut args: Vec<String> = Vec::new();
    args.push(String::from_str("-rtsp_transport"));
    args.push(String::from_str("tcp"));
    args.push(String::from_str("-i"));
    args.push(camera.rtsp_url.clone());
    args.push(String::from_str("-c:v"));
    args.push(recording.video_codec.clone());
    args.push(String::from_str("-c:a"));
    args.push(recording.audio_codec.clone());
    args.push(String::from_str("-f"));
    args.push(String::from_str("segment"));
    args.push(String::from_str("-segment_time"));
    args.push(decimal(camera.segment_duration_secs));
    args.push(String::from_str("-segment_format"));
    args.push(String::from_str("mp4"));
    args.push(String::from_str("-segment_format_options"));
    args.push(String::from_str("movflags=+frag_keyframe+empty_moov+default_base_moof"));
    args.push(String::from_str("-strftime"));
    args.push(String::from_str("1"));
    args.push(String::from_str("-reset_timestamps"));
    args.push(String::from_str("1"));
    args.push(String::from_str("-y"));
    args.push(output_pattern(temp_dir, camera.id.as_str()));
    assert(args.deep_view() =~= capture_args(
        camera.rtsp_url@,
        recording.video_codec@,
        recording.audio_codec@,
        camera.segment_duration_secs as nat,
        joined(temp_dir@, segment_name_pattern(camera.id@)),
    ));
    args
}

/// What the exit of the capture process means: success ends the session
/// cleanly, anything else fails it.
pub open spec fn outcome_of_exit(success: bool, code: Option<i32>) -> RecordingSessionOutcome {
    if success {
        RecordingSessionOutcome::Ended
    } else {
        RecordingSessionOutcome::Failed(SessionFailure::Exit { code })
    }
}

/// The capture process of a session became active: one more camera is
/// connected.
pub fn session_started(counters: &mut ServiceState)
    ensures
        final(counters).total() == old(counters).total(),
        final(counters).connected() == after_connect(
            old(counters).connected(),
            old(counters).total(),
        ),
        final(counters).connected() <= final(counters).total(),
{
    counters.mark_connected();
}

/// The capture process of a session exited, and its diagnostics were read
/// to the end: one camera fewer is connected, whatever the exit was, and the
/// exit decides the outcome.
pub fn session_exited(counters: &mut ServiceState, success: bool, code: Option<i32>) -> (outcome:
    RecordingSessionOutcome)
    ensures
        outcome == outcome_of_exit(success, code),
        final(counters).total() == old(counters).total(),
        final(counters).connected() == after_disconnect(old(counters).connected()),
        final(counters).connected() <= final(counters).total(),
{
    counters.mark_disconnected();
    if success {
        RecordingSessionOutcome::Ended
    } else {
        RecordingSessionOutcome::Failed(SessionFailure::Exit { code })
    }
}

} // verus!
