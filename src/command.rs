//! Encoder command lines for each recording mode.
//!
//! Everything here is a pure function of its inputs: the argument vector and
//! the output path that a recording request resolves to. The encoder always
//! records video at 30 frames per second with the same software encoder,
//! quality and pixel format, overwrites its output, and, when an audio
//! device is named, encodes stereo audio at one fixed bitrate and rate.
use crate::text::{decimal, decimal_string};
use vstd::prelude::*;

verus! {

/// The capture-device index of the main screen.
pub const SCREEN_DEVICE: u32 = 4;

/// The camera used when none is named.
pub const DEFAULT_CAMERA: u32 = 0;

/// Where the camera picture sits over the screen picture.
#[derive(PartialEq, Eq, Structural, Clone, Copy, Debug)]
pub enum PipPosition {
    BottomRight,
    BottomLeft,
    TopRight,
    TopLeft,
}

/// What a recording captures.
#[derive(PartialEq, Eq, Structural, Clone, Copy, Debug)]
pub enum RecordingMode {
    Screen,
    Webcam,
    ScreenWebcam,
}

/// A request to start a recording, with the options each mode takes.
#[derive(Clone, Debug, PartialEq, Eq)]
pub enum RecordingRequest {
    Screen { output_path: Option<String>, audio_device_index: Option<u32> },
    Webcam {
        output_path: Option<String>,
        device_index: Option<u32>,
        audio_device_index: Option<u32>,
    },
    /// The size of the camera picture is accepted and not applied: the
    /// picture is always 320 by 240.
    ScreenWebcam {
        output_path: Option<String>,
        webcam_device_index: Option<u32>,
        pip_position: Option<String>,
        pip_size: Option<String>,
        audio_device_index: Option<u32>,
    },
}

/// The encoder arguments of a request and the file it will write.
#[derive(Clone, Debug, PartialEq, Eq)]
pub struct RecordingPlan {
    pub args: Vec<String>,
    pub output_path: String,
}

pub open spec fn arg_views(v: Seq<String>) -> Seq<Seq<char>> {
    v.map_values(|s: String| s@)
}

pub open spec fn opt_view(o: Option<String>) -> Option<Seq<char>> {
    match o {
        Some(s) => Some(s@),
        None => None,
    }
}

/// The position that the name `name` selects; anything but the four corner
/// names, and no name at all, selects the bottom right corner.
pub open spec fn position_named(name: Option<Seq<char>>) -> PipPosition {
    match name {
        Some(s) => if s == "bottom-left"@ {
            PipPosition::BottomLeft
        } else if s == "top-right"@ {
            PipPosition::TopRight
        } else if s == "top-left"@ {
            PipPosition::TopLeft
        } else {
            PipPosition::BottomRight
        },
        None => PipPosition::BottomRight,
    }
}

/// The overlay offset of each corner: 10 pixels from both of its edges.
pub open spec fn overlay_offset(p: PipPosition) -> Seq<char> {
    match p {
        PipPosition::BottomRight => "W-w-10:H-h-10"@,
        PipPosition::BottomLeft => "10:H-h-10"@,
        PipPosition::TopRight => "W-w-10:10"@,
        PipPosition::TopLeft => "10:10"@,
    }
}

/// Scale the camera input to 320 by 240 and lay it over the screen input.
pub open spec fn pip_filter(p: PipPosition) -> Seq<char> {
    "[1:v]scale=320:240[webcam];[0:v][webcam]overlay="@ + overlay_offset(p) + "[v]"@
}

/// The input device `video:audio`, or `video:` without audio.
pub open spec fn device_spec(video: u32, audio: Option<u32>) -> Seq<char> {
    decimal(video as nat) + ":"@ + match audio {
        Some(a) => decimal(a as nat),
        None => Seq::empty(),
    }
}

/// Audio encoding, present only when an audio device is named.
pub open spec fn audio_encoding_args(audio: Option<u32>) -> Seq<Seq<char>> {
    if audio is Some {
        seq!["-c:a"@, "aac"@, "-b:a"@, "192k"@, "-ar"@, "48000"@, "-ac"@, "2"@]
    } else {
        Seq::empty()
    }
}

/// Video encoding and the output file, always last.
pub open spec fn video_encoding_args(output: Seq<char>) -> Seq<Seq<char>> {
    seq![
        "-r"@,
        "30"@,
        "-c:v"@,
        "libx264"@,
        "-preset"@,
        "fast"@,
        "-crf"@,
        "23"@,
        "-pix_fmt"@,
        "yuv420p"@,
        "-y"@,
        output,
    ]
}

pub open spec fn screen_args_spec(output: Seq<char>, audio: Option<u32>) -> Seq<Seq<char>> {
    seq![
        "-f"@,
        "avfoundation"@,
        "-capture_cursor"@,
        "1"@,
        "-framerate"@,
        "30"@,
        "-i"@,
        device_spec(SCREEN_DEVICE, audio),
    ] + audio_encoding_args(audio) + video_encoding_args(output)
}

pub open spec fn webcam_args_spec(output: Seq<char>, device: Option<u32>, audio: Option<u32>) -> Seq<
    Seq<char>,
> {
    seq![
        "-f"@,
        "avfoundation"@,
        "-framerate"@,
        "30"@,
        "-video_size"@,
        "1280x720"@,
        "-i"@,
        device_spec(device.unwrap_or(DEFAULT_CAMERA), audio),
    ] + audio_encoding_args(audio) + video_encoding_args(output)
}

pub open spec fn pip_args_spec(
    output: Seq<char>,
    webcam: Option<u32>,
    position: PipPosition,
    audio: Option<u32>,
) -> Seq<Seq<char>> {
    seq![
        "-f"@,
        "avfoundation"@,
        "-capture_cursor"@,
        "1"@,
        "-framerate"@,
        "30"@,
        "-i"@,
        device_spec(SCREEN_DEVICE, audio),
        "-f"@,
        "avfoundation"@,
        "-framerate"@,
        "30"@,
        "-video_size"@,
        "1280x720"@,
        "-i"@,
        device_spec(webcam.unwrap_or(DEFAULT_CAMERA), None),
        "-filter_complex"@,
        pip_filter(position),
        "-map"@,
        "[v]"@,
    ] + (if audio is Some {
        seq!["-map"@, "0:a"@]
    } else {
        Seq::empty()
    }) + audio_encoding_args(audio) + video_encoding_args(output)
}

/// The word that names a mode in default file names.
pub open spec fn mode_tag(m: RecordingMode) -> Seq<char> {
    match m {
        RecordingMode::Screen => "recording"@,
        RecordingMode::Webcam => "webcam"@,
        RecordingMode::ScreenWebcam => "pip"@,
    }
}

/// `clipforge-<tag>-<timestamp>.mp4`.
pub open spec fn default_file_name(m: RecordingMode, timestamp: nat) -> Seq<char> {
    "clipforge-"@ + mode_tag(m) + "-"@ + decimal(timestamp) + ".mp4"@
}

/// `name` inside directory `dir`, with one separator between them.
pub open spec fn join_path(dir: Seq<char>, name: Seq<char>) -> Seq<char> {
    if dir.len() == 0 || dir.last() == '/' {
        dir + name
    } else {
        dir + seq!['/'] + name
    }
}

pub open spec fn default_path(dir: Seq<char>, m: RecordingMode, timestamp: nat) -> Seq<char> {
    join_path(dir, default_file_name(m, timestamp))
}

pub open spec fn request_mode(req: RecordingRequest) -> RecordingMode {
    match req {
        RecordingRequest::Screen { .. } => RecordingMode::Screen,
        RecordingRequest::Webcam { .. } => RecordingMode::Webcam,
        RecordingRequest::ScreenWebcam { .. } => RecordingMode::ScreenWebcam,
    }
}

pub open spec fn request_output(req: RecordingRequest) -> Option<Seq<char>> {
    match req {
        RecordingRequest::Screen { output_path, .. } => opt_view(output_path),
        RecordingRequest::Webcam { output_path, .. } => opt_view(output_path),
        RecordingRequest::ScreenWebcam { output_path, .. } => opt_view(output_path),
    }
}

/// The file a request writes: the path it names, else the default path for
/// its mode in `dir` at `timestamp`.
pub open spec fn planned_path(req: RecordingRequest, dir: Seq<char>, timestamp: nat) -> Seq<
    char,
> {
    match request_output(req) {
        Some(p) => p,
        None => default_path(dir, request_mode(req), timestamp),
    }
}

/// The encoder arguments of a request that writes `output`.
pub open spec fn planned_args(req: RecordingRequest, output: Seq<char>) -> Seq<Seq<char>> {
    match req {
        RecordingRequest::Screen { audio_device_index, .. } => screen_args_spec(
            output,
            audio_device_index,
        ),
        RecordingRequest::Webcam { device_index, audio_device_index, .. } => webcam_args_spec(
            output,
            device_index,
            audio_device_index,
        ),
        RecordingRequest::ScreenWebcam {
            webcam_device_index,
            pip_position,
            audio_device_index,
            ..
        } => pip_args_spec(
            output,
            webcam_device_index,
            position_named(opt_view(pip_position)),
            audio_device_index,
        ),
    }
}

fn push_arg(args: &mut Vec<String>, s: &str)
    ensures
        arg_views(final(args)@) == arg_views(old(args)@).push(s@),
{
    args.push(String::from_str(s));
    assert(arg_views(args@) =~= arg_views(old(args)@).push(s@));
}

fn push_string(args: &mut Vec<String>, s: String)
    ensures
        arg_views(final(args)@) == arg_views(old(args)@).push(s@),
{
    let ghost v = s@;
    args.push(s);
    assert(arg_views(args@) =~= arg_views(old(args)@).push(v));
}

/// The input device string for `video` and, if named, `audio`.
pub fn device_string(video: u32, audio: Option<u32>) -> (r: String)
    ensures
        r@ == device_spec(video, audio),
{
    let mut s = decimal_string(video as u64);
    s.append(":");
    match audio {
        Some(a) => {
            let d = decimal_string(a as u64);
            s.append(d.as_str());
        },
        None => {
            assert(s@ + Seq::<char>::empty() =~= s@);
        },
    }
    s
}

fn push_audio_encoding(args: &mut Vec<String>, audio: Option<u32>)
    ensures
        arg_views(final(args)@) == arg_views(old(args)@) + audio_encoding_args(audio),
{
    if audio.is_some() {
        push_arg(args, "-c:a");
        push_arg(args, "aac");
        push_arg(args, "-b:a");
        push_arg(args, "192k");
        push_arg(args, "-ar");
        push_arg(args, "48000");
        push_arg(args, "-ac");
        push_arg(args, "2");
    }
    assert(arg_views(args@) =~= arg_views(old(args)@) + audio_encoding_args(audio));
}

fn push_video_encoding(args: &mut Vec<String>, output: &String)
    ensures
        arg_views(final(args)@) == arg_views(old(args)@) + video_encoding_args(output@),
{
    push_arg(args, "-r");
    push_arg(args, "30");
    push_arg(args, "-c:v");
    push_arg(args, "libx264");
    push_arg(args, "-preset");
    push_arg(args, "fast");
    push_arg(args, "-crf");
    push_arg(args, "23");
    push_arg(args, "-pix_fmt");
    push_arg(args, "yuv420p");
    push_arg(args, "-y");
    push_string(args, output.clone());
    assert(arg_views(args@) =~= arg_views(old(args)@) + video_encoding_args(output@));
}

/// Encoder arguments that record the main screen, with the cursor, into
/// `output`.
pub fn screen_args(output: &String, audio_device_index: Option<u32>) -> (r: Vec<String>)
    ensures
        arg_views(r@) == screen_args_spec(output@, audio_device_index),
{
    let mut args: Vec<String> = Vec::new();
    push_arg(&mut args, "-f");
    push_arg(&mut args, "avfoundation");
    push_arg(&mut args, "-capture_cursor");
    push_arg(&mut args, "1");
    push_arg(&mut args, "-framerate");
    push_arg(&mut args, "30");
    push_arg(&mut args, "-i");
    push_string(&mut args, device_string(SCREEN_DEVICE, audio_device_index));
    push_audio_encoding(&mut args, audio_device_index);
    push_video_encoding(&mut args, output);
    assert(arg_views(args@) =~= screen_args_spec(output@, audio_device_index));
    args
}

/// Encoder arguments that record camera `device_index` (the default camera
/// if none is named) into `output`.
pub fn webcam_args(output: &String, device_index: Option<u32>, audio_device_index: Option<u32>) -> (r:
    Vec<String>)
    ensures
        arg_views(r@) == webcam_args_spec(output@, device_index, audio_device_index),
{
    let camera = match device_index {
        Some(d) => d,
        None => DEFAULT_CAMERA,
    };
    let mut args: Vec<String> = Vec::new();
    push_arg(&mut args, "-f");
    push_arg(&mut args, "avfoundation");
    push_arg(&mut args, "-framerate");
    push_arg(&mut args, "30");
    push_arg(&mut args, "-video_size");
    push_arg(&mut args, "1280x720");
    push_arg(&mut args, "-i");
    push_string(&mut args, device_string(camera, audio_device_index));
    push_audio_encoding(&mut args, audio_device_index);
    push_video_encoding(&mut args, output);
    assert(arg_views(args@) =~= webcam_args_spec(output@, device_index, audio_device_index));
    args
}

/// The corner that `name` selects.
pub fn pip_position_of(name: &Option<String>) -> (r: PipPosition)
    ensures
        r == position_named(opt_view(*name)),
{
    match name {
        Some(s) => {
            if *s == String::from_str("bottom-left") {
                PipPosition::BottomLeft
            } else if *s == String::from_str("top-right") {
                PipPosition::TopRight
            } else if *s == String::from_str("top-left") {
                PipPosition::TopLeft
            } else {
                PipPosition::BottomRight
            }
        },
        None => PipPosition::BottomRight,
    }
}

fn overlay_offset_str(p: PipPosition) -> (r: &'static str)
    ensures
        r@ == overlay_offset(p),
{
    match p {
        PipPosition::BottomRight => "W-w-10:H-h-10",
        PipPosition::BottomLeft => "10:H-h-10",
        PipPosition::TopRight => "W-w-10:10",
        PipPosition::TopLeft => "10:10",
    }
}

/// The filter that lays the camera picture over the screen at `p`.
pub fn pip_filter_string(p: PipPosition) -> (r: String)
    ensures
        r@ == pip_filter(p),
{
    let mut f = String::from_str("[1:v]scale=320:240[webcam];[0:v][webcam]overlay=");
    f.append(overlay_offset_str(p));
    f.append("[v]");
    f
}

/// Encoder arguments that record the screen with camera `webcam_device_index`
/// laid over it at `position`, into `output`. Audio, when named, comes with
/// the screen input.
pub fn pip_args(
    output: &String,
    webcam_device_index: Option<u32>,
    position: PipPosition,
    audio_device_index: Option<u32>,
) -> (r: Vec<String>)
    ensures
        arg_views(r@) == pip_args_spec(output@, webcam_device_index, position, audio_device_index),
{
    let camera = match webcam_device_index {
        Some(d) => d,
        None => DEFAULT_CAMERA,
    };
    let mut args: Vec<String> = Vec::new();
    push_arg(&mut args, "-f");
    push_arg(&mut args, "avfoundation");
    push_arg(&mut args, "-capture_cursor");
    push_arg(&mut args, "1");
    push_arg(&mut args, "-framerate");
    push_arg(&mut args, "30");
    push_arg(&mut args, "-i");
    push_string(&mut args, device_string(SCREEN_DEVICE, audio_device_index));
    push_arg(&mut args, "-f");
    push_arg(&mut args, "avfoundation");
    push_arg(&mut args, "-framerate");
    push_arg(&mut args, "30");
    push_arg(&mut args, "-video_size");
    push_arg(&mut args, "1280x720");
    push_arg(&mut args, "-i");
    push_string(&mut args, device_string(camera, None));
    push_arg(&mut args, "-filter_complex");
    push_string(&mut args, pip_filter_string(position));
    push_arg(&mut args, "-map");
    push_arg(&mut args, "[v]");
    let ghost head = arg_views(args@);
    if audio_device_index.is_some() {
        push_arg(&mut args, "-map");
        push_arg(&mut args, "0:a");
    }
    assert(arg_views(args@) =~= head + (if audio_device_index is Some {
        seq!["-map"@, "0:a"@]
    } else {
        Seq::empty()
    }));
    push_audio_encoding(&mut args, audio_device_index);
    push_video_encoding(&mut args, output);
    assert(arg_views(args@) =~= pip_args_spec(
        output@,
        webcam_device_index,
        position,
        audio_device_index,
    ));
    args
}

fn mode_tag_str(m: RecordingMode) -> (r: &'static str)
    ensures
        r@ == mode_tag(m),
{
    match m {
        RecordingMode::Screen => "recording",
        RecordingMode::Webcam => "webcam",
        RecordingMode::ScreenWebcam => "pip",
    }
}

/// The file that a recording of mode `m` started at `timestamp` (seconds
/// since the Unix epoch) writes when no path is named: a file in `temp_dir`
/// whose name holds the mode and the timestamp.
pub fn default_output_path(temp_dir: &str, m: RecordingMode, timestamp: u64) -> (r: String)
    ensures
        r@ == default_path(temp_dir@, m, timestamp as nat),
{
    let mut name = String::from_str("clipforge-");
    name.append(mode_tag_str(m));
    name.append("-");
    let ts = decimal_string(timestamp);
    name.append(ts.as_str());
    name.append(".mp4");
    let mut path = String::from_str(temp_dir);
    let n = temp_dir.unicode_len();
    if n > 0 && temp_dir.get_char(n - 1) != '/' {
        proof {
            reveal_strlit("/");
        }
        path.append("/");
    }
    path.append(name.as_str());
    assert(path@ =~= default_path(temp_dir@, m, timestamp as nat));
    path
}

/// The arguments and output file of `req`. A request without an output path
/// writes to the default path for its mode in `temp_dir` at `timestamp`.
pub fn plan_recording(req: RecordingRequest, temp_dir: &str, timestamp: u64) -> (r: RecordingPlan)
    ensures
        r.output_path@ == planned_path(req, temp_dir@, timestamp as nat),
        arg_views(r.args@) == planned_args(req, r.output_path@),
{
    let mode = match &req {
        RecordingRequest::Screen { .. } => RecordingMode::Screen,
        RecordingRequest::Webcam { .. } => RecordingMode::Webcam,
        RecordingRequest::ScreenWebcam { .. } => RecordingMode::ScreenWebcam,
    };
    let named = match &req {
        RecordingRequest::Screen { output_path, .. } => output_path.clone(),
        RecordingRequest::Webcam { output_path, .. } => output_path.clone(),
        RecordingRequest::ScreenWebcam { output_path, .. } => output_path.clone(),
    };
    let output = match named {
        Some(p) => p,
        None => default_output_path(temp_dir, mode, timestamp),
    };
    let args = match &req {
        RecordingRequest::Screen { audio_device_index, .. } => screen_args(
            &output,
            *audio_device_index,
        ),
        RecordingRequest::Webcam { device_index, audio_device_index, .. } => webcam_args(
            &output,
            *device_index,
            *audio_device_index,
        ),
        RecordingRequest::ScreenWebcam {
            webcam_device_index,
            pip_position,
            audio_device_index,
            ..
        } => {
            let position = pip_position_of(pip_position);
            pip_args(&output, *webcam_device_index, position, *audio_device_index)
        },
    };
    RecordingPlan { args, output_path: output }
}

/// Planning is a function of the request, the directory and the timestamp:
/// two plans made from equal inputs hold equal arguments and equal paths.
pub proof fn lemma_plan_deterministic(
    a: RecordingPlan,
    b: RecordingPlan,
    req: RecordingRequest,
    dir: Seq<char>,
    timestamp: nat,
)
    requires
        a.output_path@ == planned_path(req, dir, timestamp),
        arg_views(a.args@) == planned_args(req, a.output_path@),
        b.output_path@ == planned_path(req, dir, timestamp),
        arg_views(b.args@) == planned_args(req, b.output_path@),
    ensures
        a.output_path@ == b.output_path@,
        arg_views(a.args@) == arg_views(b.args@),
{
}

/// Each corner name selects its corner, whose overlay sits 10 pixels from
/// both of that corner's edges; every other name, and no name, selects the
/// bottom right corner.
pub proof fn lemma_pip_positions(name: Seq<char>)
    ensures
        position_named(Some("bottom-right"@)) == PipPosition::BottomRight,
        position_named(Some("bottom-left"@)) == PipPosition::BottomLeft,
        position_named(Some("top-right"@)) == PipPosition::TopRight,
        position_named(Some("top-left"@)) == PipPosition::TopLeft,
        position_named(None) == PipPosition::BottomRight,
        name != "bottom-left"@ && name != "top-right"@ && name != "top-left"@ ==> pip_filter(
            position_named(Some(name)),
        ) == "[1:v]scale=320:240[webcam];[0:v][webcam]overlay="@ + "W-w-10:H-h-10"@ + "[v]"@,
{
    reveal_strlit("bottom-right");
    reveal_strlit("bottom-left");
    reveal_strlit("top-right");
    reveal_strlit("top-left");
    assert("bottom-right"@[7] != "bottom-left"@[7]);
    assert("top-right"@.len() != "bottom-left"@.len());
    assert("top-left"@.len() != "bottom-left"@.len());
    assert("top-left"@.len() != "top-right"@.len());
}

} // verus!
