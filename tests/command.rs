use clipforge::command::device_string;
use clipforge::{
    default_output_path, pip_args, pip_position_of, plan_recording, screen_args, webcam_args,
    PipPosition, RecordingMode, RecordingRequest,
};

fn strs(v: &[&str]) -> Vec<String> {
    v.iter().map(|s| s.to_string()).collect()
}

const VIDEO_TAIL: [&str; 11] = [
    "-r", "30", "-c:v", "libx264", "-preset", "fast", "-crf", "23", "-pix_fmt", "yuv420p", "-y",
];

const AUDIO: [&str; 8] = ["-c:a", "aac", "-b:a", "192k", "-ar", "48000", "-ac", "2"];

#[test]
fn screen_args_without_audio() {
    let out = "/tmp/out.mp4".to_string();
    let mut want = strs(&[
        "-f", "avfoundation", "-capture_cursor", "1", "-framerate", "30", "-i", "4:",
    ]);
    want.extend(strs(&VIDEO_TAIL));
    want.push(out.clone());
    assert_eq!(screen_args(&out, None), want);
}

#[test]
fn screen_args_with_audio() {
    let out = "/tmp/out.mp4".to_string();
    let mut want = strs(&[
        "-f", "avfoundation", "-capture_cursor", "1", "-framerate", "30", "-i", "4:1",
    ]);
    want.extend(strs(&AUDIO));
    want.extend(strs(&VIDEO_TAIL));
    want.push(out.clone());
    assert_eq!(screen_args(&out, Some(1)), want);
}

#[test]
fn webcam_args_default_and_named_camera() {
    let out = "cam.mp4".to_string();
    let mut want = strs(&[
        "-f", "avfoundation", "-framerate", "30", "-video_size", "1280x720", "-i", "0:",
    ]);
    want.extend(strs(&VIDEO_TAIL));
    want.push(out.clone());
    assert_eq!(webcam_args(&out, None, None), want);

    let mut want = strs(&[
        "-f", "avfoundation", "-framerate", "30", "-video_size", "1280x720", "-i", "2:10",
    ]);
    want.extend(strs(&AUDIO));
    want.extend(strs(&VIDEO_TAIL));
    want.push(out.clone());
    assert_eq!(webcam_args(&out, Some(2), Some(10)), want);
}

fn pip_head(screen: &str, camera: &str, filter: &str) -> Vec<String> {
    strs(&[
        "-f",
        "avfoundation",
        "-capture_cursor",
        "1",
        "-framerate",
        "30",
        "-i",
        screen,
        "-f",
        "avfoundation",
        "-framerate",
        "30",
        "-video_size",
        "1280x720",
        "-i",
        camera,
        "-filter_complex",
        filter,
        "-map",
        "[v]",
    ])
}

#[test]
fn pip_args_each_corner() {
    let out = "pip.mp4".to_string();
    let corners = [
        (PipPosition::BottomRight, "W-w-10:H-h-10"),
        (PipPosition::BottomLeft, "10:H-h-10"),
        (PipPosition::TopRight, "W-w-10:10"),
        (PipPosition::TopLeft, "10:10"),
    ];
    for (p, offset) in corners {
        let filter = format!("[1:v]scale=320:240[webcam];[0:v][webcam]overlay={}[v]", offset);
        let mut want = pip_head("4:", "0:", &filter);
        want.extend(strs(&VIDEO_TAIL));
        want.push(out.clone());
        assert_eq!(pip_args(&out, None, p, None), want);
    }
}

#[test]
fn pip_args_with_audio_maps_screen_audio() {
    let out = "pip.mp4".to_string();
    let filter = "[1:v]scale=320:240[webcam];[0:v][webcam]overlay=10:10[v]";
    let mut want = pip_head("4:3", "1:", filter);
    want.extend(strs(&["-map", "0:a"]));
    want.extend(strs(&AUDIO));
    want.extend(strs(&VIDEO_TAIL));
    want.push(out.clone());
    assert_eq!(pip_args(&out, Some(1), PipPosition::TopLeft, Some(3)), want);
}

#[test]
fn pip_position_names() {
    let of = |s: Option<&str>| pip_position_of(&s.map(|x| x.to_string()));
    assert_eq!(of(Some("bottom-right")), PipPosition::BottomRight);
    assert_eq!(of(Some("bottom-left")), PipPosition::BottomLeft);
    assert_eq!(of(Some("top-right")), PipPosition::TopRight);
    assert_eq!(of(Some("top-left")), PipPosition::TopLeft);
    assert_eq!(of(Some("middle")), PipPosition::BottomRight);
    assert_eq!(of(Some("Top-Left")), PipPosition::BottomRight);
    assert_eq!(of(Some("")), PipPosition::BottomRight);
    assert_eq!(of(None), PipPosition::BottomRight);
}

#[test]
fn device_strings() {
    assert_eq!(device_string(4, None), "4:");
    assert_eq!(device_string(0, Some(0)), "0:0");
    assert_eq!(device_string(12, Some(305)), "12:305");
    assert_eq!(device_string(u32::MAX, Some(u32::MAX)), "4294967295:4294967295");
}

#[test]
fn default_paths() {
    assert_eq!(
        default_output_path("/tmp", RecordingMode::Screen, 1700000000),
        "/tmp/clipforge-recording-1700000000.mp4"
    );
    assert_eq!(
        default_output_path("/var/tmp/", RecordingMode::Webcam, 0),
        "/var/tmp/clipforge-webcam-0.mp4"
    );
    assert_eq!(
        default_output_path("", RecordingMode::ScreenWebcam, 42),
        "clipforge-pip-42.mp4"
    );
}

#[test]
fn plan_is_deterministic() {
    let req = RecordingRequest::ScreenWebcam {
        output_path: None,
        webcam_device_index: Some(1),
        pip_position: Some("top-right".to_string()),
        pip_size: Some("25%".to_string()),
        audio_device_index: Some(0),
    };
    let a = plan_recording(req.clone(), "/tmp", 123);
    let b = plan_recording(req, "/tmp", 123);
    assert_eq!(a, b);
    assert_eq!(a.output_path, "/tmp/clipforge-pip-123.mp4");
    assert!(a
        .args
        .contains(&"[1:v]scale=320:240[webcam];[0:v][webcam]overlay=W-w-10:10[v]".to_string()));
}

#[test]
fn pip_size_is_not_applied() {
    let mk = |size: Option<&str>| RecordingRequest::ScreenWebcam {
        output_path: Some("x.mp4".to_string()),
        webcam_device_index: None,
        pip_position: None,
        pip_size: size.map(|s| s.to_string()),
        audio_device_index: None,
    };
    let a = plan_recording(mk(None), "/tmp", 1);
    let b = plan_recording(mk(Some("640:480")), "/tmp", 1);
    assert_eq!(a, b);
    assert_eq!(a.output_path, "x.mp4");
}

#[test]
fn plan_uses_named_output_path() {
    let req = RecordingRequest::Screen {
        output_path: Some("/home/u/rec.mp4".to_string()),
        audio_device_index: None,
    };
    let plan = plan_recording(req, "/tmp", 9);
    assert_eq!(plan.output_path, "/home/u/rec.mp4");
    assert_eq!(plan.args.last().unwrap(), "/home/u/rec.mp4");
    assert_eq!(plan.args[7], "4:");
}
