use std::sync::Mutex;

use clipforge::{
    begin_stop, conclude_stop, export_completed, finish_start, greet, microphone_permission,
    next_stop_action, plan_recording, screen_recording_permission, ExportStep, OutputFile,
    ProbeOutcome, RecorderError, RecordingRequest, SessionRegistry, StopAction, StopEvent,
    ToolUse,
};

#[test]
fn distinct_inserts_give_one_entry_each() {
    let mut reg: SessionRegistry<&str> = SessionRegistry::new();
    assert_eq!(reg.len(), 0);
    for (i, id) in [10u32, 20, 30, 40].iter().enumerate() {
        assert!(reg.insert(*id, "handle", format!("/tmp/{}.mp4", id)).is_none());
        assert_eq!(reg.len(), i + 1);
    }
    for id in [10u32, 20, 30, 40] {
        assert!(reg.contains(id));
    }
    assert!(!reg.contains(50));
}

#[test]
fn take_succeeds_once() {
    let mut reg: SessionRegistry<u8> = SessionRegistry::new();
    reg.insert(7, 1, "a.mp4".to_string());
    assert_eq!(reg.take(7), Some((1, "a.mp4".to_string())));
    assert_eq!(reg.take(7), None);
    assert_eq!(reg.len(), 0);
}

#[test]
fn insert_replaces_same_identifier() {
    let mut reg: SessionRegistry<u8> = SessionRegistry::new();
    reg.insert(7, 1, "a.mp4".to_string());
    assert_eq!(reg.insert(7, 2, "b.mp4".to_string()), Some((1, "a.mp4".to_string())));
    assert_eq!(reg.len(), 1);
    assert_eq!(reg.take(7), Some((2, "b.mp4".to_string())));
}

#[test]
fn repeated_stops_claim_once() {
    let reg: Mutex<SessionRegistry<u32>> = Mutex::new(SessionRegistry::new());
    for id in 0..8u32 {
        reg.lock().unwrap().insert(id, id, format!("{}.mp4", id));
    }
    let mut wins = [0u32; 4];
    for id in 0..8u32 {
        for caller in 0..4 {
            match begin_stop(&mut reg.lock().unwrap(), id) {
                Ok((h, path)) => {
                    assert_eq!(h, id);
                    assert_eq!(path, format!("{}.mp4", id));
                    wins[caller] += 1;
                }
                Err(e) => assert_eq!(e, RecorderError::SessionNotFound(id)),
            }
        }
    }
    assert_eq!(wins.iter().sum::<u32>(), 8);
    assert_eq!(wins[0], 8);
    assert_eq!(reg.lock().unwrap().len(), 0);
}

#[test]
fn webcam_start_registers_session() {
    let mut reg: SessionRegistry<&str> = SessionRegistry::new();
    let plan = plan_recording(
        RecordingRequest::Webcam {
            output_path: None,
            device_index: Some(2),
            audio_device_index: None,
        },
        "/tmp",
        1700000000,
    );
    assert_eq!(plan.output_path, "/tmp/clipforge-webcam-1700000000.mp4");
    assert_eq!(plan.args[7], "2:");
    let r = finish_start(&mut reg, 4242, "mock", plan.output_path.clone(), ProbeOutcome::Running)
        .unwrap();
    assert_eq!(r.process_id, 4242);
    assert_eq!(r.output_path, "/tmp/clipforge-webcam-1700000000.mp4");
    assert_eq!(reg.len(), 1);
    assert!(reg.contains(4242));
}

#[test]
fn start_that_exits_is_not_registered() {
    let mut reg: SessionRegistry<()> = SessionRegistry::new();
    let r = finish_start(
        &mut reg,
        5,
        (),
        "o.mp4".to_string(),
        ProbeOutcome::Exited {
            status: "exit status: 1".to_string(),
            stderr: "Unknown input format".to_string(),
        },
    );
    let e = r.unwrap_err();
    assert_eq!(
        e.message(),
        "FFmpeg exited immediately with status exit status: 1. Error output: Unknown input format"
    );
    assert_eq!(reg.len(), 0);

    let r = finish_start(
        &mut reg,
        5,
        (),
        "o.mp4".to_string(),
        ProbeOutcome::Exited { status: "exit status: 1".to_string(), stderr: String::new() },
    );
    assert_eq!(r.unwrap_err().message(), "FFmpeg exited immediately with status exit status: 1");

    let r = finish_start(&mut reg, 5, (), "o.mp4".to_string(), ProbeOutcome::CheckFailed("busy".to_string()));
    assert_eq!(r.unwrap_err(), RecorderError::StatusCheckFailed("busy".to_string()));
    assert_eq!(reg.len(), 0);
}

#[test]
fn stop_unknown_session_is_not_found() {
    let mut reg: SessionRegistry<u8> = SessionRegistry::new();
    reg.insert(1, 0, "a.mp4".to_string());
    let e = begin_stop(&mut reg, 999).unwrap_err();
    assert_eq!(e, RecorderError::SessionNotFound(999));
    assert_eq!(e.message(), "Recording process with ID 999 not found");
    assert_eq!(reg.len(), 1);
    assert!(reg.contains(1));
}

#[test]
fn stop_with_empty_output_reports_diagnostics() {
    let mut reg: SessionRegistry<u8> = SessionRegistry::new();
    reg.insert(31, 0, "/tmp/e.mp4".to_string());
    let (_h, path) = begin_stop(&mut reg, 31).unwrap();
    assert_eq!(reg.len(), 0);
    assert_eq!(next_stop_action(StopEvent::Claimed, true), StopAction::Interrupt);
    assert_eq!(
        next_stop_action(StopEvent::InterruptSent { delivered: true }, true),
        StopAction::AwaitGrace
    );
    assert_eq!(next_stop_action(StopEvent::GraceOver { exited: true }, true), StopAction::Reap);
    assert_eq!(next_stop_action(StopEvent::Reaped, true), StopAction::Settle);
    assert_eq!(next_stop_action(StopEvent::Settled, true), StopAction::Inspect);
    let e = conclude_stop(
        path,
        OutputFile::Sized(0),
        Ok("exit status: 255".to_string()),
        "Error opening output file".to_string(),
    )
    .unwrap_err();
    assert_eq!(e, RecorderError::EmptyOutput { stderr: "Error opening output file".to_string() });
    assert_eq!(
        e.message(),
        "Recording file exists but is empty (0 bytes). FFmpeg may have failed to record. Stderr: Error opening output file"
    );
    let e = RecorderError::EmptyOutput { stderr: String::new() };
    assert!(e.message().ends_with("Stderr: No error output"));
}

#[test]
fn stop_paths_to_termination() {
    assert_eq!(next_stop_action(StopEvent::Claimed, false), StopAction::Kill);
    assert_eq!(
        next_stop_action(StopEvent::InterruptSent { delivered: false }, true),
        StopAction::Kill
    );
    assert_eq!(next_stop_action(StopEvent::GraceOver { exited: false }, true), StopAction::Kill);
    assert_eq!(next_stop_action(StopEvent::Killed, true), StopAction::Reap);
}

#[test]
fn stop_with_saved_file_succeeds() {
    let r = conclude_stop("/tmp/ok.mp4".to_string(), OutputFile::Sized(1), Ok("s".to_string()), String::new())
        .unwrap();
    assert!(r.success);
    assert_eq!(r.file_path, "/tmp/ok.mp4");
    assert_eq!(r.message, "Recording saved successfully");
}

#[test]
fn stop_with_missing_file_reports_status() {
    let e = conclude_stop(
        "/tmp/m.mp4".to_string(),
        OutputFile::Absent,
        Ok("signal: 9 (SIGKILL)".to_string()),
        "boom".to_string(),
    )
    .unwrap_err();
    assert_eq!(
        e.message(),
        "Recording file not found at '/tmp/m.mp4'.\nProcess exited with status: signal: 9 (SIGKILL)\nFFmpeg stderr output:\nboom"
    );
    let e = conclude_stop("/tmp/m.mp4".to_string(), OutputFile::Absent, Ok("0".to_string()), String::new())
        .unwrap_err();
    assert_eq!(e.message(), "Recording file not found at '/tmp/m.mp4'.\nProcess exited with status: 0");
    let e = conclude_stop("/x".to_string(), OutputFile::Absent, Err("no child".to_string()), String::new())
        .unwrap_err();
    assert_eq!(e.message(), "Recording file not found at '/x'.\nFailed to wait for process: no child");
}

#[test]
fn remaining_error_messages() {
    assert_eq!(
        RecorderError::ToolUnavailable(ToolUse::ScreenRecording).message(),
        "FFmpeg is not installed or not found in PATH. Please install FFmpeg to use screen recording."
    );
    assert_eq!(
        RecorderError::ToolUnavailable(ToolUse::WebcamRecording).message(),
        "FFmpeg is not installed or not found in PATH. Please install FFmpeg to use webcam recording."
    );
    assert_eq!(
        RecorderError::ToolUnavailable(ToolUse::DeviceListing).message(),
        "FFmpeg is not installed or not found in PATH. Please install FFmpeg to list audio devices."
    );
    assert_eq!(RecorderError::PathUnavailable.message(), "Failed to create temp file path");
    assert_eq!(
        RecorderError::LaunchFailed("No such file".to_string()).message(),
        "Failed to start FFmpeg process: No such file. Make sure FFmpeg is installed and available in PATH."
    );
    assert_eq!(
        RecorderError::StatusCheckFailed("x".to_string()).message(),
        "Failed to check FFmpeg process status: x"
    );
    assert_eq!(RecorderError::ListingFailed("y".to_string()).message(), "Failed to run FFmpeg: y");
    let cases = [
        (ExportStep::Read, "Failed to read source file: e"),
        (ExportStep::Create, "Failed to create destination file: e"),
        (ExportStep::Write, "Failed to write to destination: e"),
        (ExportStep::Sync, "Failed to sync file: e"),
    ];
    for (step, want) in cases {
        assert_eq!(RecorderError::ExportFailed { step, cause: "e".to_string() }.message(), want);
    }
}

#[test]
fn replies_to_the_interface() {
    assert_eq!(greet("Ada"), "Hello, Ada! You've been greeted from Rust!");
    let s = screen_recording_permission(true);
    assert!(!s.has_permission);
    assert!(s.message.contains("getDisplayMedia()"));
    let s = screen_recording_permission(false);
    assert!(s.has_permission);
    assert_eq!(s.message, "Screen recording permissions not applicable on this platform");
    let m = microphone_permission(true);
    assert!(!m.has_permission);
    assert!(m.message.contains("getUserMedia()"));
    let m = microphone_permission(false);
    assert!(m.has_permission);
    assert_eq!(m.message, "Microphone permissions not applicable on this platform");
    let e = export_completed("/out/v.mp4".to_string());
    assert!(e.success);
    assert_eq!(e.message, "Export completed successfully");
    assert_eq!(e.output_path, Some("/out/v.mp4".to_string()));
}
