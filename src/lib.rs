//! Backend of a screen and webcam recorder: builds encoder command lines,
//! tracks the recording sessions it started, decides each step of starting
//! and stopping them, and reads the encoder's audio device listing.
pub mod command;
pub mod devices;
pub mod error;
pub mod model;
pub mod registry;
pub mod status;
pub mod supervisor;
pub mod text;

pub use command::{
    default_output_path, pip_args, pip_position_of, plan_recording, screen_args, webcam_args,
    PipPosition, RecordingMode, RecordingPlan, RecordingRequest,
};
pub use devices::parse_audio_devices;
pub use error::{ExportStep, RecorderError, ToolUse};
pub use model::{
    AudioDevice, AudioDeviceList, ExportResult, PermissionStatus, RecordingResult,
    StopRecordingResult, VideoFile,
};
pub use registry::SessionRegistry;
pub use status::{export_completed, greet, microphone_permission, screen_recording_permission};
pub use supervisor::{
    begin_stop, conclude_stop, finish_start, next_stop_action, OutputFile, ProbeOutcome,
    StopAction, StopEvent,
};
