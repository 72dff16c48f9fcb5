//! The plain values that the backend hands to and takes from its callers.
use vstd::prelude::*;

verus! {

/// A media file on disk.
#[derive(Clone, Debug, PartialEq, Eq)]
pub struct VideoFile {
    pub path: String,
    pub name: String,
    pub size: u64,
}

/// Outcome of copying a finished file to its destination.
#[derive(Clone, Debug, PartialEq, Eq)]
pub struct ExportResult {
    pub success: bool,
    pub message: String,
    pub output_path: Option<String>,
}

/// A recording that has been started: its session identifier and the file it
/// writes.
#[derive(Clone, Debug, PartialEq, Eq)]
pub struct RecordingResult {
    pub process_id: u32,
    pub output_path: String,
}

/// A recording that has been stopped and whose file was found non-empty.
#[derive(Clone, Debug, PartialEq, Eq)]
pub struct StopRecordingResult {
    pub success: bool,
    pub file_path: String,
    pub message: String,
}

/// Advisory permission state reported to the interface.
#[derive(Clone, Debug, PartialEq, Eq)]
pub struct PermissionStatus {
    pub has_permission: bool,
    pub message: String,
}

/// One audio capture device reported by the encoder.
#[derive(Clone, Debug, PartialEq, Eq)]
pub struct AudioDevice {
    pub index: u32,
    pub name: String,
}

impl View for AudioDevice {
    type V = (u32, Seq<char>);

    open spec fn view(&self) -> (u32, Seq<char>) {
        (self.index, self.name@)
    }
}

/// The audio capture devices, in the order the encoder listed them.
#[derive(Clone, Debug, PartialEq, Eq)]
pub struct AudioDeviceList {
    pub devices: Vec<AudioDevice>,
}

/// The index and name of each device in `devs`.
pub open spec fn devices_view(devs: Seq<AudioDevice>) -> Seq<(u32, Seq<char>)> {
    devs.map_values(|d: AudioDevice| d@)
}

impl View for AudioDeviceList {
    type V = Seq<(u32, Seq<char>)>;

    open spec fn view(&self) -> Seq<(u32, Seq<char>)> {
        devices_view(self.devices@)
    }
}

} // verus!
