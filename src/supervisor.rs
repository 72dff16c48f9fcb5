//! The decisions of a recording session's life. Starting: a launched
//! encoder is probed after a short startup window and, if still running,
//! registered. Stopping: the session is taken out of the registry first,
//! then the encoder is interrupted, given a grace period, killed if still
//! running, reaped, and after a settle period its output file is judged.
//!
//! The waiting, signalling and file inspection are done by the caller; the
//! functions here take what those steps observed and say what comes next.
use crate::error::RecorderError;
use crate::model::{RecordingResult, StopRecordingResult};
use crate::registry::SessionRegistry;
use vstd::prelude::*;

verus! {

/// How long a newly launched encoder is given before it is probed.
pub const STARTUP_WINDOW_MS: u64 = 200;

/// How long an interrupted encoder is given to exit on its own.
pub const GRACE_PERIOD_MS: u64 = 500;

/// How long to wait after the encoder exited before its file is judged.
pub const SETTLE_PERIOD_MS: u64 = 1000;

/// What probing a newly launched encoder found.
#[derive(Clone, Debug, PartialEq, Eq)]
pub enum ProbeOutcome {
    /// Still running.
    Running,
    /// Already exited, with this status and diagnostic output.
    Exited { status: String, stderr: String },
    /// The probe itself failed.
    CheckFailed(String),
}

/// What was found at a stopped session's output path.
#[derive(PartialEq, Eq, Structural, Clone, Copy, Debug)]
pub enum OutputFile {
    /// No file, or one whose size could not be read.
    Absent,
    /// A file of this many bytes.
    Sized(u64),
}

/// What has just happened in the stop sequence.
#[derive(PartialEq, Eq, Structural, Clone, Copy, Debug)]
pub enum StopEvent {
    /// The session was taken out of the registry.
    Claimed,
    /// An interrupt was sent, or sending it failed.
    InterruptSent { delivered: bool },
    /// The grace period ended; whether the encoder had exited by then.
    GraceOver { exited: bool },
    /// The encoder was told to terminate.
    Killed,
    /// The encoder has fully exited and its diagnostic output was read.
    Reaped,
    /// The settle period ended.
    Settled,
}

/// What the stop sequence does next.
#[derive(PartialEq, Eq, Structural, Clone, Copy, Debug)]
pub enum StopAction {
    /// Ask the encoder to exit on its own.
    Interrupt,
    /// Wait the grace period, then look whether the encoder exited.
    AwaitGrace,
    /// Terminate the encoder.
    Kill,
    /// Wait until the encoder has exited and read its diagnostic output.
    Reap,
    /// Wait the settle period.
    Settle,
    /// Judge the output file.
    Inspect,
}

/// The step after `e`. Where interrupts are not supported the encoder is
/// terminated at once; an interrupt that could not be sent, or an encoder
/// still running after the grace period, leads to termination as well.
pub open spec fn stop_transition(e: StopEvent, can_interrupt: bool) -> StopAction {
    match e {
        StopEvent::Claimed => if can_interrupt {
            StopAction::Interrupt
        } else {
            StopAction::Kill
        },
        StopEvent::InterruptSent { delivered } => if delivered {
            StopAction::AwaitGrace
        } else {
            StopAction::Kill
        },
        StopEvent::GraceOver { exited } => if exited {
            StopAction::Reap
        } else {
            StopAction::Kill
        },
        StopEvent::Killed => StopAction::Reap,
        StopEvent::Reaped => StopAction::Settle,
        StopEvent::Settled => StopAction::Inspect,
    }
}

/// The step of the stop sequence that follows `e`.
pub fn next_stop_action(e: StopEvent, can_interrupt: bool) -> (r: StopAction)
    ensures
        r == stop_transition(e, can_interrupt),
{
    match e {
        StopEvent::Claimed => if can_interrupt {
            StopAction::Interrupt
        } else {
            StopAction::Kill
        },
        StopEvent::InterruptSent { delivered } => if delivered {
            StopAction::AwaitGrace
        } else {
            StopAction::Kill
        },
        StopEvent::GraceOver { exited } => if exited {
            StopAction::Reap
        } else {
            StopAction::Kill
        },
        StopEvent::Killed => StopAction::Reap,
        StopEvent::Reaped => StopAction::Settle,
        StopEvent::Settled => StopAction::Inspect,
    }
}

/// The event that carrying out `a` produces, where an interrupt is
/// `delivered` or not and the encoder has `exited` by the end of the grace
/// period or not.
pub open spec fn event_after(a: StopAction, delivered: bool, exited: bool) -> StopEvent {
    match a {
        StopAction::Interrupt => StopEvent::InterruptSent { delivered },
        StopAction::AwaitGrace => StopEvent::GraceOver { exited },
        StopAction::Kill => StopEvent::Killed,
        StopAction::Reap => StopEvent::Reaped,
        StopAction::Settle => StopEvent::Settled,
        StopAction::Inspect => StopEvent::Settled,
    }
}

/// The `n`-th action of a stop sequence that starts once the session is
/// claimed.
pub open spec fn nth_stop_action(n: nat, can_interrupt: bool, delivered: bool, exited: bool) -> StopAction
    decreases n,
{
    if n == 0 {
        stop_transition(StopEvent::Claimed, can_interrupt)
    } else {
        stop_transition(
            event_after(nth_stop_action((n - 1) as nat, can_interrupt, delivered, exited), delivered, exited),
            can_interrupt,
        )
    }
}

/// The actions of a whole stop sequence: interrupt where possible, give a
/// delivered interrupt its grace period, terminate the encoder unless it
/// exited within that period, then reap, settle and inspect.
pub open spec fn stop_sequence(can_interrupt: bool, delivered: bool, exited: bool) -> Seq<StopAction> {
    if !can_interrupt {
        seq![StopAction::Kill, StopAction::Reap, StopAction::Settle, StopAction::Inspect]
    } else if !delivered {
        seq![
            StopAction::Interrupt,
            StopAction::Kill,
            StopAction::Reap,
            StopAction::Settle,
            StopAction::Inspect,
        ]
    } else if !exited {
        seq![
            StopAction::Interrupt,
            StopAction::AwaitGrace,
            StopAction::Kill,
            StopAction::Reap,
            StopAction::Settle,
            StopAction::Inspect,
        ]
    } else {
        seq![
            StopAction::Interrupt,
            StopAction::AwaitGrace,
            StopAction::Reap,
            StopAction::Settle,
            StopAction::Inspect,
        ]
    }
}

/// Whatever the encoder does, following `next_stop_action` from the claim
/// takes the steps of `stop_sequence`: it reaches the inspection of the
/// output file after at most six steps, always reaps the encoder first, and
/// terminates it by force exactly when it was not seen to exit after a
/// delivered interrupt.
pub proof fn lemma_stop_sequence(can_interrupt: bool, delivered: bool, exited: bool)
    ensures
        forall|i: int|
            0 <= i < stop_sequence(can_interrupt, delivered, exited).len() ==> nth_stop_action(
                i as nat,
                can_interrupt,
                delivered,
                exited,
            ) == #[trigger] stop_sequence(can_interrupt, delivered, exited)[i],
        stop_sequence(can_interrupt, delivered, exited).last() == StopAction::Inspect,
        stop_sequence(can_interrupt, delivered, exited).contains(StopAction::Reap),
        stop_sequence(can_interrupt, delivered, exited).contains(StopAction::Kill) <==> !(
        can_interrupt && delivered && exited),
{
    reveal_with_fuel(nth_stop_action, 6);
    let s = stop_sequence(can_interrupt, delivered, exited);
    assert(s.contains(StopAction::Reap)) by {
        if !can_interrupt {
            assert(s[1] == StopAction::Reap);
        } else if !delivered {
            assert(s[2] == StopAction::Reap);
        } else if !exited {
            assert(s[3] == StopAction::Reap);
        } else {
            assert(s[2] == StopAction::Reap);
        }
    }
    if !can_interrupt {
        assert(s[0] == StopAction::Kill);
    } else if !delivered {
        assert(s[1] == StopAction::Kill);
    } else if !exited {
        assert(s[2] == StopAction::Kill);
    }
}

/// Completes the start of a session whose encoder was launched as
/// `session_id` and then probed. A running encoder is registered under
/// `session_id` with `output_path`; one that exited or could not be probed
/// leaves the registry as it was.
pub fn finish_start<H>(
    registry: &mut SessionRegistry<H>,
    session_id: u32,
    handle: H,
    output_path: String,
    probe: ProbeOutcome,
) -> (r: Result<RecordingResult, RecorderError>)
    ensures
        match probe {
            ProbeOutcome::Running => {
                &&& r == Ok::<RecordingResult, RecorderError>(
                    (RecordingResult { process_id: session_id, output_path }),
                )
                &&& final(registry)@ == old(registry)@.insert(session_id, (handle, output_path@))
            },
            ProbeOutcome::Exited { status, stderr } => {
                &&& r == Err::<RecordingResult, RecorderError>(
                    RecorderError::ExitedImmediately { status, stderr },
                )
                &&& final(registry)@ == old(registry)@
            },
            ProbeOutcome::CheckFailed(cause) => {
                &&& r == Err::<RecordingResult, RecorderError>(
                    RecorderError::StatusCheckFailed(cause),
                )
                &&& final(registry)@ == old(registry)@
            },
        },
{
    match probe {
        ProbeOutcome::Running => {
            registry.insert(session_id, handle, output_path.clone());
            Ok(RecordingResult { process_id: session_id, output_path })
        },
        ProbeOutcome::Exited { status, stderr } => Err(
            RecorderError::ExitedImmediately { status, stderr },
        ),
        ProbeOutcome::CheckFailed(cause) => Err(RecorderError::StatusCheckFailed(cause)),
    }
}

/// Claims session `session_id` for stopping: takes its handle and output
/// path out of the registry, so no other caller can stop it.
pub fn begin_stop<H>(registry: &mut SessionRegistry<H>, session_id: u32) -> (r: Result<
    (H, String),
    RecorderError,
>)
    ensures
        match r {
            Ok(e) => {
                &&& old(registry)@.contains_key(session_id)
                &&& old(registry)@[session_id] == (e.0, e.1@)
                &&& final(registry)@ == old(registry)@.remove(session_id)
            },
            Err(err) => {
                &&& err == RecorderError::SessionNotFound(session_id)
                &&& !old(registry)@.contains_key(session_id)
                &&& final(registry)@ == old(registry)@
            },
        },
{
    match registry.take(session_id) {
        Some(e) => Ok(e),
        None => Err(RecorderError::SessionNotFound(session_id)),
    }
}

/// Judges a stopped session by its output file: a non-empty file is a
/// saved recording; an empty one, or none, is a failure that carries the
/// encoder's diagnostic output.
pub fn conclude_stop(
    path: String,
    output: OutputFile,
    exit: Result<String, String>,
    stderr: String,
) -> (r: Result<StopRecordingResult, RecorderError>)
    ensures
        match output {
            OutputFile::Sized(n) => if n > 0 {
                match r {
                    Ok(res) => res.success && res.file_path == path && res.message@
                        == "Recording saved successfully"@,
                    Err(_) => false,
                }
            } else {
                r == Err::<StopRecordingResult, RecorderError>(
                    RecorderError::EmptyOutput { stderr },
                )
            },
            OutputFile::Absent => r == Err::<StopRecordingResult, RecorderError>(
                RecorderError::MissingOutput { path, exit, stderr },
            ),
        },
{
    match output {
        OutputFile::Sized(n) => {
            if n > 0 {
                Ok(
                    StopRecordingResult {
                        success: true,
                        file_path: path,
                        message: String::from_str("Recording saved successfully"),
                    },
                )
            } else {
                Err(RecorderError::EmptyOutput { stderr })
            }
        },
        OutputFile::Absent => Err(RecorderError::MissingOutput { path, exit, stderr }),
    }
}

} // verus!
