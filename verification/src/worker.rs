//! The dispatch worker's decision logic. A worker owns one pipe for the
//! lifetime of the process and repeats the same cycle forever: open, read
//! one frame, forward it to the sink, report the outcome. The blocking
//! open, the byte reads and the sink call happen outside the library; this
//! module decides, from what each of those produced, what the worker does
//! next — and that the worker itself always carries on, whatever came
//! back. Errors within a cycle are reported and the next cycle begins; no
//! event reaches a terminal state.

use vstd::prelude::*;
use crate::reader::{ReadError, frame_text, utf8_decoding};
use crate::startup::PipeMapping;

verus! {

/// What one open-and-read cycle on the pipe produced.
pub enum CycleEvent {
    /// A complete frame was accumulated.
    FrameRead { bytes: Vec<u8> },
    /// Opening the pipe failed.
    OpenFailed,
    /// A byte read failed after the pipe was opened.
    ReadFailed,
}

/// The worker's state. A worker has no terminal state: the only state is
/// running, and every step stays there. Process termination is the one way
/// a worker ends.
#[derive(Clone, Copy, PartialEq, Eq, Structural, Debug)]
pub enum WorkerStatus {
    Running,
}

/// What the worker does with the cycle's outcome before the next cycle.
pub enum CycleAction {
    /// Forward the frame's text to the sink as one message on the
    /// worker's channel.
    Deliver { channel: u64, text: String },
    /// Report the failed cycle and move on; nothing is sent.
    Report { error: ReadError },
}

/// What the sink reported for one forwarded message. The sink is shared by
/// all workers and reports success or failure per call; this is that
/// report reduced to what the worker's decision depends on.
#[derive(Clone, Copy, PartialEq, Eq, Structural, Debug)]
pub enum SendOutcome {
    Sent,
    SinkFailed,
}

/// What the worker records after a send: the delivery for observability,
/// or the sink's failure. Neither is retried — the next frame is
/// independent.
pub enum SendRecord {
    Delivered { label: String, text: String },
    ReportSendError,
}

/// Decides what one cycle's outcome leads to. A decoded frame is delivered
/// to the worker's own channel with its decoded text; a failed open, a
/// failed read or an undecodable frame is reported. Every outcome leaves
/// the worker running: a single bad cycle never terminates it, since
/// subsequent writers may still succeed.
pub fn worker_step(mapping: &PipeMapping, event: CycleEvent) -> (r: (WorkerStatus, CycleAction))
    ensures
        r.0 is Running,
        event matches CycleEvent::FrameRead { bytes } ==> {
            &&& utf8_decoding(bytes@) is Some ==> (r.1 matches CycleAction::Deliver {
                channel,
                text,
            } && channel == mapping.channel_id && text@ == utf8_decoding(bytes@)->0)
            &&& utf8_decoding(bytes@) is None ==> (r.1 matches CycleAction::Report { error }
                && error == ReadError::InvalidEncoding)
        },
        event is OpenFailed ==> (r.1 matches CycleAction::Report { error } && error
            == ReadError::OpenFailed),
        event is ReadFailed ==> (r.1 matches CycleAction::Report { error } && error
            == ReadError::ReadFailed),
{
    let action = match event {
        CycleEvent::FrameRead { bytes } => match frame_text(bytes) {
            Ok(text) => CycleAction::Deliver { channel: mapping.channel_id, text },
            Err(error) => CycleAction::Report { error },
        },
        CycleEvent::OpenFailed => CycleAction::Report { error: ReadError::OpenFailed },
        CycleEvent::ReadFailed => CycleAction::Report { error: ReadError::ReadFailed },
    };
    (WorkerStatus::Running, action)
}

/// Decides what a delivered frame's send report leads to. Success records
/// the worker's label with the forwarded text; failure is reported and not
/// retried. Either way the worker keeps running: a failing sink call never
/// crashes the worker, and the next frame on the same pipe is attempted
/// independently.
pub fn after_send(mapping: &PipeMapping, text: String, outcome: SendOutcome) -> (r: (
    WorkerStatus,
    SendRecord,
))
    ensures
        r.0 is Running,
        outcome is Sent ==> (r.1 matches SendRecord::Delivered { label, text: t } && label@
            == mapping.label@ && t@ == text@),
        outcome is SinkFailed ==> r.1 is ReportSendError,
{
    let record = match outcome {
        SendOutcome::Sent => SendRecord::Delivered { label: mapping.label.clone(), text },
        SendOutcome::SinkFailed => SendRecord::ReportSendError,
    };
    (WorkerStatus::Running, record)
}

} // verus!
