//! The two tasks that bridge an instance's socket to its channels: what each
//! does with what it is handed.
//!
//! The tasks themselves read and write the socket. What was read, or is to be
//! written, passes through here.

use vstd::prelude::*;

use crate::terminals::frame::{
    cobs_frame, decode_frame, decoded, encode_frame, ends_only_with_terminator, frames_of, rest_of,
    FrameBuffer, FrameError,
};

verus! {

/// What one read from the socket gave.
#[derive(Debug)]
pub enum ReadOutcome {
    /// Nothing: the peer has closed the connection.
    Closed,
    /// An error of the transport.
    Failed,
    /// The next bytes of the stream, however many.
    Bytes(Vec<u8>),
}

/// What becomes of one frame.
#[derive(Debug)]
pub enum FrameStep {
    /// Its payload is handed on to be deserialised.
    Deliver(Vec<u8>),
    /// It is malformed and dropped; the connection stays open.
    Discard(FrameError),
}

/// What the reading task does next.
#[derive(Debug)]
pub enum ReadStep {
    /// Deal with these frames, in order, and read on.
    Frames(Vec<FrameStep>),
    /// End the task: the connection is closed. What came in after the last
    /// terminator, if anything, is dealt with first.
    End(Option<FrameStep>),
    /// End the task: the transport failed.
    Abort,
}

/// What the writing task does next.
#[derive(Debug)]
pub enum WriteStep {
    /// Skip the message, which could not be serialised, and go on.
    Skip,
    /// Write this frame to the socket as one unit.
    Write(Vec<u8>),
}

impl FrameStep {
    /// The payload that is handed on, or the error for which the frame is
    /// dropped.
    pub open spec fn outcome(self) -> Result<Seq<u8>, FrameError> {
        match self {
            FrameStep::Deliver(payload) => Ok(payload@),
            FrameStep::Discard(e) => Err(e),
        }
    }
}

/// What becomes of each of the frames `frames`.
pub open spec fn outcomes_of(frames: Seq<Seq<u8>>) -> Seq<Result<Seq<u8>, FrameError>> {
    frames.map_values(|f: Seq<u8>| decoded(f))
}

/// The outcomes of the steps `steps`.
pub open spec fn outcomes(steps: Seq<FrameStep>) -> Seq<Result<Seq<u8>, FrameError>> {
    steps.map_values(|s: FrameStep| s.outcome())
}

/// What becomes of the frame `frame`: its payload is handed on, or it is
/// dropped as malformed.
pub fn frame_step(frame: Vec<u8>) -> (r: FrameStep)
    ensures
        r.outcome() == decoded(frame@),
{
    match decode_frame(frame) {
        Ok(payload) => FrameStep::Deliver(payload),
        Err(e) => FrameStep::Discard(e),
    }
}

/// What the reading task does after a read gave `outcome`, where `buffer`
/// holds what came in since the last terminator.
///
/// Bytes are cut into frames at the terminators; each frame gives its payload
/// or is dropped, and the task reads on. When the peer has closed the
/// connection the task ends, after it has dealt with what the buffer still
/// held. When the transport failed the task ends at once.
pub fn read_step(buffer: &mut FrameBuffer, outcome: ReadOutcome) -> (r: ReadStep)
    requires
        old(buffer).wf(),
    ensures
        final(buffer).wf(),
        outcome matches ReadOutcome::Bytes(chunk) ==> {
            &&& r matches ReadStep::Frames(steps)
            &&& outcomes(steps@) == outcomes_of(frames_of(old(buffer)@ + chunk@))
            &&& final(buffer)@ == rest_of(old(buffer)@ + chunk@)
        },
        outcome is Closed ==> {
            &&& r matches ReadStep::End(last)
            &&& final(buffer)@.len() == 0
            &&& last is Some <==> old(buffer)@.len() > 0
            &&& last matches Some(step) ==> step.outcome() == decoded(old(buffer)@)
        },
        outcome is Failed ==> r is Abort && final(buffer)@ == old(buffer)@,
{
    match outcome {
        ReadOutcome::Closed => match buffer.take_rest() {
            Some(rest) => ReadStep::End(Some(frame_step(rest))),
            None => ReadStep::End(None),
        },
        ReadOutcome::Failed => ReadStep::Abort,
        ReadOutcome::Bytes(chunk) => {
            let mut frames = buffer.feed(chunk.as_slice());
            let ghost cut = frames@;
            let n = frames.len();
            let mut steps: Vec<FrameStep> = Vec::new();
            let mut i: usize = 0;
            while i < n
                invariant
                    i <= n,
                    n == cut.len(),
                    frames@.len() == n,
                    steps@.len() == i,
                    forall|j: int| i <= j < n ==> frames@[j]@ == cut[j]@,
                    forall|j: int| 0 <= j < i ==> (#[trigger] steps@[j]).outcome() == decoded(cut[j]@),
                decreases n - i,
            {
                let mut frame: Vec<u8> = Vec::new();
                core::mem::swap(&mut frame, &mut frames[i]);
                steps.push(frame_step(frame));
                i = i + 1;
            }
            assert(outcomes(steps@) =~= outcomes_of(
                crate::terminals::frame::frame_views(cut),
            ));
            ReadStep::Frames(steps)
        },
    }
}

/// What the writing task does with the next message, given its serialised
/// bytes, or `None` where it could not be serialised: the message is skipped,
/// or its frame written. The frame ends with the terminator and holds it
/// nowhere else, whatever the message holds; it is longer than the payload by
/// two bytes or more; and it decodes to the payload.
pub fn write_step(serialized: Option<Vec<u8>>) -> (r: WriteStep)
    ensures
        serialized is None ==> r is Skip,
        serialized matches Some(payload) ==> {
            &&& r matches WriteStep::Write(frame)
            &&& frame@ == cobs_frame(payload@)
            &&& ends_only_with_terminator(frame@)
            &&& frame@.len() >= payload@.len() + 2
            &&& decoded(frame@) == Ok::<Seq<u8>, FrameError>(payload@)
        },
{
    match serialized {
        None => WriteStep::Skip,
        Some(payload) => WriteStep::Write(encode_frame(payload.as_slice())),
    }
}

} // verus!
