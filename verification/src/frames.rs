//! What a reader of frames is handed, and how a decoded sample becomes a frame.

use vstd::prelude::*;

use crate::error::{FrameResult, VideoError};

verus! {

/// What the frame that a blocking read returns is, given what the frame
/// channel produced: the queued result, or `None` once every sender is gone.
pub open spec fn frame_received(received: Option<FrameResult>) -> FrameResult {
    match received {
        Some(frame) => frame,
        None => Err(VideoError::RecvError()),
    }
}

/// The frame that a blocking read returns, given what the frame channel
/// produced: the queued result itself, or `RecvError` when the channel
/// has no sender left.
pub fn received_frame(received: Option<FrameResult>) -> (frame: FrameResult)
    ensures
        frame == frame_received(received),
        received matches Some(queued) ==> frame == queued,
        received is None ==> frame == Err::<Vec<u8>, VideoError>(VideoError::RecvError()),
{
    match received {
        Some(frame) => frame,
        None => Err(VideoError::RecvError()),
    }
}

/// A blocking read hands the reader whatever the channel delivered,
/// unchanged, whether a frame or an error; only a channel without senders
/// makes it report `RecvError` of its own.
pub proof fn lemma_read_passes_frames_through(queued: FrameResult)
    ensures
        frame_received(Some(queued)) == queued,
        frame_received(None) == Err::<Vec<u8>, VideoError>(VideoError::RecvError()),
        frame_received(Some(queued)) is Ok <==> queued is Ok,
        queued matches Ok(bytes) ==> frame_received(Some(queued)) matches Ok(got) && got@ == bytes@,
{
}

/// One non-blocking poll of the frame channel.
#[derive(Debug)]
pub enum Polled {
    /// A queued frame result was taken.
    Received(FrameResult),
    /// Nothing is queued right now.
    Empty,
    /// Nothing is queued and no sender is left.
    Disconnected,
}

/// What a drain of the frame channel does after one poll.
#[derive(Debug)]
pub enum DrainStep {
    /// Poll again; the latest frame result so far is held.
    Continue(Option<FrameResult>),
    /// Stop polling and return the held value.
    Finish(Option<FrameResult>),
}

/// The step a drain takes after `polled`, holding `latest` so far: a newer
/// frame replaces the held one, an empty channel ends the drain with what is
/// held, and a channel without senders ends it with `RecvError`.
pub open spec fn drain_step_of(latest: Option<FrameResult>, polled: Polled) -> DrainStep {
    match polled {
        Polled::Received(frame) => DrainStep::Continue(Some(frame)),
        Polled::Empty => DrainStep::Finish(latest),
        Polled::Disconnected => DrainStep::Finish(Some(Err(VideoError::RecvError()))),
    }
}

/// The step a non-blocking read takes after one poll of the frame channel.
pub fn drain_step(latest: Option<FrameResult>, polled: Polled) -> (step: DrainStep)
    ensures
        step == drain_step_of(latest, polled),
        polled is Empty ==> step == DrainStep::Finish(latest),
        polled matches Polled::Received(frame) ==> step == DrainStep::Continue(Some(frame)),
        polled is Disconnected ==> step == DrainStep::Finish(
            Some(Err::<Vec<u8>, VideoError>(VideoError::RecvError())),
        ),
{
    match polled {
        Polled::Received(frame) => DrainStep::Continue(Some(frame)),
        Polled::Empty => DrainStep::Finish(latest),
        Polled::Disconnected => DrainStep::Finish(Some(Err(VideoError::RecvError()))),
    }
}

/// Each poll decides the drain on its own: a poll that finds the channel
/// empty ends the drain at once with the value held, whatever it is; a
/// received frame never ends the drain and becomes the held value, whatever
/// was held before; a channel without senders ends it with `RecvError`.
pub proof fn lemma_drain_step_decides(latest: Option<FrameResult>, frame: FrameResult)
    ensures
        drain_step_of(latest, Polled::Empty) == DrainStep::Finish(latest),
        drain_step_of(latest, Polled::Received(frame)) == DrainStep::Continue(Some(frame)),
        drain_step_of(latest, Polled::Disconnected) == DrainStep::Finish(
            Some(Err::<Vec<u8>, VideoError>(VideoError::RecvError())),
        ),
        drain_step_of(latest, Polled::Empty) is Finish,
        !(drain_step_of(latest, Polled::Received(frame)) is Finish),
{
}

/// What a drain that starts from `latest` returns when its polls yield
/// `polls` in order: `Some(result)` when a step finishes it with `result`,
/// and `None` when the polls run out before any step finishes it.
pub open spec fn drained(latest: Option<FrameResult>, polls: Seq<Polled>) -> Option<
    Option<FrameResult>,
>
    decreases polls.len(),
{
    if polls.len() == 0 {
        None
    } else {
        match drain_step_of(latest, polls[0]) {
            DrainStep::Continue(held) => drained(held, polls.drop_first()),
            DrainStep::Finish(result) => Some(result),
        }
    }
}

/// The polls of a channel that holds `frames` and then nothing more.
pub open spec fn queued_then_empty(frames: Seq<FrameResult>) -> Seq<Polled> {
    frames.map_values(|frame: FrameResult| Polled::Received(frame)).push(Polled::Empty)
}

/// A non-blocking read of a channel that holds `frames` and then nothing
/// ends at the empty poll and returns the most recently queued frame result,
/// or `None` when nothing was queued: the older results are skipped.
pub proof fn lemma_drain_returns_latest(frames: Seq<FrameResult>)
    ensures
        drained(None, queued_then_empty(frames)) == Some(
            if frames.len() == 0 {
                None::<FrameResult>
            } else {
                Some(frames.last())
            },
        ),
{
    lemma_drain_from(None, frames);
}

/// Draining a channel that holds `frames` then nothing, while holding
/// `latest`, ends with the last of `frames`, or `latest` when there are none.
proof fn lemma_drain_from(latest: Option<FrameResult>, frames: Seq<FrameResult>)
    ensures
        drained(latest, queued_then_empty(frames)) == Some(
            if frames.len() == 0 {
                latest
            } else {
                Some(frames.last())
            },
        ),
    decreases frames.len(),
{
    let polls = queued_then_empty(frames);
    if frames.len() == 0 {
        assert(polls[0] == Polled::Empty);
    } else {
        let rest = frames.drop_first();
        assert(polls[0] == Polled::Received(frames[0]));
        assert(polls.drop_first() =~= queued_then_empty(rest));
        lemma_drain_from(Some(frames[0]), rest);
        if rest.len() > 0 {
            assert(rest.last() == frames.last());
        }
    }
}

/// A drain ends with `RecvError` as soon as the channel is found without
/// senders, whatever it held before.
pub proof fn lemma_drain_disconnected(latest: Option<FrameResult>, polls: Seq<Polled>)
    requires
        polls.len() > 0,
        polls[0] is Disconnected,
    ensures
        drained(latest, polls) == Some(Some(Err::<Vec<u8>, VideoError>(VideoError::RecvError()))),
{
}

/// The steps of handing a decoded sample to the reader of frames, in order.
#[derive(Debug, Copy, Clone, PartialEq, Eq, Structural)]
pub enum SampleStep {
    /// Pulling the sample out of the appsink.
    PullSample,
    /// Taking the buffer out of the sample.
    GetBuffer,
    /// Copying the buffer into the bytes of a frame.
    CopyToSlice,
    /// Sending the frame to the reader.
    SendFrame,
}

/// What the appsink callback reports to GStreamer for one sample.
#[derive(Debug, Copy, Clone, PartialEq, Eq, Structural)]
pub enum FlowOutcome {
    /// The frame reached the reader.
    Delivered,
    /// No sample could be pulled: the stream is over.
    EndOfStream,
    /// A later step failed.
    Failed,
}

/// The report of one sample: the flow result, and the message of the error
/// posted on the appsink, if one is.
#[derive(Debug, Copy, Clone)]
pub struct SampleOutcome {
    pub flow: FlowOutcome,
    pub element_error: Option<&'static str>,
}

/// The report for a sample whose handling stopped at `failed` (`None` when
/// every step succeeded): a sample that cannot be pulled ends the stream
/// quietly; a failure after that posts an error naming the step and fails
/// the flow.
pub fn sample_outcome(failed: Option<SampleStep>) -> (outcome: SampleOutcome)
    ensures
        match failed {
            None => outcome.flow == FlowOutcome::Delivered && outcome.element_error is None,
            Some(SampleStep::PullSample) => {
                outcome.flow == FlowOutcome::EndOfStream && outcome.element_error is None
            },
            Some(SampleStep::GetBuffer) => {
                &&& outcome.flow == FlowOutcome::Failed
                &&& outcome.element_error matches Some(m) && m@
                    == "Failed to get buffer from appsink"@
            },
            Some(SampleStep::CopyToSlice) => {
                &&& outcome.flow == FlowOutcome::Failed
                &&& outcome.element_error matches Some(m) && m@ == "Failed to copy frame to slice"@
            },
            Some(SampleStep::SendFrame) => {
                &&& outcome.flow == FlowOutcome::Failed
                &&& outcome.element_error matches Some(m) && m@ == "Failed to send frame"@
            },
        },
{
    match failed {
        None => SampleOutcome { flow: FlowOutcome::Delivered, element_error: None },
        Some(SampleStep::PullSample) => SampleOutcome {
            flow: FlowOutcome::EndOfStream,
            element_error: None,
        },
        Some(SampleStep::GetBuffer) => SampleOutcome {
            flow: FlowOutcome::Failed,
            element_error: Some("Failed to get buffer from appsink"),
        },
        Some(SampleStep::CopyToSlice) => SampleOutcome {
            flow: FlowOutcome::Failed,
            element_error: Some("Failed to copy frame to slice"),
        },
        Some(SampleStep::SendFrame) => SampleOutcome {
            flow: FlowOutcome::Failed,
            element_error: Some("Failed to send frame"),
        },
    }
}

} // verus!
