//! The control loop that drives the pipeline, and the watch over the
//! pipeline's bus that tells the control loop and the reader how playback ended.

use vstd::prelude::*;

use crate::error::{VideoError, VideoErrorView};

verus! {

/// A message to the control loop of a playing video.
#[derive(Debug)]
pub enum ControlChange {
    /// Start or resume playback.
    Play(),
    /// Pause playback.
    Pause(),
    /// Playback failed with the given message.
    Failure(String),
    /// Playback is over; release the pipeline.
    Done(),
}

/// A `ControlChange` with its message taken as a sequence of characters.
pub enum ControlView {
    Play,
    Pause,
    Failure(Seq<char>),
    Done,
}

impl View for ControlChange {
    type V = ControlView;

    open spec fn view(&self) -> ControlView {
        match self {
            ControlChange::Play() => ControlView::Play,
            ControlChange::Pause() => ControlView::Pause,
            ControlChange::Failure(message) => ControlView::Failure(message@),
            ControlChange::Done() => ControlView::Done,
        }
    }
}

/// The states the control loop puts the pipeline in.
#[derive(Debug, Copy, Clone, PartialEq, Eq, Structural)]
pub enum PipelineState {
    Playing,
    Paused,
    Null,
}

/// What the control loop does with one message: the state it puts the
/// pipeline in, if any, and whether it then stops.
#[derive(Debug, Copy, Clone, PartialEq, Eq, Structural)]
pub struct ControlReaction {
    pub target: Option<PipelineState>,
    pub stop: bool,
}

/// The reaction of the control loop to `change`: play and pause move the
/// pipeline and keep the loop running; a failure stops the loop and leaves
/// the pipeline as it is; done releases the pipeline and stops the loop.
pub open spec fn control_reaction_of(change: ControlView) -> ControlReaction {
    match change {
        ControlView::Play => ControlReaction { target: Some(PipelineState::Playing), stop: false },
        ControlView::Pause => ControlReaction { target: Some(PipelineState::Paused), stop: false },
        ControlView::Failure(_) => ControlReaction { target: None, stop: true },
        ControlView::Done => ControlReaction { target: Some(PipelineState::Null), stop: true },
    }
}

/// What the control loop does with `change`.
pub fn control_reaction(change: &ControlChange) -> (reaction: ControlReaction)
    ensures
        reaction == control_reaction_of(change@),
        change is Play ==> reaction.target == Some(PipelineState::Playing) && !reaction.stop,
        change is Pause ==> reaction.target == Some(PipelineState::Paused) && !reaction.stop,
        change is Failure ==> reaction.target is None && reaction.stop,
        change is Done ==> reaction.target == Some(PipelineState::Null) && reaction.stop,
{
    match change {
        ControlChange::Play() => ControlReaction { target: Some(PipelineState::Playing), stop: false },
        ControlChange::Pause() => ControlReaction { target: Some(PipelineState::Paused), stop: false },
        ControlChange::Failure(_) => ControlReaction { target: None, stop: true },
        ControlChange::Done() => ControlReaction { target: Some(PipelineState::Null), stop: true },
    }
}

/// A message seen on the pipeline's bus, as far as the watch tells them apart.
#[derive(Debug)]
pub enum BusEvent {
    /// The stream has ended.
    EndOfStream,
    /// The pipeline reported an error with the given text.
    Error(String),
    /// Any other message, such as a state change.
    Other,
}

/// A `BusEvent` with its text taken as a sequence of characters.
pub enum BusEventView {
    EndOfStream,
    Error(Seq<char>),
    Other,
}

impl View for BusEvent {
    type V = BusEventView;

    open spec fn view(&self) -> BusEventView {
        match self {
            BusEvent::EndOfStream => BusEventView::EndOfStream,
            BusEvent::Error(text) => BusEventView::Error(text@),
            BusEvent::Other => BusEventView::Other,
        }
    }
}

/// What the bus watch does with one message: the messages it sends to the
/// control loop, in order, the error it hands the reader of frames, if any,
/// and whether it then stops watching.
#[derive(Debug)]
pub struct BusReaction {
    pub controls: Vec<ControlChange>,
    pub final_error: Option<VideoError>,
    pub stop: bool,
}

/// The control messages the bus watch sends for `event`.
pub open spec fn bus_controls_of(event: BusEventView) -> Seq<ControlView> {
    match event {
        BusEventView::EndOfStream => seq![ControlView::Done],
        BusEventView::Error(text) => seq![ControlView::Failure(text), ControlView::Done],
        BusEventView::Other => seq![],
    }
}

/// The error the bus watch hands the reader of frames for `event`.
pub open spec fn bus_final_error_of(event: BusEventView) -> Option<VideoErrorView> {
    match event {
        BusEventView::EndOfStream => Some(VideoErrorView::NoMore),
        BusEventView::Error(text) => Some(VideoErrorView::Failure(text)),
        BusEventView::Other => None,
    }
}

/// Whether the bus watch stops after `event`.
pub open spec fn bus_stops(event: BusEventView) -> bool {
    !(event is Other)
}

/// What the bus watch does with `event`: at the end of the stream it tells
/// the control loop that playback is done and the reader that no frames are
/// left; on an error it passes the error's text to both; other messages are
/// ignored.
pub fn bus_reaction(event: BusEvent) -> (reaction: BusReaction)
    ensures
        reaction.controls@.map_values(|c: ControlChange| c@) == bus_controls_of(event@),
        match reaction.final_error {
            Some(e) => bus_final_error_of(event@) == Some(e@),
            None => bus_final_error_of(event@) is None,
        },
        reaction.stop == bus_stops(event@),
        event is EndOfStream ==> {
            &&& reaction.stop
            &&& reaction.controls@.len() == 1
            &&& reaction.controls@[0] is Done
            &&& reaction.final_error matches Some(e) && e is NoMore
        },
        event matches BusEvent::Error(text) ==> {
            &&& reaction.stop
            &&& reaction.controls@.len() == 2
            &&& reaction.controls@[0] matches ControlChange::Failure(m) && m@ == text@
            &&& reaction.controls@[1] is Done
            &&& reaction.final_error matches Some(e) && e matches VideoError::Failure(m) && m@ == text@
        },
        event is Other ==> {
            &&& !reaction.stop
            &&& reaction.controls@.len() == 0
            &&& reaction.final_error is None
        },
{
    match event {
        BusEvent::EndOfStream => {
            let controls = vec![ControlChange::Done()];
            assert(controls@.map_values(|c: ControlChange| c@) =~= seq![ControlView::Done]);
            BusReaction { controls, final_error: Some(VideoError::NoMore()), stop: true }
        },
        BusEvent::Error(text) => {
            let reported = text.clone();
            let controls = vec![ControlChange::Failure(text), ControlChange::Done()];
            assert(controls@.map_values(|c: ControlChange| c@) =~= bus_controls_of(event@));
            BusReaction { controls, final_error: Some(VideoError::Failure(reported)), stop: true }
        },
        BusEvent::Other => {
            let controls: Vec<ControlChange> = Vec::new();
            assert(controls@.map_values(|c: ControlChange| c@) =~= seq![]);
            BusReaction { controls, final_error: None, stop: false }
        },
    }
}

/// The bus watch stops exactly when the first control message it sends stops
/// the control loop: the two loops end together, whether the stream ended or
/// the pipeline failed.
pub proof fn lemma_bus_and_control_stop_together(event: BusEventView)
    ensures
        bus_stops(event) <==> (bus_controls_of(event).len() > 0 && control_reaction_of(
            bus_controls_of(event)[0],
        ).stop),
{
}

/// When the bus watch stops, the reader of frames is handed an error that
/// says why: `NoMore` at the end of the stream, or the pipeline's own text.
pub proof fn lemma_bus_stop_reaches_reader(event: BusEventView)
    ensures
        bus_stops(event) <==> bus_final_error_of(event) is Some,
        event matches BusEventView::Error(text) ==> bus_final_error_of(event) == Some(
            VideoErrorView::Failure(text),
        ) && bus_controls_of(event)[0] == ControlView::Failure(text),
{
}

/// The pipeline states that the control loop applies, in order, when it
/// receives `changes` in order: it stops at the first message that stops it,
/// and nothing after that message is applied.
pub open spec fn applied_states(changes: Seq<ControlView>) -> Seq<PipelineState>
    decreases changes.len(),
{
    if changes.len() == 0 {
        seq![]
    } else {
        let reaction = control_reaction_of(changes[0]);
        let applied = match reaction.target {
            Some(state) => seq![state],
            None => seq![],
        };
        if reaction.stop {
            applied
        } else {
            applied + applied_states(changes.drop_first())
        }
    }
}

/// Closing a video cannot be undone: once the control loop receives `Done`
/// (with no stopping message before it), it releases the pipeline and applies
/// nothing that is sent afterwards.
pub proof fn lemma_close_is_final(before: Seq<ControlView>, after: Seq<ControlView>)
    requires
        forall|i: int| 0 <= i < before.len() ==> !(#[trigger] control_reaction_of(before[i])).stop,
    ensures
        applied_states(before + seq![ControlView::Done] + after) == applied_states(before).push(
            PipelineState::Null,
        ),
    decreases before.len(),
{
    let changes = before + seq![ControlView::Done] + after;
    if before.len() == 0 {
        assert(changes[0] == ControlView::Done);
    } else {
        let rest = before.drop_first();
        assert(!control_reaction_of(before[0]).stop);
        assert(changes[0] == before[0]);
        assert(changes.drop_first() =~= rest + seq![ControlView::Done] + after);
        assert forall|i: int| 0 <= i < rest.len() implies !(#[trigger] control_reaction_of(
            rest[i],
        )).stop by {
            assert(rest[i] == before[i + 1]);
        }
        lemma_close_is_final(rest, after);
    }
}

/// Play and pause move the pipeline and keep the control loop running;
/// a failure, whatever its message, stops the loop without moving the
/// pipeline to any state; done stops the loop after releasing the pipeline.
/// Exactly the failure and done messages stop the loop.
pub proof fn lemma_control_reactions(message: Seq<char>, change: ControlView)
    ensures
        control_reaction_of(ControlView::Failure(message)).target is None,
        control_reaction_of(ControlView::Failure(message)).stop,
        control_reaction_of(ControlView::Play) == (ControlReaction {
            target: Some(PipelineState::Playing),
            stop: false,
        }),
        control_reaction_of(ControlView::Pause) == (ControlReaction {
            target: Some(PipelineState::Paused),
            stop: false,
        }),
        control_reaction_of(ControlView::Done) == (ControlReaction {
            target: Some(PipelineState::Null),
            stop: true,
        }),
        control_reaction_of(change).stop <==> (change is Failure || change is Done),
        control_reaction_of(change).target is None <==> change is Failure,
{
}

/// At the end of the stream the bus watch sends only `Done` and hands the
/// reader `NoMore`; on an error with text `t` it sends a failure carrying
/// `t`, then `Done`, and hands the reader a failure carrying `t`; every
/// other message is ignored.
pub proof fn lemma_bus_reactions(text: Seq<char>)
    ensures
        bus_controls_of(BusEventView::EndOfStream) == seq![ControlView::Done],
        bus_final_error_of(BusEventView::EndOfStream) == Some(VideoErrorView::NoMore),
        bus_stops(BusEventView::EndOfStream),
        bus_controls_of(BusEventView::Error(text)) == seq![
            ControlView::Failure(text),
            ControlView::Done,
        ],
        bus_final_error_of(BusEventView::Error(text)) == Some(VideoErrorView::Failure(text)),
        bus_stops(BusEventView::Error(text)),
        bus_controls_of(BusEventView::Other).len() == 0,
        bus_final_error_of(BusEventView::Other) is None,
        !bus_stops(BusEventView::Other),
{
}

} // verus!
