//! The errors of loading and playback, and the outcome of a frame read.

use vstd::prelude::*;

verus! {

/// Represents an error during loading or playback of video.
#[derive(Debug)]
pub enum VideoError {
    /// There are no more frames to be read.
    NoMore(),
    /// There has been a failure during playback or an attempt at it.
    Failure(String),
    /// Reading from one of the internal channels failed.
    RecvError(),
}

/// Represents the result of attempting to read a frame.
pub type FrameResult = Result<Vec<u8>, VideoError>;

/// A `VideoError` with its message taken as a sequence of characters.
pub enum VideoErrorView {
    NoMore,
    Failure(Seq<char>),
    RecvError,
}

impl View for VideoError {
    type V = VideoErrorView;

    open spec fn view(&self) -> VideoErrorView {
        match self {
            VideoError::NoMore() => VideoErrorView::NoMore,
            VideoError::Failure(message) => VideoErrorView::Failure(message@),
            VideoError::RecvError() => VideoErrorView::RecvError,
        }
    }
}

impl VideoErrorView {
    /// The text that describes the error to a user.
    pub open spec fn description(self) -> Seq<char> {
        match self {
            VideoErrorView::NoMore => "No more frames available"@,
            VideoErrorView::Failure(message) => message,
            VideoErrorView::RecvError => "Failure to receive frame from channel"@,
        }
    }
}

impl VideoError {
    /// The text that describes the error to a user.
    pub fn to_string(&self) -> (text: String)
        ensures
            text@ == self@.description(),
            self is NoMore ==> text@ == "No more frames available"@,
            self matches VideoError::Failure(message) ==> text@ == message@,
            self is RecvError ==> text@ == "Failure to receive frame from channel"@,
    {
        match self {
            VideoError::NoMore() => "No more frames available".to_string(),
            VideoError::Failure(message) => message.clone(),
            VideoError::RecvError() => "Failure to receive frame from channel".to_string(),
        }
    }
}

/// The steps of loading a video whose failure ends the load.
#[derive(Debug, Copy, Clone, PartialEq, Eq, Structural)]
pub enum LoadStep {
    /// Setting the `location` property of the file source to the path.
    SetLocation,
    /// Adding the source and the decoder to the pipeline.
    AddToPipeline,
    /// Linking the source to the decoder.
    LinkElements,
}

impl LoadStep {
    /// The message of the error that a failure of this step ends the load with.
    pub open spec fn failure_message(self) -> Seq<char> {
        match self {
            LoadStep::SetLocation => "Unable to set location property of src gstreamer element"@,
            LoadStep::AddToPipeline => "Failed to link gstreamer elements to pipeline"@,
            LoadStep::LinkElements => "Failed to link gstreamer elements"@,
        }
    }
}

/// The error that loading a video returns when `step` fails.
pub fn load_failure(step: LoadStep) -> (error: VideoError)
    ensures
        error@ == VideoErrorView::Failure(step.failure_message()),
        step == LoadStep::SetLocation ==> error@ == VideoErrorView::Failure(
            "Unable to set location property of src gstreamer element"@,
        ),
        step == LoadStep::AddToPipeline ==> error@ == VideoErrorView::Failure(
            "Failed to link gstreamer elements to pipeline"@,
        ),
        step == LoadStep::LinkElements ==> error@ == VideoErrorView::Failure(
            "Failed to link gstreamer elements"@,
        ),
{
    match step {
        LoadStep::SetLocation => VideoError::Failure(
            "Unable to set location property of src gstreamer element".to_string(),
        ),
        LoadStep::AddToPipeline => VideoError::Failure(
            "Failed to link gstreamer elements to pipeline".to_string(),
        ),
        LoadStep::LinkElements => VideoError::Failure(
            "Failed to link gstreamer elements".to_string(),
        ),
    }
}

/// Every failed load step is reported as a `Failure`, and the three steps are
/// told apart by their messages.
pub proof fn lemma_load_failures_distinct(a: LoadStep, b: LoadStep)
    ensures
        a.failure_message() == b.failure_message() <==> a == b,
        a.failure_message().len() > 0,
{
    reveal_strlit("Unable to set location property of src gstreamer element");
    reveal_strlit("Failed to link gstreamer elements to pipeline");
    reveal_strlit("Failed to link gstreamer elements");
    if a != b {
        assert(a.failure_message().len() != b.failure_message().len());
    }
}

} // verus!
