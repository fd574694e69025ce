//! Playback of video files with access to the decoded bytes of each frame.
//!
//! This crate holds the decisions of the player: which GStreamer format a
//! pixel layout is requested as, how a builder is configured, what the
//! reader of frames is handed for each channel outcome, how the control
//! and bus loops react to their messages, and which sink chain a decoded
//! stream is given.

pub mod builder;
pub mod control;
pub mod error;
pub mod formats;
pub mod frames;
pub mod pipeline;

pub use builder::{VideoBuilder, VideoBuilderView};
pub use control::{
    bus_reaction, control_reaction, BusEvent, BusEventView, BusReaction, ControlChange,
    ControlReaction, ControlView, PipelineState,
};
pub use error::{load_failure, FrameResult, LoadStep, VideoError, VideoErrorView};
pub use formats::PixelFormat;
pub use frames::{
    drain_step, received_frame, sample_outcome, DrainStep, FlowOutcome, Polled, SampleOutcome,
    SampleStep,
};
pub use pipeline::{appsink_caps, classify_stream, sink_chain, StreamKind, FRAME_QUEUE_CAPACITY};
