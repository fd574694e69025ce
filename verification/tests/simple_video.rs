use simple_video::{
    appsink_caps, bus_reaction, classify_stream, control_reaction, drain_step, load_failure,
    received_frame, sample_outcome, sink_chain, BusEvent, ControlChange, DrainStep, FlowOutcome,
    FrameResult, LoadStep, PipelineState, PixelFormat, Polled, SampleStep, StreamKind,
    VideoBuilder, VideoError, FRAME_QUEUE_CAPACITY,
};

#[test]
fn it_works() {
    assert_eq!(2 + 2, 4);
}

fn all_formats() -> Vec<(PixelFormat, &'static str)> {
    vec![
        (PixelFormat::I420, "I420"),
        (PixelFormat::Yv12, "YV12"),
        (PixelFormat::Yuy2, "YUY2"),
        (PixelFormat::Uyvy, "UYVY"),
        (PixelFormat::Ayuv, "AYUV"),
        (PixelFormat::Vuya, "VUYA"),
        (PixelFormat::Rgbx, "RGBx"),
        (PixelFormat::Bgrx, "BGRx"),
        (PixelFormat::Xrgb, "xRGB"),
        (PixelFormat::Xbgr, "xBGR"),
        (PixelFormat::Rgba, "RGBA"),
        (PixelFormat::Bgra, "BGRA"),
        (PixelFormat::Argb, "ARGB"),
        (PixelFormat::Abgr, "ABGR"),
        (PixelFormat::Rgb, "RGB"),
        (PixelFormat::Bgr, "BGR"),
        (PixelFormat::Y41b, "Y41B"),
        (PixelFormat::Y42b, "Y42B"),
        (PixelFormat::Yvyu, "YVYU"),
        (PixelFormat::Y444, "Y444"),
        (PixelFormat::V210, "v210"),
        (PixelFormat::V216, "v216"),
        (PixelFormat::Y210, "Y210"),
        (PixelFormat::Y410, "Y410"),
        (PixelFormat::Nv12, "NV12"),
        (PixelFormat::Nv21, "NV21"),
        (PixelFormat::Gray8, "GRAY8"),
        (PixelFormat::Gray16Be, "GRAY16_BE"),
        (PixelFormat::Gray16Le, "GRAY16_LE"),
        (PixelFormat::V308, "v308"),
        (PixelFormat::Rgb16, "RGB16"),
        (PixelFormat::Bgr16, "BGR16"),
        (PixelFormat::Rgb15, "RGB15"),
        (PixelFormat::Bgr15, "BGR15"),
        (PixelFormat::Uyvp, "UYVP"),
        (PixelFormat::A420, "A420"),
        (PixelFormat::Rgb8P, "RGB8P"),
        (PixelFormat::Yuv9, "YUV9"),
        (PixelFormat::Yvu9, "YVU9"),
        (PixelFormat::Iyu1, "IYU1"),
        (PixelFormat::Argb64, "ARGB64"),
        (PixelFormat::Ayuv64, "AYUV64"),
        (PixelFormat::R210, "r210"),
        (PixelFormat::I420_10Be, "I420_10BE"),
        (PixelFormat::I420_10Le, "I420_10LE"),
        (PixelFormat::I422_10Be, "I422_10BE"),
        (PixelFormat::I422_10lE, "I422_10LE"),
        (PixelFormat::Y444_10Be, "Y444_10BE"),
        (PixelFormat::Y444_10Le, "Y444_10LE"),
        (PixelFormat::Gbr, "GBR"),
        (PixelFormat::Gbr10Be, "GBR_10BE"),
        (PixelFormat::Gbr10Le, "GBR_10LE"),
        (PixelFormat::Nv16, "NV16"),
        (PixelFormat::Nv24, "NV24"),
        (PixelFormat::Nv12_64Z32, "NV12_64Z32"),
        (PixelFormat::A420_10Be, "A420_10BE"),
        (PixelFormat::A420_10Le, "A420_10LE"),
        (PixelFormat::A422_10Be, "A422_10BE"),
        (PixelFormat::A422_10Le, "A422_10LE"),
        (PixelFormat::A444_10Be, "A444_10BE"),
        (PixelFormat::A444_10Le, "A444_10LE"),
        (PixelFormat::Nv61, "NV61"),
        (PixelFormat::P010_10Be, "P010_10BE"),
        (PixelFormat::P010_10Le, "P010_10LE"),
        (PixelFormat::Iyu2, "IYU2"),
        (PixelFormat::Vyuy, "VYUY"),
        (PixelFormat::Gbra, "GBRA"),
        (PixelFormat::Gbra10Be, "GBRA_10BE"),
        (PixelFormat::Gbra10Le, "GBRA_10LE"),
        (PixelFormat::Bgr10A2Le, "BGR10A2_LE"),
        (PixelFormat::Rgb10A2Le, "RGB10A2_LE"),
        (PixelFormat::Gbr12Be, "GBR_12BE"),
        (PixelFormat::Gbr12Le, "GBR_12LE"),
        (PixelFormat::Gbra12Be, "GBRA_12BE"),
        (PixelFormat::Gbra12Le, "GBRA_12LE"),
        (PixelFormat::I420_12Be, "I420_12BE"),
        (PixelFormat::I420_12Le, "I420_12LE"),
        (PixelFormat::I422_12Be, "I422_12BE"),
        (PixelFormat::I422_12Le, "I422_12LE"),
        (PixelFormat::Y444_12Be, "Y444_12BE"),
        (PixelFormat::Y444_12Le, "Y444_12LE"),
        (PixelFormat::Gray10Le32, "GRAY10_LE32"),
        (PixelFormat::Nv12_10Le32, "NV12_10LE32"),
        (PixelFormat::Nv16_10Le32, "NV16_10LE32"),
        (PixelFormat::Nv12_10Le40, "NV12_10LE40"),
    ]
}

#[test]
fn every_format_has_its_gstreamer_name() {
    for (format, name) in all_formats() {
        assert_eq!(format.to_gst_format(), name);
    }
}

#[test]
fn format_names_are_distinct() {
    let formats = all_formats();
    assert_eq!(formats.len(), 85);
    for (i, (a, _)) in formats.iter().enumerate() {
        for (j, (b, _)) in formats.iter().enumerate() {
            if i != j {
                assert_ne!(a.to_gst_format(), b.to_gst_format());
            }
        }
    }
}

#[test]
fn odd_variant_names_map_to_canonical_names() {
    assert_eq!(PixelFormat::I422_10lE.to_gst_format(), "I422_10LE");
    assert_eq!(PixelFormat::Rgbx.to_gst_format(), "RGBx");
    assert_eq!(PixelFormat::V210.to_gst_format(), "v210");
    assert_eq!(PixelFormat::Nv12_10Le40.to_gst_format(), "NV12_10LE40");
}

#[test]
fn builder_defaults_to_rgba() {
    let builder = VideoBuilder::new("test-data/test.webm");
    assert_eq!(builder.path(), "test-data/test.webm");
    assert_eq!(builder.pixel_format().to_gst_format(), "RGBA");
}

#[test]
fn desired_format_replaces_the_format_and_keeps_the_path() {
    let mut builder = VideoBuilder::new("movie.mkv");
    builder.desired_format(PixelFormat::Bgra);
    assert_eq!(builder.pixel_format().to_gst_format(), "BGRA");
    assert_eq!(builder.path(), "movie.mkv");
    builder.desired_format(PixelFormat::Gray8).desired_format(PixelFormat::Nv12);
    assert_eq!(builder.pixel_format().to_gst_format(), "NV12");
}

#[test]
fn error_texts() {
    assert_eq!(VideoError::NoMore().to_string(), "No more frames available");
    assert_eq!(VideoError::RecvError().to_string(), "Failure to receive frame from channel");
    assert_eq!(VideoError::Failure("boom".to_string()).to_string(), "boom");
}

fn failure_text(error: VideoError) -> String {
    match error {
        VideoError::Failure(text) => text,
        other => panic!("expected a failure, got {:?}", other),
    }
}

#[test]
fn load_failures_name_the_step() {
    assert_eq!(
        failure_text(load_failure(LoadStep::SetLocation)),
        "Unable to set location property of src gstreamer element"
    );
    assert_eq!(
        failure_text(load_failure(LoadStep::AddToPipeline)),
        "Failed to link gstreamer elements to pipeline"
    );
    assert_eq!(failure_text(load_failure(LoadStep::LinkElements)), "Failed to link gstreamer elements");
}

#[test]
fn blocking_read_passes_frames_through() {
    let frame = received_frame(Some(Ok(vec![1, 2, 3])));
    assert_eq!(frame.unwrap(), vec![1, 2, 3]);
    assert!(matches!(received_frame(Some(Err(VideoError::NoMore()))), Err(VideoError::NoMore())));
}

#[test]
fn blocking_read_without_sender_is_recv_error() {
    assert!(matches!(received_frame(None), Err(VideoError::RecvError())));
}

fn drain(polls: Vec<Polled>) -> Option<FrameResult> {
    let mut latest = None;
    for polled in polls {
        match drain_step(latest, polled) {
            DrainStep::Continue(held) => latest = held,
            DrainStep::Finish(result) => return result,
        }
    }
    panic!("the polls ran out before the drain ended")
}

#[test]
fn drain_keeps_the_latest_frame() {
    let result = drain(vec![
        Polled::Received(Ok(vec![1])),
        Polled::Received(Err(VideoError::NoMore())),
        Polled::Received(Ok(vec![3, 3])),
        Polled::Empty,
    ]);
    assert_eq!(result.unwrap().unwrap(), vec![3, 3]);
}

#[test]
fn drain_of_empty_channel_is_none() {
    assert!(drain(vec![Polled::Empty]).is_none());
}

#[test]
fn drain_of_disconnected_channel_is_recv_error() {
    let result = drain(vec![Polled::Received(Ok(vec![7])), Polled::Disconnected]);
    assert!(matches!(result, Some(Err(VideoError::RecvError()))));
    assert!(matches!(drain(vec![Polled::Disconnected]), Some(Err(VideoError::RecvError()))));
}

#[test]
fn sample_outcomes() {
    let ok = sample_outcome(None);
    assert_eq!(ok.flow, FlowOutcome::Delivered);
    assert!(ok.element_error.is_none());
    let pull = sample_outcome(Some(SampleStep::PullSample));
    assert_eq!(pull.flow, FlowOutcome::EndOfStream);
    assert!(pull.element_error.is_none());
    let buffer = sample_outcome(Some(SampleStep::GetBuffer));
    assert_eq!(buffer.flow, FlowOutcome::Failed);
    assert_eq!(buffer.element_error, Some("Failed to get buffer from appsink"));
    let copy = sample_outcome(Some(SampleStep::CopyToSlice));
    assert_eq!(copy.flow, FlowOutcome::Failed);
    assert_eq!(copy.element_error, Some("Failed to copy frame to slice"));
    let send = sample_outcome(Some(SampleStep::SendFrame));
    assert_eq!(send.flow, FlowOutcome::Failed);
    assert_eq!(send.element_error, Some("Failed to send frame"));
}

#[test]
fn control_reactions() {
    let play = control_reaction(&ControlChange::Play());
    assert_eq!(play.target, Some(PipelineState::Playing));
    assert!(!play.stop);
    let pause = control_reaction(&ControlChange::Pause());
    assert_eq!(pause.target, Some(PipelineState::Paused));
    assert!(!pause.stop);
    let failure = control_reaction(&ControlChange::Failure("x".to_string()));
    assert_eq!(failure.target, None);
    assert!(failure.stop);
    let done = control_reaction(&ControlChange::Done());
    assert_eq!(done.target, Some(PipelineState::Null));
    assert!(done.stop);
}

#[test]
fn end_of_stream_on_the_bus() {
    let reaction = bus_reaction(BusEvent::EndOfStream);
    assert!(reaction.stop);
    assert_eq!(reaction.controls.len(), 1);
    assert!(matches!(reaction.controls[0], ControlChange::Done()));
    assert!(control_reaction(&reaction.controls[0]).stop);
    assert!(matches!(reaction.final_error, Some(VideoError::NoMore())));
}

#[test]
fn error_on_the_bus() {
    let reaction = bus_reaction(BusEvent::Error("decoder crashed".to_string()));
    assert!(reaction.stop);
    assert_eq!(reaction.controls.len(), 2);
    match &reaction.controls[0] {
        ControlChange::Failure(text) => assert_eq!(text, "decoder crashed"),
        other => panic!("unexpected control {:?}", other),
    }
    assert!(matches!(reaction.controls[1], ControlChange::Done()));
    assert!(control_reaction(&reaction.controls[0]).stop);
    match reaction.final_error {
        Some(VideoError::Failure(text)) => assert_eq!(text, "decoder crashed"),
        other => panic!("unexpected error {:?}", other),
    }
}

#[test]
fn other_bus_messages_are_ignored() {
    let reaction = bus_reaction(BusEvent::Other);
    assert!(!reaction.stop);
    assert!(reaction.controls.is_empty());
    assert!(reaction.final_error.is_none());
}

#[test]
fn streams_are_classified_by_caps_name() {
    assert_eq!(classify_stream(Some("video/x-raw")), StreamKind::Video);
    assert_eq!(classify_stream(Some("audio/x-raw")), StreamKind::Audio);
    assert_eq!(classify_stream(Some("text/x-raw")), StreamKind::Other);
    assert_eq!(classify_stream(Some("video")), StreamKind::Other);
    assert_eq!(classify_stream(Some("")), StreamKind::Other);
    assert_eq!(classify_stream(None), StreamKind::Other);
}

#[test]
fn sink_chains() {
    assert_eq!(sink_chain(StreamKind::Video), vec!["queue", "videoconvert", "videoscale", "appsink"]);
    assert_eq!(
        sink_chain(StreamKind::Audio),
        vec!["queue", "audioconvert", "audioresample", "autoaudiosink"]
    );
    assert!(sink_chain(StreamKind::Other).is_empty());
}

#[test]
fn appsink_asks_for_raw_video_in_the_chosen_format() {
    let (media, format) = appsink_caps(&PixelFormat::Yuy2);
    assert_eq!(media, "video/x-raw");
    assert_eq!(format, "YUY2");
    assert_eq!(FRAME_QUEUE_CAPACITY, 10);
}

fn run_control_loop(changes: Vec<ControlChange>) -> Vec<PipelineState> {
    let mut applied = Vec::new();
    for change in changes {
        let reaction = control_reaction(&change);
        if let Some(state) = reaction.target {
            applied.push(state);
        }
        if reaction.stop {
            break;
        }
    }
    applied
}

#[test]
fn close_is_final() {
    let applied = run_control_loop(vec![
        ControlChange::Play(),
        ControlChange::Pause(),
        ControlChange::Done(),
        ControlChange::Play(),
    ]);
    assert_eq!(applied, vec![PipelineState::Playing, PipelineState::Paused, PipelineState::Null]);
}

#[test]
fn failure_stops_the_control_loop_without_releasing() {
    let applied = run_control_loop(vec![
        ControlChange::Play(),
        ControlChange::Failure("bad".to_string()),
        ControlChange::Done(),
    ]);
    assert_eq!(applied, vec![PipelineState::Playing]);
}

#[test]
fn bus_end_stops_the_control_loop() {
    for event in vec![BusEvent::EndOfStream, BusEvent::Error("e".to_string())] {
        let reaction = bus_reaction(event);
        assert!(reaction.stop);
        assert!(reaction.final_error.is_some());
        assert!(run_control_loop(reaction.controls).len() <= 1);
    }
}
