# simple_video

Playback of video files with live access to the decoded bytes of each frame,
on GStreamer.

- `src/` is the verified library (Verus): the pixel formats and their
  GStreamer names, the builder, the errors, and every decision the player
  makes: what a frame read returns for each channel outcome, how a sample
  becomes a frame, how the control and bus loops react to their messages,
  and which chain of elements a decoded stream is played through. The laws
  that tie these together are proof functions beside them.
- `app/` runs those decisions on GStreamer: it builds the pipeline, owns the
  worker threads and the channels between them, and provides `Video` and
  `LoadVideo::load`.
- `tests/` exercises the library on concrete values.
