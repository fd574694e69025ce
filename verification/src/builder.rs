//! Configuration of a video before it is loaded.

use vstd::prelude::*;

use crate::formats::PixelFormat;

verus! {

/// What a `VideoBuilder` holds: the file to play and the layout that
/// decoded frames are converted to.
pub struct VideoBuilderView {
    pub path: Seq<char>,
    pub pixel_format: PixelFormat,
}

/// Used to build a video and to choose the pixel format of its frames.
pub struct VideoBuilder {
    path: String,
    pixel_format: PixelFormat,
}

impl View for VideoBuilder {
    type V = VideoBuilderView;

    closed spec fn view(&self) -> VideoBuilderView {
        VideoBuilderView { path: self.path@, pixel_format: self.pixel_format }
    }
}

impl VideoBuilder {
    /// A builder for the video at `path`; frames default to RGBA.
    pub fn new(path: &str) -> (builder: VideoBuilder)
        ensures
            builder@ == (VideoBuilderView { path: path@, pixel_format: PixelFormat::Rgba }),
    {
        VideoBuilder { path: path.to_string(), pixel_format: PixelFormat::Rgba }
    }

    /// Sets the format that video frames will be converted to.
    pub fn desired_format(&mut self, format: PixelFormat) -> (builder: &mut Self)
        ensures
            (*builder)@ == (VideoBuilderView { path: old(self)@.path, pixel_format: format }),
            *final(self) == *final(builder),
    {
        self.pixel_format = format;
        self
    }

    /// The path of the video file.
    pub fn path(&self) -> (path: &str)
        ensures
            path@ == self@.path,
    {
        self.path.as_str()
    }

    /// The format that frames will be converted to.
    pub fn pixel_format(&self) -> (format: PixelFormat)
        ensures
            format == self@.pixel_format,
    {
        self.pixel_format
    }
}

} // verus!
