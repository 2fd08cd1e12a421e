use vstd::prelude::*;
use vstd::string::*;

use crate::feature::bitmap::{FrameLayout, VideoFrameBitmapError};
use crate::frame::{channel_samples, is_channel_samples_of, AudioBufferError, AudioChannelCount, AudioChannelDataSamples, AudioSampleRate};
use crate::platform::windows::capture_stream::DirectXPixelFormat;

verus! {

/// A video frame captured on Windows
pub struct WindowsVideoFrame {
    /// The size of the frame pool's frames, in pixels
    pub frame_size: (usize, usize),
    pub pixel_format: DirectXPixelFormat,
    pub frame_id: u64,
    /// The dots per inch of the captured window or monitor
    pub dpi: u32,
    /// The Direct3D feature level of the device that captured the frame
    pub dx_feature_level: u32,
    pub t_capture: std::time::Instant,
    pub t_origin: std::time::Duration,
    pub duration: std::time::Duration,
}

impl WindowsVideoFrame {
    /// The time between the first frame of the stream and this one
    pub fn origin_time(&self) -> (r: std::time::Duration)
        ensures
            r == self.t_origin,
    {
        self.t_origin
    }

    /// The duration of the frame
    pub fn duration(&self) -> (r: std::time::Duration)
        ensures
            r == self.duration,
    {
        self.duration
    }

    /// The instant the frame was captured
    pub fn capture_time(&self) -> (r: std::time::Instant)
        ensures
            r == self.t_capture,
    {
        self.t_capture
    }

    /// The sequence id of the frame
    pub fn frame_id(&self) -> (r: u64)
        ensures
            r == self.frame_id,
    {
        self.frame_id
    }
}

/// The layout in which a Windows frame is copied into a bitmap, from the
/// outcome of getting its surface (the error text when that failed) and the
/// surface's pixel format: only the two packed RGB formats can be copied.
pub fn windows_bitmap_layout(surface: Result<DirectXPixelFormat, String>) -> (r: Result<FrameLayout, VideoFrameBitmapError>)
    ensures
        match surface {
            Err(e) => r matches Err(VideoFrameBitmapError::Other(m)) && m@ == e@,
            Ok(DirectXPixelFormat::B8G8R8A8UIntNormalized) => r == Ok::<FrameLayout, VideoFrameBitmapError>(FrameLayout::Bgra8888),
            Ok(DirectXPixelFormat::R10G10B10A2UIntNormalized) => r == Ok::<FrameLayout, VideoFrameBitmapError>(FrameLayout::ArgbPacked2101010),
            Ok(_) => r matches Err(VideoFrameBitmapError::Other(m)) && m@ == "Unknown or unsupported pixel format on DXGISurface"@,
        },
{
    match surface {
        Err(e) => Err(VideoFrameBitmapError::Other(e)),
        Ok(DirectXPixelFormat::B8G8R8A8UIntNormalized) => Ok(FrameLayout::Bgra8888),
        Ok(DirectXPixelFormat::R10G10B10A2UIntNormalized) => Ok(FrameLayout::ArgbPacked2101010),
        Ok(_) => {
            proof { reveal_strlit("Unknown or unsupported pixel format on DXGISurface"); }
            Err(VideoFrameBitmapError::Other(String::from_str("Unknown or unsupported pixel format on DXGISurface")))
        },
    }
}

/// The steps of reading a Windows frame back into system memory, each of
/// which can fail; creating the staging texture fails with the system's
/// error text
pub enum WindowsReadbackStep {
    SurfaceDescription,
    StagingTexture(String),
    InterfaceAccess,
    SurfaceTexture,
    ImmediateContext,
    MapStaging,
}

/// What a failed readback step reports
pub open spec fn readback_step_message(step: WindowsReadbackStep) -> Seq<char> {
    match step {
        WindowsReadbackStep::SurfaceDescription => "Couldn't get description of frame surface"@,
        WindowsReadbackStep::StagingTexture(e) => "Failed to create texture: "@ + e@,
        WindowsReadbackStep::InterfaceAccess => "Couldn't create surface interface access"@,
        WindowsReadbackStep::SurfaceTexture => "Couldn't create surface texture from surface IDirect3DDxgiInterfaceAccess"@,
        WindowsReadbackStep::ImmediateContext => "Couldn't get immediate d3d11 context"@,
        WindowsReadbackStep::MapStaging => "Couldn't map staging texture"@,
    }
}

/// The error of a failed readback step
pub fn readback_error(step: WindowsReadbackStep) -> (r: VideoFrameBitmapError)
    ensures
        r matches VideoFrameBitmapError::Other(m) && m@ == readback_step_message(step),
{
    proof {
        reveal_strlit("Couldn't get description of frame surface");
        reveal_strlit("Couldn't create surface interface access");
        reveal_strlit("Couldn't create surface texture from surface IDirect3DDxgiInterfaceAccess");
        reveal_strlit("Couldn't get immediate d3d11 context");
        reveal_strlit("Couldn't map staging texture");
    }
    let message = match step {
        WindowsReadbackStep::SurfaceDescription => String::from_str("Couldn't get description of frame surface"),
        WindowsReadbackStep::StagingTexture(e) => String::from_str("Failed to create texture: ").concat(e.as_str()),
        WindowsReadbackStep::InterfaceAccess => String::from_str("Couldn't create surface interface access"),
        WindowsReadbackStep::SurfaceTexture => String::from_str("Couldn't create surface texture from surface IDirect3DDxgiInterfaceAccess"),
        WindowsReadbackStep::ImmediateContext => String::from_str("Couldn't get immediate d3d11 context"),
        WindowsReadbackStep::MapStaging => String::from_str("Couldn't map staging texture"),
    };
    VideoFrameBitmapError::Other(message)
}

/// An audio frame captured on Windows: interleaved 16-bit samples
pub struct WindowsAudioFrame {
    pub data: Vec<i16>,
    pub channel_count: AudioChannelCount,
    pub sample_rate: AudioSampleRate,
    pub duration: std::time::Duration,
    pub origin_time: std::time::Duration,
    pub frame_id: u64,
}

impl WindowsAudioFrame {
    pub fn sample_rate(&self) -> (r: AudioSampleRate)
        ensures
            r == self.sample_rate,
    {
        self.sample_rate
    }

    pub fn channel_count(&self) -> (r: AudioChannelCount)
        ensures
            r == self.channel_count,
    {
        self.channel_count
    }

    pub fn duration(&self) -> (r: std::time::Duration)
        ensures
            r == self.duration,
    {
        self.duration
    }

    pub fn origin_time(&self) -> (r: std::time::Duration)
        ensures
            r == self.origin_time,
    {
        self.origin_time
    }

    pub fn frame_id(&self) -> (r: u64)
        ensures
            r == self.frame_id,
    {
        self.frame_id
    }

    /// The samples of one channel: see [`channel_samples`]
    pub fn audio_channel_buffer(&self, channel: usize) -> (r: Result<AudioChannelDataSamples<i16>, AudioBufferError>)
        ensures
            is_channel_samples_of(r, self.data@, self.channel_count, channel),
    {
        channel_samples(&self.data, self.channel_count, channel)
    }
}

} // verus!
