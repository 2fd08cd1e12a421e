use vstd::prelude::*;
use vstd::string::*;

use crate::capturable_content::{Capturable, CapturableDisplay, CapturableWindow};
use crate::frame::{AudioChannelCount, AudioFrame, AudioSampleRate, VideoFrame};
use crate::platform::macos::capture_stream::{MacosAudioCaptureConfig, MacosCaptureAccessToken, MacosCaptureConfig};
use crate::platform::windows::capture_stream::{WindowsCaptureAccessToken, WindowsCaptureConfig};

verus! {

/// Represents an event in a capture stream
pub enum StreamEvent {
    /// This event is produced when the stream receives a new audio packet
    Audio(AudioFrame),
    /// This event is produced when the stream receives a new video frame
    Video(VideoFrame),
    /// This event is produced when the stream goes idle - IE when no new frames are expected for some time, like when a window minimizes
    Idle,
    /// This event is produced once at the end of the stream
    End,
}

/// This represents an error during a stream, for example a failure to retrieve a video or audio frame
#[derive(Debug, Clone)]
pub enum StreamError {
    Other(String),
}

impl StreamError {
    pub open spec fn display_text(&self) -> Seq<char> {
        match self {
            StreamError::Other(m) => "StreamError::Other(\""@ + m@ + "\")"@,
        }
    }

    /// The display text of the error: `StreamError::Other("<message>")`
    pub fn to_display_string(&self) -> (r: String)
        ensures
            r@ == self.display_text(),
            match self {
                StreamError::Other(m) => r@ == "StreamError::Other(\""@ + m@ + "\")"@,
            },
    {
        match self {
            StreamError::Other(message) => String::from_str("StreamError::Other(\"").concat(message.as_str()).concat("\")"),
        }
    }
}

/// This represents an error when creating a capture stream
#[derive(Debug, Clone)]
pub enum StreamCreateError {
    Other(String),
    /// The supplied pixel format is unsupported by the implementation
    UnsupportedPixelFormat,
    /// Requested features are not authorized
    UnauthorizedFeature(String),
}

impl StreamCreateError {
    pub open spec fn display_text(&self) -> Seq<char> {
        match self {
            StreamCreateError::Other(m) => "StreamCreateError::Other(\""@ + m@ + "\")"@,
            StreamCreateError::UnsupportedPixelFormat => "StreamCreateError::UnsupportedPixelFormat"@,
            StreamCreateError::UnauthorizedFeature(f) => "StreamCreateError::UnauthorizedFeature("@ + f@ + ")"@,
        }
    }

    /// The display text of the error
    pub fn to_display_string(&self) -> (r: String)
        ensures
            r@ == self.display_text(),
            match self {
                StreamCreateError::Other(m) => r@ == "StreamCreateError::Other(\""@ + m@ + "\")"@,
                StreamCreateError::UnsupportedPixelFormat => r@ == "StreamCreateError::UnsupportedPixelFormat"@,
                StreamCreateError::UnauthorizedFeature(f) => r@ == "StreamCreateError::UnauthorizedFeature("@ + f@ + ")"@,
            },
    {
        match self {
            StreamCreateError::Other(message) => String::from_str("StreamCreateError::Other(\"").concat(message.as_str()).concat("\")"),
            StreamCreateError::UnsupportedPixelFormat => String::from_str("StreamCreateError::UnsupportedPixelFormat"),
            StreamCreateError::UnauthorizedFeature(feature) => String::from_str("StreamCreateError::UnauthorizedFeature(").concat(feature.as_str()).concat(")"),
        }
    }
}

/// This represents an error while stopping a stream
#[derive(Debug)]
pub enum StreamStopError {
    Other(String),
    /// The stream was already stopped
    AlreadyStopped,
}

impl StreamStopError {
    /// The display text of the error
    pub fn to_display_string(&self) -> (r: String)
        ensures
            match self {
                StreamStopError::Other(m) => r@ == "StreamStopError::Other(\""@ + m@ + "\")"@,
                StreamStopError::AlreadyStopped => r@ == "StreamStopError::AlreadyStopped"@,
            },
    {
        match self {
            StreamStopError::Other(message) => String::from_str("StreamStopError::Other(\"").concat(message.as_str()).concat("\")"),
            StreamStopError::AlreadyStopped => String::from_str("StreamStopError::AlreadyStopped"),
        }
    }
}

/// Configuration settings for audio streams
#[derive(Copy, Clone, Debug)]
pub struct AudioCaptureConfig {
    pub sample_rate: AudioSampleRate,
    pub channel_count: AudioChannelCount,
    pub impl_capture_audio_config: MacosAudioCaptureConfig,
}

impl AudioCaptureConfig {
    /// Creates a new audio capture config with default settings:
    /// * 24000 Hz
    /// * Mono
    pub fn new() -> (r: Self)
        ensures
            r.sample_rate == AudioSampleRate::Hz24000,
            r.channel_count == AudioChannelCount::Mono,
            !r.impl_capture_audio_config.exclude_current_process_audio,
    {
        AudioCaptureConfig {
            sample_rate: AudioSampleRate::Hz24000,
            channel_count: AudioChannelCount::Mono,
            impl_capture_audio_config: MacosAudioCaptureConfig::new(),
        }
    }
}

/// The pixel format of returned video frames
#[derive(Copy, Clone, Debug, PartialEq, Eq, Structural)]
#[non_exhaustive]
pub enum CapturePixelFormat {
    /// One plane, 4 channels, 8 bits per channel: { b: u8, g: u8, r: u8, a: u8 }, full range: [0, 255]
    Bgra8888,
    /// One plane, 4 channels, 10 bits per color channel, two bits for alpha: { a: u2, r: u10, g: u10, b: u10 }, rgb range: [0, 1023], alpha range: [0, 3]
    Argb2101010,
    /// Two planes:
    /// * 1 channel, luminance (Y), 8 bits per pixel, video range: [16, 240]
    /// * 2 channels, chrominance (CbCr) 8 bits bits per channel per two pixels vertically, range: [0, 255]
    V420,
    /// Two planes:
    /// * 1 channel, luminance (Y), 8 bits per pixel, full range: [0, 255]
    /// * 2 channels, chrominance (CbCr) 8 bits bits per channel per two pixels vertically, range: [0, 255]
    F420,
}

/// The platform extension settings of a capture config
#[derive(Copy, Clone, Debug)]
pub struct ImplCaptureConfig {
    pub macos: MacosCaptureConfig,
    pub windows: WindowsCaptureConfig,
}

impl ImplCaptureConfig {
    /// The default settings of each platform
    pub fn new() -> (r: Self)
        ensures
            r.macos.scale_to_fit,
            r.windows.dxgi_adapter is None,
            r.windows.d3d11_device is None,
    {
        ImplCaptureConfig { macos: MacosCaptureConfig::new(), windows: WindowsCaptureConfig::new() }
    }
}

/// Configuration settings for a capture stream
///
/// The source rectangle and output size are floating-point geometry and are
/// carried beside the config by the platform layer.
#[derive(Clone, Debug)]
pub struct CaptureConfig {
    pub target: Capturable,
    pub show_cursor: bool,
    pub pixel_format: CapturePixelFormat,
    pub capture_audio: Option<AudioCaptureConfig>,
    pub impl_capture_config: ImplCaptureConfig,
    pub buffer_count: usize,
}

/// Represents an error creating the capture config
#[derive(Debug, Clone, Copy, PartialEq, Eq, Structural)]
pub enum CaptureConfigError {
    /// The pixel format is unsupported by the implementation
    UnsupportedPixelFormat,
    /// The buffer count is out of the valid range for the implementation
    InvalidBufferCount,
}

impl CaptureConfigError {
    /// The display text of the error
    pub fn to_display_string(&self) -> (r: String)
        ensures
            match self {
                CaptureConfigError::UnsupportedPixelFormat => r@ == "CaptureConfigError::UnsupportedPixelFormat"@,
                CaptureConfigError::InvalidBufferCount => r@ == "CaptureConfigError::InvalidBufferCount"@,
            },
    {
        match self {
            CaptureConfigError::UnsupportedPixelFormat => String::from_str("CaptureConfigError::UnsupportedPixelFormat"),
            CaptureConfigError::InvalidBufferCount => String::from_str("CaptureConfigError::InvalidBufferCount"),
        }
    }
}

/// The settings a fresh config starts with: no cursor, no audio, three
/// buffers and the platforms' default extension settings.
pub open spec fn is_fresh_config(c: CaptureConfig, pixel_format: CapturePixelFormat) -> bool {
    &&& c.pixel_format == pixel_format
    &&& !c.show_cursor
    &&& c.capture_audio is None
    &&& c.buffer_count == 3
    &&& c.impl_capture_config.macos.scale_to_fit
    &&& c.impl_capture_config.windows.dxgi_adapter is None
    &&& c.impl_capture_config.windows.d3d11_device is None
}

impl CaptureConfig {
    /// Create a capture configuration for a given capturable window
    pub fn with_window(window: CapturableWindow, pixel_format: CapturePixelFormat) -> (r: Result<CaptureConfig, CaptureConfigError>)
        ensures
            r matches Ok(c) && c.target == Capturable::Window(window) && is_fresh_config(c, pixel_format),
    {
        Ok(CaptureConfig {
            target: Capturable::Window(window),
            pixel_format,
            show_cursor: false,
            impl_capture_config: ImplCaptureConfig::new(),
            capture_audio: None,
            buffer_count: 3,
        })
    }

    /// Create a capture configuration for a given capturable display
    pub fn with_display(display: CapturableDisplay, pixel_format: CapturePixelFormat) -> (c: CaptureConfig)
        ensures
            c.target == Capturable::Display(display),
            is_fresh_config(c, pixel_format),
    {
        CaptureConfig {
            target: Capturable::Display(display),
            pixel_format,
            show_cursor: false,
            impl_capture_config: ImplCaptureConfig::new(),
            capture_audio: None,
            buffer_count: 3,
        }
    }

    /// Configure the buffer count - the number of frames in the capture queue.
    ///
    /// Higher numbers mean higher latency, but smoother performance
    pub fn with_buffer_count(self, buffer_count: usize) -> (r: Self)
        ensures
            r == (CaptureConfig { buffer_count, ..self }),
    {
        CaptureConfig { buffer_count, ..self }
    }

    /// Configure whether the cursor is visible in the capture
    pub fn with_show_cursor(self, show_cursor: bool) -> (r: Self)
        ensures
            r == (CaptureConfig { show_cursor, ..self }),
    {
        CaptureConfig { show_cursor, ..self }
    }
}

/// The capture backends the library drives
#[derive(Copy, Clone, Debug, PartialEq, Eq, Structural)]
pub enum Backend {
    Windows,
    Macos,
}

/// The platform part of a capture access token
#[derive(Copy, Clone, Debug)]
pub enum ImplCaptureAccessToken {
    Windows(WindowsCaptureAccessToken),
    Macos(MacosCaptureAccessToken),
}

/// Represents programmatic capture access
#[derive(Copy, Clone, Debug)]
pub struct CaptureAccessToken {
    pub impl_capture_access_token: ImplCaptureAccessToken,
}

impl CaptureAccessToken {
    pub open spec fn spec_allows_borderless(self) -> bool {
        match self.impl_capture_access_token {
            ImplCaptureAccessToken::Windows(t) => t.borderless,
            ImplCaptureAccessToken::Macos(_) => true,
        }
    }

    /// Whether the token allows capture without the capture border
    pub fn allows_borderless(&self) -> (r: bool)
        ensures
            r == self.spec_allows_borderless(),
    {
        match &self.impl_capture_access_token {
            ImplCaptureAccessToken::Windows(t) => t.allows_borderless(),
            ImplCaptureAccessToken::Macos(t) => t.allows_borderless(),
        }
    }
}

} // verus!

verus! {

/// What a stream hands its callback in answer to an event from the OS
pub enum StreamDelivery {
    /// A video frame, with its sequence id
    Video { frame_id: u64 },
    /// An audio frame, with its sequence id
    Audio { frame_id: u64 },
    /// The stream went idle
    Idle,
    /// The stream ended
    End,
    /// The stream failed to produce something
    Error(StreamError),
}

/// A delivery, with the text of an error's message in place of the error
pub enum DeliveryModel {
    Video(u64),
    Audio(u64),
    Idle,
    End,
    Error(Seq<char>),
}

/// A delivery, read as its model
pub open spec fn delivery_model(d: Option<StreamDelivery>) -> Option<DeliveryModel> {
    match d {
        None => None,
        Some(StreamDelivery::Video { frame_id }) => Some(DeliveryModel::Video(frame_id)),
        Some(StreamDelivery::Audio { frame_id }) => Some(DeliveryModel::Audio(frame_id)),
        Some(StreamDelivery::Idle) => Some(DeliveryModel::Idle),
        Some(StreamDelivery::End) => Some(DeliveryModel::End),
        Some(StreamDelivery::Error(StreamError::Other(m))) => Some(DeliveryModel::Error(m@)),
    }
}

/// The value an atomic counter holds after one increment: it wraps to zero
/// after the largest value.
pub open spec fn next_id(x: u64) -> u64 {
    if x == u64::MAX { 0 } else { (x + 1) as u64 }
}

/// The next value of a frame id counter
pub fn increment_id(x: u64) -> (r: u64)
    ensures
        r == next_id(x),
{
    if x == u64::MAX { 0 } else { x + 1 }
}

} // verus!

verus! {

use crate::platform::macos::capture_stream::{MacosStreamBackend, MacosStreamState};
use crate::platform::windows::capture_stream::{WindowsStreamState, windows_close_step, frame_pool_pixel_format, AppCapabilityAccessStatus};

/// What the system reports of capture access: on Mac OS whether capture was
/// allowed before, on Windows whether programmatic and borderless capture
/// are allowed
#[derive(Copy, Clone, Debug, PartialEq, Eq, Structural)]
pub enum AccessCheck {
    Macos { preflight_access: bool },
    Windows { programmatic_access: bool, borderless_access: bool },
}

/// How the system answered a request for capture access: on Mac OS whether
/// access was granted, on Windows the status of the request (`Err` when it
/// could not be made or completed)
#[derive(Copy, Clone, Debug)]
pub enum AccessRequestOutcome {
    Macos { granted: bool },
    Windows(Result<AppCapabilityAccessStatus, ()>),
}

/// The platform part of a capture stream: the state its handlers share
#[derive(Copy, Clone, Debug, PartialEq, Eq, Structural)]
pub enum ImplCaptureStream {
    Macos { state: MacosStreamState, backend: MacosStreamBackend },
    Windows(WindowsStreamState),
}

/// Represents an active capture stream
#[derive(Copy, Clone, Debug, PartialEq, Eq, Structural)]
pub struct CaptureStream {
    pub impl_capture_stream: ImplCaptureStream,
}

/// The pixel formats a backend can capture, in order of preference
pub open spec fn supported_formats(backend: Backend) -> Seq<CapturePixelFormat> {
    match backend {
        Backend::Macos => seq![CapturePixelFormat::V420, CapturePixelFormat::F420, CapturePixelFormat::Bgra8888, CapturePixelFormat::Argb2101010],
        Backend::Windows => seq![CapturePixelFormat::Bgra8888, CapturePixelFormat::Argb2101010],
    }
}

/// What stopping a stream does at once: the delivery to hand its callback,
/// whether its backend is then to be stopped, and whether the stream had
/// stopped before
pub struct StreamStop {
    pub delivery: Option<StreamDelivery>,
    pub stop_backend: bool,
    pub already_stopped: bool,
}

impl CaptureStream {
    /// Test whether the calling application has permission to capture
    /// content: on Mac OS when capture was allowed before, on Windows as
    /// [`WindowsCaptureAccessToken::check_access`] decides.
    pub fn test_access(borderless: bool, check: AccessCheck) -> (r: Option<CaptureAccessToken>)
        ensures
            match check {
                AccessCheck::Macos { preflight_access } =>
                    (r is Some <==> preflight_access)
                    && (r matches Some(t) ==> t.impl_capture_access_token is Macos),
                AccessCheck::Windows { programmatic_access, borderless_access } =>
                    (r is Some <==> (programmatic_access && (!borderless || borderless_access)))
                    && (r matches Some(t) ==> t.impl_capture_access_token == ImplCaptureAccessToken::Windows(
                        WindowsCaptureAccessToken { borderless: borderless || borderless_access })),
            },
    {
        match check {
            AccessCheck::Macos { preflight_access } => {
                if preflight_access {
                    Some(CaptureAccessToken { impl_capture_access_token: ImplCaptureAccessToken::Macos(MacosCaptureAccessToken()) })
                } else {
                    None
                }
            },
            AccessCheck::Windows { programmatic_access, borderless_access } => {
                match WindowsCaptureAccessToken::check_access(borderless, programmatic_access, borderless_access) {
                    Some(token) => Some(CaptureAccessToken { impl_capture_access_token: ImplCaptureAccessToken::Windows(token) }),
                    None => None,
                }
            },
        }
    }

    /// The token a request for capture access gives: on Mac OS a granted
    /// request, on Windows an allowed one, for the access asked for.
    pub fn request_access(borderless: bool, outcome: AccessRequestOutcome) -> (r: Option<CaptureAccessToken>)
        ensures
            match outcome {
                AccessRequestOutcome::Macos { granted } =>
                    (r is Some <==> granted) && (r matches Some(t) ==> t.impl_capture_access_token is Macos),
                AccessRequestOutcome::Windows(status) =>
                    (r is Some <==> status == Ok::<AppCapabilityAccessStatus, ()>(AppCapabilityAccessStatus::Allowed))
                    && (r matches Some(t) ==> t.impl_capture_access_token == ImplCaptureAccessToken::Windows(
                        WindowsCaptureAccessToken { borderless })),
            },
    {
        match outcome {
            AccessRequestOutcome::Macos { granted } => {
                if granted {
                    Some(CaptureAccessToken { impl_capture_access_token: ImplCaptureAccessToken::Macos(MacosCaptureAccessToken()) })
                } else {
                    None
                }
            },
            AccessRequestOutcome::Windows(status) => {
                match WindowsCaptureAccessToken::request_access(borderless, status) {
                    Some(token) => Some(CaptureAccessToken { impl_capture_access_token: ImplCaptureAccessToken::Windows(token) }),
                    None => None,
                }
            },
        }
    }

    /// Gets the backend's supported pixel formats
    pub fn supported_pixel_formats(backend: Backend) -> (r: Vec<CapturePixelFormat>)
        ensures
            r@ == supported_formats(backend),
    {
        match backend {
            Backend::Macos => vec![CapturePixelFormat::V420, CapturePixelFormat::F420, CapturePixelFormat::Bgra8888, CapturePixelFormat::Argb2101010],
            Backend::Windows => vec![CapturePixelFormat::Bgra8888, CapturePixelFormat::Argb2101010],
        }
    }

    /// Starts the state of a new stream on the token's platform: a Mac OS
    /// stream captures a window with a screen capture stream and a display
    /// with a display stream; a Windows stream refuses the YCbCr formats.
    pub fn new(token: CaptureAccessToken, config: &CaptureConfig) -> (r: Result<Self, StreamCreateError>)
        ensures
            match token.impl_capture_access_token {
                ImplCaptureAccessToken::Macos(_) => r matches Ok(s) && s.impl_capture_stream == ImplCaptureStream::Macos {
                    state: MacosStreamState { stopped: false, video_frame_id_counter: 0, audio_frame_id_counter: 0 },
                    backend: if config.target is Window { MacosStreamBackend::Window } else { MacosStreamBackend::Display },
                },
                ImplCaptureAccessToken::Windows(_) =>
                    if config.pixel_format == CapturePixelFormat::Bgra8888 || config.pixel_format == CapturePixelFormat::Argb2101010 {
                        r matches Ok(s) && s.impl_capture_stream == ImplCaptureStream::Windows(WindowsStreamState {
                            closed: false,
                            frame_id_counter: 0,
                            audio_frame_id_counter: 0,
                            first_frame_time: None,
                            last_frame_time: None,
                        })
                    } else {
                        r matches Err(StreamCreateError::UnsupportedPixelFormat)
                    },
            },
    {
        match token.impl_capture_access_token {
            ImplCaptureAccessToken::Macos(_) => {
                let backend = match &config.target {
                    Capturable::Window(_) => MacosStreamBackend::Window,
                    Capturable::Display(_) => MacosStreamBackend::Display,
                };
                Ok(CaptureStream { impl_capture_stream: ImplCaptureStream::Macos { state: MacosStreamState::new(), backend } })
            },
            ImplCaptureAccessToken::Windows(_) => {
                match frame_pool_pixel_format(config.pixel_format) {
                    Ok(_) => Ok(CaptureStream { impl_capture_stream: ImplCaptureStream::Windows(WindowsStreamState::new()) }),
                    Err(e) => Err(e),
                }
            },
        }
    }

    /// Stops the capture: a stream that has not stopped before delivers its
    /// end and stops its backend; a stream stopped before does neither.
    pub fn stop(&mut self) -> (r: StreamStop)
        ensures
            match old(self).impl_capture_stream {
                ImplCaptureStream::Macos { state, backend } => {
                    &&& final(self).impl_capture_stream == ImplCaptureStream::Macos { state: MacosStreamState { stopped: true, ..state }, backend }
                    &&& delivery_model(r.delivery) == (if state.stopped { None } else { Some(DeliveryModel::End) })
                    &&& r.stop_backend == !state.stopped
                    &&& r.already_stopped == state.stopped
                },
                ImplCaptureStream::Windows(state) => {
                    &&& final(self).impl_capture_stream == ImplCaptureStream::Windows(windows_close_step(state).0)
                    &&& delivery_model(r.delivery) == windows_close_step(state).1
                    &&& r.stop_backend == !state.closed
                    &&& r.already_stopped == state.closed
                },
            },
    {
        match &mut self.impl_capture_stream {
            ImplCaptureStream::Macos { state, backend: _ } => {
                let (delivery, stop_backend) = state.stop();
                StreamStop { delivery, stop_backend, already_stopped: !stop_backend }
            },
            ImplCaptureStream::Windows(state) => {
                let already_stopped = state.closed;
                let delivery = state.stop();
                StreamStop { delivery, stop_backend: !already_stopped, already_stopped }
            },
        }
    }

    /// The result of a stop, from what the stop did and whether the backend
    /// then stopped cleanly: a second stop reports that the stream was
    /// already stopped; otherwise a Mac OS display stream that failed to
    /// stop and a Windows session that failed to close give an error.
    pub fn stop_result(&self, stop: &StreamStop, backend_stopped: bool) -> (r: Result<(), StreamStopError>)
        ensures
            stop.already_stopped ==> r matches Err(StreamStopError::AlreadyStopped),
            !stop.already_stopped && backend_stopped ==> r is Ok,
            !stop.already_stopped && !backend_stopped ==> match self.impl_capture_stream {
                ImplCaptureStream::Macos { backend: MacosStreamBackend::Window, .. } => r is Ok,
                ImplCaptureStream::Macos { backend: MacosStreamBackend::Display, .. } =>
                    r matches Err(StreamStopError::Other(m)) && m@ == "Unkown"@,
                ImplCaptureStream::Windows(_) =>
                    r matches Err(StreamStopError::Other(m)) && m@ == "Failed to close capture session"@,
            },
    {
        match &self.impl_capture_stream {
            ImplCaptureStream::Macos { state: _, backend } =>
                crate::platform::macos::capture_stream::stop_result(*backend, stop.already_stopped, backend_stopped),
            ImplCaptureStream::Windows(_) =>
                crate::platform::windows::capture_stream::stop_result(stop.already_stopped, backend_stopped),
        }
    }
}

} // verus!
