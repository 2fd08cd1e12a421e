use vstd::prelude::*;

verus! {

/// Mac OS specific settings of a capture config
#[derive(Copy, Clone, Debug)]
pub struct MacosCaptureConfig {
    /// Whether to scale content to the output size
    pub scale_to_fit: bool,
}

impl MacosCaptureConfig {
    /// Content is scaled to the output size by default
    pub fn new() -> (r: Self)
        ensures
            r.scale_to_fit,
    {
        MacosCaptureConfig { scale_to_fit: true }
    }
}

/// Mac OS specific settings of an audio capture config
#[derive(Copy, Clone, Debug)]
pub struct MacosAudioCaptureConfig {
    pub exclude_current_process_audio: bool,
}

impl MacosAudioCaptureConfig {
    /// The current process's audio is captured by default
    pub fn new() -> (r: Self)
        ensures
            !r.exclude_current_process_audio,
    {
        MacosAudioCaptureConfig { exclude_current_process_audio: false }
    }
}

/// Capture access on Mac OS
#[derive(Clone, Copy, Debug)]
pub struct MacosCaptureAccessToken();

impl MacosCaptureAccessToken {
    /// Mac OS capture never draws a border
    pub fn allows_borderless(&self) -> (r: bool)
        ensures
            r,
    {
        true
    }
}

} // verus!

verus! {

use crate::capture_stream::{StreamDelivery, StreamError, DeliveryModel, delivery_model, next_id, increment_id, StreamStopError, CapturePixelFormat, StreamCreateError};
use crate::platform::macos::objc_wrap::{SCStreamOutputType, SCFrameStatus, SCStreamCallbackError, CGDisplayStreamFrameStatus, SCStreamPixelFormat};
use crate::text::{decimal_text, signed_decimal_string};
use vstd::string::*;

/// A callback from a screen capture stream: an output of some kind, with the
/// status number found in the sample's first attachment (none when the sample
/// has no attachments or no status), or a failure.
pub enum SCStreamCallback {
    Output { output_type: SCStreamOutputType, frame_status: Option<i32> },
    Failure(SCStreamCallbackError),
}

/// The state a Mac OS stream's callbacks share: whether the stream stopped,
/// and the next video and audio frame ids.
#[derive(Copy, Clone, Debug, PartialEq, Eq, Structural)]
pub struct MacosStreamState {
    pub stopped: bool,
    pub video_frame_id_counter: u64,
    pub audio_frame_id_counter: u64,
}

/// The message of an internal stream failure
pub open spec fn internal_failure_message(description: Seq<char>, reason: Seq<char>, code: int, domain: Seq<char>) -> Seq<char> {
    "Internal stream failure: [description: "@ + description + ", reason: "@ + reason + ", code: "@
        + decimal_text(code) + ", domain: "@ + domain + "]"@
}

/// The callback of a screen capture stream, as a function from the shared
/// state and the callback to the new state and what the stream delivers.
///
/// Audio samples only advance the audio counter. A complete frame is
/// delivered with the next video id unless the stream stopped; an idle or
/// suspended status delivers idle unless the stream stopped; a stopped status
/// or a stream-stopped failure ends the stream once. A failed copy is
/// delivered as an error, stopped or not.
pub open spec fn sc_stream_step(s: MacosStreamState, cb: SCStreamCallback) -> (MacosStreamState, Option<DeliveryModel>) {
    match cb {
        SCStreamCallback::Output { output_type: SCStreamOutputType::Audio, .. } =>
            (MacosStreamState { audio_frame_id_counter: next_id(s.audio_frame_id_counter), ..s }, None),
        SCStreamCallback::Output { output_type: SCStreamOutputType::Screen, frame_status } => {
            match frame_status {
                None => (s, None),
                Some(code) => match SCFrameStatus::spec_from_i32(code) {
                    Some(SCFrameStatus::Complete) => if s.stopped {
                        (s, None)
                    } else {
                        (
                            MacosStreamState { video_frame_id_counter: next_id(s.video_frame_id_counter), ..s },
                            Some(DeliveryModel::Video(s.video_frame_id_counter)),
                        )
                    },
                    Some(SCFrameStatus::Suspended) | Some(SCFrameStatus::Idle) => if s.stopped {
                        (s, None)
                    } else {
                        (s, Some(DeliveryModel::Idle))
                    },
                    Some(SCFrameStatus::Stopped) => if s.stopped {
                        (s, None)
                    } else {
                        (MacosStreamState { stopped: true, ..s }, Some(DeliveryModel::End))
                    },
                    _ => (s, None),
                },
            }
        },
        SCStreamCallback::Failure(SCStreamCallbackError::StreamStopped) => if s.stopped {
            (s, None)
        } else {
            (MacosStreamState { stopped: true, ..s }, Some(DeliveryModel::End))
        },
        SCStreamCallback::Failure(SCStreamCallbackError::SampleBufferCopyFailed) =>
            (s, Some(DeliveryModel::Error("Failed to copy sample buffer"@))),
        SCStreamCallback::Failure(SCStreamCallbackError::Other { description, reason, code, domain }) =>
            (s, Some(DeliveryModel::Error(internal_failure_message(description@, reason@, code as int, domain@)))),
    }
}

/// The callback of a display stream: a complete frame takes the next video
/// id and is delivered unless the stream stopped; idle is delivered unless
/// the stream stopped; stopped ends the stream once; a blank frame is dropped.
pub open spec fn display_stream_step(s: MacosStreamState, status: CGDisplayStreamFrameStatus) -> (MacosStreamState, Option<DeliveryModel>) {
    match status {
        CGDisplayStreamFrameStatus::Complete => {
            let s1 = MacosStreamState { video_frame_id_counter: next_id(s.video_frame_id_counter), ..s };
            if s.stopped { (s1, None) } else { (s1, Some(DeliveryModel::Video(s.video_frame_id_counter))) }
        },
        CGDisplayStreamFrameStatus::Idle => if s.stopped { (s, None) } else { (s, Some(DeliveryModel::Idle)) },
        CGDisplayStreamFrameStatus::Stopped => if s.stopped {
            (s, None)
        } else {
            (MacosStreamState { stopped: true, ..s }, Some(DeliveryModel::End))
        },
        CGDisplayStreamFrameStatus::Blank => (s, None),
    }
}

impl SCFrameStatus {
    pub open spec fn spec_from_i32(x: i32) -> Option<SCFrameStatus> {
        if x == 0 {
            Some(SCFrameStatus::Complete)
        } else if x == 1 {
            Some(SCFrameStatus::Idle)
        } else if x == 2 {
            Some(SCFrameStatus::Blank)
        } else if x == 3 {
            Some(SCFrameStatus::Suspended)
        } else if x == 4 {
            Some(SCFrameStatus::Started)
        } else if x == 5 {
            Some(SCFrameStatus::Stopped)
        } else {
            None
        }
    }
}

impl MacosStreamState {
    /// A fresh stream: running, with both counters at zero
    pub fn new() -> (r: Self)
        ensures
            r == (MacosStreamState { stopped: false, video_frame_id_counter: 0, audio_frame_id_counter: 0 }),
    {
        MacosStreamState { stopped: false, video_frame_id_counter: 0, audio_frame_id_counter: 0 }
    }

    /// Handles a callback of a screen capture stream: see [`sc_stream_step`]
    pub fn on_sc_stream_callback(&mut self, callback: SCStreamCallback) -> (r: Option<StreamDelivery>)
        ensures
            (*final(self), delivery_model(r)) == sc_stream_step(*old(self), callback),
    {
        match callback {
            SCStreamCallback::Output { output_type: SCStreamOutputType::Audio, .. } => {
                self.audio_frame_id_counter = increment_id(self.audio_frame_id_counter);
                None
            },
            SCStreamCallback::Output { output_type: SCStreamOutputType::Screen, frame_status } => {
                let code = match frame_status {
                    None => return None,
                    Some(code) => code,
                };
                match SCFrameStatus::from_i32(code) {
                    None => None,
                    Some(SCFrameStatus::Complete) => {
                        if self.stopped {
                            return None;
                        }
                        let frame_id = self.video_frame_id_counter;
                        self.video_frame_id_counter = increment_id(frame_id);
                        Some(StreamDelivery::Video { frame_id })
                    },
                    Some(SCFrameStatus::Suspended) | Some(SCFrameStatus::Idle) => {
                        if self.stopped {
                            return None;
                        }
                        Some(StreamDelivery::Idle)
                    },
                    Some(SCFrameStatus::Stopped) => {
                        if self.stopped {
                            return None;
                        }
                        self.stopped = true;
                        Some(StreamDelivery::End)
                    },
                    Some(_) => None,
                }
            },
            SCStreamCallback::Failure(SCStreamCallbackError::StreamStopped) => {
                if self.stopped {
                    return None;
                }
                self.stopped = true;
                Some(StreamDelivery::End)
            },
            SCStreamCallback::Failure(SCStreamCallbackError::SampleBufferCopyFailed) => {
                proof { reveal_strlit("Failed to copy sample buffer"); }
                Some(StreamDelivery::Error(StreamError::Other(String::from_str("Failed to copy sample buffer"))))
            },
            SCStreamCallback::Failure(SCStreamCallbackError::Other { description, reason, code, domain }) => {
                let message = String::from_str("Internal stream failure: [description: ")
                    .concat(description.as_str())
                    .concat(", reason: ")
                    .concat(reason.as_str())
                    .concat(", code: ")
                    .concat(signed_decimal_string(code as i64).as_str())
                    .concat(", domain: ")
                    .concat(domain.as_str())
                    .concat("]");
                Some(StreamDelivery::Error(StreamError::Other(message)))
            },
        }
    }

    /// Handles a frame status of a display stream: see [`display_stream_step`]
    pub fn on_display_stream_frame(&mut self, status: CGDisplayStreamFrameStatus) -> (r: Option<StreamDelivery>)
        ensures
            (*final(self), delivery_model(r)) == display_stream_step(*old(self), status),
    {
        match status {
            CGDisplayStreamFrameStatus::Complete => {
                let frame_id = self.video_frame_id_counter;
                self.video_frame_id_counter = increment_id(frame_id);
                if self.stopped {
                    None
                } else {
                    Some(StreamDelivery::Video { frame_id })
                }
            },
            CGDisplayStreamFrameStatus::Idle => {
                if self.stopped { None } else { Some(StreamDelivery::Idle) }
            },
            CGDisplayStreamFrameStatus::Stopped => {
                if self.stopped {
                    None
                } else {
                    self.stopped = true;
                    Some(StreamDelivery::End)
                }
            },
            CGDisplayStreamFrameStatus::Blank => None,
        }
    }

    /// Stops the stream: a running stream is marked stopped and delivers its
    /// end, and its backend must then be stopped (`true`); a stopped stream
    /// delivers nothing and its backend is left alone (`false`).
    pub fn stop(&mut self) -> (r: (Option<StreamDelivery>, bool))
        ensures
            final(self).stopped,
            final(self).video_frame_id_counter == old(self).video_frame_id_counter,
            final(self).audio_frame_id_counter == old(self).audio_frame_id_counter,
            !old(self).stopped ==> delivery_model(r.0) == Some(DeliveryModel::End) && r.1,
            old(self).stopped ==> r.0 is None && !r.1,
    {
        if self.stopped {
            (None, false)
        } else {
            self.stopped = true;
            (Some(StreamDelivery::End), true)
        }
    }
}

/// The kind of backend a Mac OS stream runs on
#[derive(Copy, Clone, Debug, PartialEq, Eq, Structural)]
pub enum MacosStreamBackend {
    /// A screen capture stream, for windows
    Window,
    /// A display stream, for displays
    Display,
}

/// The result of stopping a Mac OS stream, from whether it had stopped
/// before and whether its backend stopped cleanly: a stream stopped before
/// reports that; otherwise a window stream always stops, and a display
/// stream that failed to stop gives an error.
pub fn stop_result(backend: MacosStreamBackend, already_stopped: bool, backend_stopped: bool) -> (r: Result<(), StreamStopError>)
    ensures
        already_stopped ==> r matches Err(StreamStopError::AlreadyStopped),
        !already_stopped && (backend == MacosStreamBackend::Window || backend_stopped) ==> r is Ok,
        !already_stopped && (backend == MacosStreamBackend::Display && !backend_stopped) ==> (r matches Err(StreamStopError::Other(m)) && m@ == "Unkown"@),
{
    if already_stopped {
        return Err(StreamStopError::AlreadyStopped);
    }
    match backend {
        MacosStreamBackend::Window => Ok(()),
        MacosStreamBackend::Display => {
            if backend_stopped {
                Ok(())
            } else {
                proof { reveal_strlit("Unkown"); }
                Err(StreamStopError::Other(String::from_str("Unkown")))
            }
        },
    }
}

} // verus!

verus! {

use crate::capture_stream::CaptureConfig;
use crate::frame::{AudioChannelCount, AudioSampleRate};
use crate::platform::macos::objc_wrap::{SCStreamColorMatrix, SCStreamSampleRate};

/// The stream pixel format that captures a given pixel format
pub open spec fn sc_pixel_format_of(f: CapturePixelFormat) -> SCStreamPixelFormat {
    match f {
        CapturePixelFormat::Bgra8888 => SCStreamPixelFormat::BGRA8888,
        CapturePixelFormat::Argb2101010 => SCStreamPixelFormat::L10R,
        CapturePixelFormat::V420 => SCStreamPixelFormat::V420,
        CapturePixelFormat::F420 => SCStreamPixelFormat::F420,
    }
}

/// A stream is configured with the Core Video pixel code of the requested
/// format, its four characters read from last to first in memory: `BGRA`
/// for BGRA, `l10r` for packed 10-bit ARGB, `420v` for video-range 4:2:0,
/// `420f` for full-range 4:2:0; different formats get different codes.
pub proof fn law_stream_pixel_code_names_format(f: CapturePixelFormat, other: CapturePixelFormat)
    ensures
        ({
            let code = sc_pixel_format_of(f).spec_ostype();
            let name: Seq<char> = seq![code[3] as char, code[2] as char, code[1] as char, code[0] as char];
            name == match f {
                CapturePixelFormat::Bgra8888 => seq!['B', 'G', 'R', 'A'],
                CapturePixelFormat::Argb2101010 => seq!['l', '1', '0', 'r'],
                CapturePixelFormat::V420 => seq!['4', '2', '0', 'v'],
                CapturePixelFormat::F420 => seq!['4', '2', '0', 'f'],
            }
        }),
        f != other ==> sc_pixel_format_of(f) != sc_pixel_format_of(other),
{
}

impl SCStreamPixelFormat {
    /// The stream pixel format of a capture pixel format; every capture
    /// pixel format has one on Mac OS.
    pub fn try_from_capture_pixel_format(value: CapturePixelFormat) -> (r: Result<SCStreamPixelFormat, StreamCreateError>)
        ensures
            r == Ok::<SCStreamPixelFormat, StreamCreateError>(sc_pixel_format_of(value)),
    {
        match value {
            CapturePixelFormat::Bgra8888 => Ok(SCStreamPixelFormat::BGRA8888),
            CapturePixelFormat::Argb2101010 => Ok(SCStreamPixelFormat::L10R),
            CapturePixelFormat::F420 => Ok(SCStreamPixelFormat::F420),
            CapturePixelFormat::V420 => Ok(SCStreamPixelFormat::V420),
        }
    }
}

/// The pixel format a stream is configured with, and whether it needs the
/// BT.709 color matrix: the YCbCr formats do.
pub fn stream_pixel_format(f: CapturePixelFormat) -> (r: (SCStreamPixelFormat, bool))
    ensures
        r.0 == sc_pixel_format_of(f),
        r.1 <==> (f == CapturePixelFormat::V420 || f == CapturePixelFormat::F420),
{
    match f {
        CapturePixelFormat::Bgra8888 => (SCStreamPixelFormat::BGRA8888, false),
        CapturePixelFormat::Argb2101010 => (SCStreamPixelFormat::L10R, false),
        CapturePixelFormat::V420 => (SCStreamPixelFormat::V420, true),
        CapturePixelFormat::F420 => (SCStreamPixelFormat::F420, true),
    }
}

/// The stream sample rate of an audio sample rate
pub open spec fn sc_sample_rate_of(r: AudioSampleRate) -> SCStreamSampleRate {
    match r {
        AudioSampleRate::Hz8000 => SCStreamSampleRate::R8000,
        AudioSampleRate::Hz16000 => SCStreamSampleRate::R16000,
        AudioSampleRate::Hz24000 => SCStreamSampleRate::R24000,
        AudioSampleRate::Hz48000 => SCStreamSampleRate::R48000,
    }
}

/// A stream captures audio at the rate that was asked for, in samples per
/// second, and different requested rates give different stream rates.
pub proof fn law_stream_sample_rate_is_requested_rate(r: AudioSampleRate, other: AudioSampleRate)
    ensures
        sc_sample_rate_of(r).spec_isize() == match r {
            AudioSampleRate::Hz8000 => 8000isize,
            AudioSampleRate::Hz16000 => 16000isize,
            AudioSampleRate::Hz24000 => 24000isize,
            AudioSampleRate::Hz48000 => 48000isize,
        },
        r != other ==> sc_sample_rate_of(r) != sc_sample_rate_of(other),
{
}

/// The audio settings of a screen capture stream
#[derive(Copy, Clone, Debug, PartialEq, Eq, Structural)]
pub struct SCStreamAudioSettings {
    pub channel_count: isize,
    pub exclude_current_process_audio: bool,
    pub sample_rate: SCStreamSampleRate,
}

/// The settings a screen capture stream is configured with, apart from its
/// floating-point geometry and frame interval
#[derive(Copy, Clone, Debug, PartialEq, Eq, Structural)]
pub struct SCStreamSettings {
    pub pixel_format: SCStreamPixelFormat,
    pub color_matrix: Option<SCStreamColorMatrix>,
    pub scales_to_fit: bool,
    pub queue_depth: isize,
    pub show_cursor: bool,
    /// `None` when audio is not captured
    pub audio: Option<SCStreamAudioSettings>,
}

/// The screen capture stream settings of a capture config
pub fn sc_stream_settings(config: &CaptureConfig) -> (r: SCStreamSettings)
    ensures
        r.pixel_format == sc_pixel_format_of(config.pixel_format),
        r.color_matrix == (if config.pixel_format == CapturePixelFormat::V420 || config.pixel_format == CapturePixelFormat::F420 {
            Some(SCStreamColorMatrix::ItuR709_2)
        } else {
            None
        }),
        r.scales_to_fit == config.impl_capture_config.macos.scale_to_fit,
        r.queue_depth == config.buffer_count as isize,
        r.show_cursor == config.show_cursor,
        match config.capture_audio {
            None => r.audio is None,
            Some(a) => r.audio == Some(SCStreamAudioSettings {
                channel_count: if a.channel_count == AudioChannelCount::Mono { 1 } else { 2 },
                exclude_current_process_audio: a.impl_capture_audio_config.exclude_current_process_audio,
                sample_rate: sc_sample_rate_of(a.sample_rate),
            }),
        },
{
    let (pixel_format, set_color_matrix) = stream_pixel_format(config.pixel_format);
    let color_matrix = if set_color_matrix { Some(SCStreamColorMatrix::ItuR709_2) } else { None };
    let audio = match &config.capture_audio {
        None => None,
        Some(audio_config) => {
            let channel_count: isize = match audio_config.channel_count {
                AudioChannelCount::Mono => 1,
                AudioChannelCount::Stereo => 2,
            };
            let sample_rate = match audio_config.sample_rate {
                AudioSampleRate::Hz8000 => SCStreamSampleRate::R8000,
                AudioSampleRate::Hz16000 => SCStreamSampleRate::R16000,
                AudioSampleRate::Hz24000 => SCStreamSampleRate::R24000,
                AudioSampleRate::Hz48000 => SCStreamSampleRate::R48000,
            };
            Some(SCStreamAudioSettings {
                channel_count,
                exclude_current_process_audio: audio_config.impl_capture_audio_config.exclude_current_process_audio,
                sample_rate,
            })
        },
    };
    SCStreamSettings {
        pixel_format,
        color_matrix,
        scales_to_fit: config.impl_capture_config.macos.scale_to_fit,
        queue_depth: config.buffer_count as isize,
        show_cursor: config.show_cursor,
        audio,
    }
}

/// The options a display stream is created with, apart from its
/// floating-point output size: the pixel format of its frames, how many
/// frames it queues, and whether it draws the cursor
#[derive(Copy, Clone, Debug, PartialEq, Eq, Structural)]
pub struct DisplayStreamSettings {
    pub pixel_format: SCStreamPixelFormat,
    pub queue_depth: isize,
    pub show_cursor: bool,
}

/// The display stream options of a capture config: every stream queues
/// `buffer_count` frames and shows the cursor when the config asks for it
pub fn display_stream_settings(config: &CaptureConfig) -> (r: DisplayStreamSettings)
    ensures
        r.pixel_format == sc_pixel_format_of(config.pixel_format),
        r.queue_depth == config.buffer_count as isize,
        r.show_cursor == config.show_cursor,
{
    let (pixel_format, _) = stream_pixel_format(config.pixel_format);
    DisplayStreamSettings {
        pixel_format,
        queue_depth: config.buffer_count as isize,
        show_cursor: config.show_cursor,
    }
}

/// The clock of a display stream: frame times are measured from the display
/// time of the first frame.
#[derive(Copy, Clone, Debug, PartialEq, Eq, Structural)]
pub struct DisplayStreamClock {
    pub start: Option<u64>,
}

impl DisplayStreamClock {
    /// A clock that has seen no frame
    pub fn new() -> (r: Self)
        ensures
            r.start is None,
    {
        DisplayStreamClock { start: None }
    }

    /// The time of a frame in nanoseconds since the first frame, from its
    /// display time in host ticks and the host's tick-to-nanosecond ratio
    /// `numer / denom`. The first frame sets the start and is at zero; a
    /// display time before the start counts as zero ticks.
    pub fn frame_time_nanos(&mut self, display_time: u64, numer: u32, denom: u32) -> (r: u64)
        requires
            denom != 0,
        ensures
            final(self).start == (match old(self).start {
                Some(s) => Some(s),
                None => Some(display_time),
            }),
            ({
                let ticks: int = match old(self).start {
                    Some(s) => if display_time >= s { display_time - s } else { 0 },
                    None => 0,
                };
                r == ((ticks * numer / (denom as int)) as u64)
            }),
    {
        let relative_time: u64 = match self.start {
            Some(start) => display_time.saturating_sub(start),
            None => {
                self.start = Some(display_time);
                0
            },
        };
        let wide_ticks: u128 = relative_time as u128;
        let wide_numer: u128 = numer as u128;
        assert(wide_ticks * wide_numer <= 0xffff_ffff_ffff_ffffu128 * 0xffff_ffffu128) by (nonlinear_arith)
            requires
                wide_ticks <= 0xffff_ffff_ffff_ffffu128,
                wide_numer <= 0xffff_ffffu128,
        ;
        let product: u128 = wide_ticks * wide_numer;
        let time_ns: u128 = product / (denom as u128);
        #[verifier::truncate]
        (time_ns as u64)
    }
}

/// An input to a Mac OS stream: a callback of a screen capture stream, a
/// frame status of a display stream, or a request to stop.
pub enum MacosStreamInput {
    ScStream(SCStreamCallback),
    DisplayStream(CGDisplayStreamFrameStatus),
    Stop,
}

/// What a Mac OS stream does on an input
pub open spec fn macos_input_step(s: MacosStreamState, input: MacosStreamInput) -> (MacosStreamState, Option<DeliveryModel>) {
    match input {
        MacosStreamInput::ScStream(cb) => sc_stream_step(s, cb),
        MacosStreamInput::DisplayStream(status) => display_stream_step(s, status),
        MacosStreamInput::Stop => if s.stopped {
            (s, None)
        } else {
            (MacosStreamState { stopped: true, ..s }, Some(DeliveryModel::End))
        },
    }
}

/// The number of ends a Mac OS stream delivers on a run of inputs
pub open spec fn ends_delivered(s: MacosStreamState, inputs: Seq<MacosStreamInput>) -> nat
    decreases inputs.len(),
{
    if inputs.len() == 0 {
        0
    } else {
        let (s1, d) = macos_input_step(s, inputs[0]);
        (if d == Some(DeliveryModel::End) { 1nat } else { 0nat }) + ends_delivered(s1, inputs.drop_first())
    }
}

/// Whether a run of inputs delivers a frame or an idle event
pub open spec fn delivers_frame_or_idle(s: MacosStreamState, inputs: Seq<MacosStreamInput>) -> bool
    decreases inputs.len(),
{
    if inputs.len() == 0 {
        false
    } else {
        let (s1, d) = macos_input_step(s, inputs[0]);
        ||| d matches Some(DeliveryModel::Video(_))
        ||| d == Some(DeliveryModel::Idle)
        ||| delivers_frame_or_idle(s1, inputs.drop_first())
    }
}

/// The ids of the video frames a Mac OS stream delivers on a run of inputs,
/// in delivery order
pub open spec fn video_ids_delivered(s: MacosStreamState, inputs: Seq<MacosStreamInput>) -> Seq<u64>
    decreases inputs.len(),
{
    if inputs.len() == 0 {
        Seq::empty()
    } else {
        let (s1, d) = macos_input_step(s, inputs[0]);
        let first: Seq<u64> = match d {
            Some(DeliveryModel::Video(id)) => seq![id],
            _ => Seq::empty(),
        };
        first + video_ids_delivered(s1, inputs.drop_first())
    }
}

/// A step never moves the video counter back while it cannot wrap, moves it
/// by at most one, and a delivered video frame has the counter's id.
pub proof fn lemma_video_counter_step(s: MacosStreamState, input: MacosStreamInput)
    requires
        s.video_frame_id_counter < u64::MAX,
    ensures
        ({
            let (s1, d) = macos_input_step(s, input);
            &&& s.video_frame_id_counter <= s1.video_frame_id_counter <= s.video_frame_id_counter + 1
            &&& (d matches Some(DeliveryModel::Video(id)) ==> id == s.video_frame_id_counter
                && s1.video_frame_id_counter == s.video_frame_id_counter + 1)
        }),
{
}

proof fn lemma_video_ids_bounded(s: MacosStreamState, inputs: Seq<MacosStreamInput>)
    requires
        s.video_frame_id_counter + inputs.len() <= u64::MAX,
    ensures
        forall|k: int| 0 <= k < video_ids_delivered(s, inputs).len() ==> s.video_frame_id_counter <= #[trigger] video_ids_delivered(s, inputs)[k],
        forall|i: int, j: int| 0 <= i < j < video_ids_delivered(s, inputs).len() ==>
            #[trigger] video_ids_delivered(s, inputs)[i] < #[trigger] video_ids_delivered(s, inputs)[j],
    decreases inputs.len(),
{
    if inputs.len() > 0 {
        let (s1, d) = macos_input_step(s, inputs[0]);
        lemma_video_counter_step(s, inputs[0]);
        lemma_video_ids_bounded(s1, inputs.drop_first());
        let rest = video_ids_delivered(s1, inputs.drop_first());
        let all = video_ids_delivered(s, inputs);
        match d {
            Some(DeliveryModel::Video(id)) => {
                assert(all == seq![id] + rest);
                assert forall|k: int| 0 <= k < all.len() implies s.video_frame_id_counter <= #[trigger] all[k] by {
                    if k > 0 {
                        assert(all[k] == rest[k - 1]);
                    }
                }
                assert forall|i: int, j: int| 0 <= i < j < all.len() implies #[trigger] all[i] < #[trigger] all[j] by {
                    assert(all[j] == rest[j - 1]);
                    if i > 0 {
                        assert(all[i] == rest[i - 1]);
                    }
                }
            },
            _ => {
                assert(all =~= rest);
            },
        }
    }
}

/// A Mac OS stream delivers its video frames with strictly increasing ids,
/// none below the counter it started from, on any run of inputs short
/// enough that the counter cannot wrap.
pub proof fn law_video_ids_increase(s: MacosStreamState, inputs: Seq<MacosStreamInput>)
    requires
        s.video_frame_id_counter + inputs.len() <= u64::MAX,
    ensures
        forall|k: int| 0 <= k < video_ids_delivered(s, inputs).len() ==> s.video_frame_id_counter <= #[trigger] video_ids_delivered(s, inputs)[k],
        forall|i: int, j: int| 0 <= i < j < video_ids_delivered(s, inputs).len() ==>
            #[trigger] video_ids_delivered(s, inputs)[i] < #[trigger] video_ids_delivered(s, inputs)[j],
{
    lemma_video_ids_bounded(s, inputs);
}

/// The ids of the audio frames a Mac OS stream delivers on a run of inputs,
/// in delivery order
pub open spec fn audio_ids_delivered(s: MacosStreamState, inputs: Seq<MacosStreamInput>) -> Seq<u64>
    decreases inputs.len(),
{
    if inputs.len() == 0 {
        Seq::empty()
    } else {
        let (s1, d) = macos_input_step(s, inputs[0]);
        let first: Seq<u64> = match d {
            Some(DeliveryModel::Audio(id)) => seq![id],
            _ => Seq::empty(),
        };
        first + audio_ids_delivered(s1, inputs.drop_first())
    }
}

/// A Mac OS stream delivers its audio frames with strictly increasing ids,
/// none below the audio counter it started from: audio samples only advance
/// the audio counter, and no audio frame is delivered at all.
pub proof fn law_audio_ids_increase(s: MacosStreamState, inputs: Seq<MacosStreamInput>)
    ensures
        audio_ids_delivered(s, inputs).len() == 0,
        forall|k: int| 0 <= k < audio_ids_delivered(s, inputs).len() ==> s.audio_frame_id_counter <= #[trigger] audio_ids_delivered(s, inputs)[k],
        forall|i: int, j: int| 0 <= i < j < audio_ids_delivered(s, inputs).len() ==>
            #[trigger] audio_ids_delivered(s, inputs)[i] < #[trigger] audio_ids_delivered(s, inputs)[j],
    decreases inputs.len(),
{
    if inputs.len() > 0 {
        let (s1, d) = macos_input_step(s, inputs[0]);
        law_audio_ids_increase(s1, inputs.drop_first());
        assert(!(d matches Some(DeliveryModel::Audio(_))));
        assert(audio_ids_delivered(s, inputs) =~= audio_ids_delivered(s1, inputs.drop_first()));
    }
}

/// A step never restarts a stopped stream.
pub proof fn lemma_stopped_stays(s: MacosStreamState, input: MacosStreamInput)
    ensures
        s.stopped ==> macos_input_step(s, input).0.stopped,
{
}

/// A Mac OS stream delivers its end at most once, whatever callbacks and
/// stop requests arrive and in whatever order, and never once it stopped.
pub proof fn law_end_delivered_at_most_once(s: MacosStreamState, inputs: Seq<MacosStreamInput>)
    ensures
        ends_delivered(s, inputs) <= (if s.stopped { 0nat } else { 1nat }),
    decreases inputs.len(),
{
    if inputs.len() > 0 {
        let (s1, d) = macos_input_step(s, inputs[0]);
        law_end_delivered_at_most_once(s1, inputs.drop_first());
        lemma_stopped_stays(s, inputs[0]);
        if d == Some(DeliveryModel::End) {
            assert(s1.stopped);
        }
    }
}

/// The state of a Mac OS stream after a run of inputs
pub open spec fn macos_run_state(s: MacosStreamState, inputs: Seq<MacosStreamInput>) -> MacosStreamState
    decreases inputs.len(),
{
    if inputs.len() == 0 {
        s
    } else {
        macos_run_state(macos_input_step(s, inputs[0]).0, inputs.drop_first())
    }
}

proof fn lemma_end_exactly_when_stopping(s: MacosStreamState, input: MacosStreamInput)
    requires
        !s.stopped,
    ensures
        macos_input_step(s, input).0.stopped <==> macos_input_step(s, input).1 == Some(DeliveryModel::End),
{
}

proof fn lemma_run_stays_stopped(s: MacosStreamState, inputs: Seq<MacosStreamInput>)
    requires
        s.stopped,
    ensures
        macos_run_state(s, inputs).stopped,
    decreases inputs.len(),
{
    if inputs.len() > 0 {
        lemma_stopped_stays(s, inputs[0]);
        lemma_run_stays_stopped(macos_input_step(s, inputs[0]).0, inputs.drop_first());
    }
}

/// A running Mac OS stream stops when it is asked to, when its display
/// stream reports that it stopped, and when its screen capture stream
/// reports a stopped frame or that it stopped; each of these delivers the
/// stream's end.
pub proof fn law_stopping_delivers_end(s: MacosStreamState, code: i32)
    requires
        !s.stopped,
        SCFrameStatus::spec_from_i32(code) == Some(SCFrameStatus::Stopped),
    ensures
        macos_input_step(s, MacosStreamInput::Stop) == (MacosStreamState { stopped: true, ..s }, Some(DeliveryModel::End)),
        macos_input_step(s, MacosStreamInput::DisplayStream(CGDisplayStreamFrameStatus::Stopped))
            == (MacosStreamState { stopped: true, ..s }, Some(DeliveryModel::End)),
        macos_input_step(s, MacosStreamInput::ScStream(SCStreamCallback::Output { output_type: SCStreamOutputType::Screen, frame_status: Some(code) }))
            == (MacosStreamState { stopped: true, ..s }, Some(DeliveryModel::End)),
        macos_input_step(s, MacosStreamInput::ScStream(SCStreamCallback::Failure(SCStreamCallbackError::StreamStopped)))
            == (MacosStreamState { stopped: true, ..s }, Some(DeliveryModel::End)),
{
}

/// A running Mac OS stream delivers its end exactly once on every run of
/// inputs that stops it, and not at all on a run that leaves it running.
pub proof fn law_end_delivered_exactly_once(s: MacosStreamState, inputs: Seq<MacosStreamInput>)
    requires
        !s.stopped,
    ensures
        ends_delivered(s, inputs) == (if macos_run_state(s, inputs).stopped { 1nat } else { 0nat }),
    decreases inputs.len(),
{
    if inputs.len() > 0 {
        let (s1, d) = macos_input_step(s, inputs[0]);
        lemma_end_exactly_when_stopping(s, inputs[0]);
        if s1.stopped {
            law_end_delivered_at_most_once(s1, inputs.drop_first());
            lemma_run_stays_stopped(s1, inputs.drop_first());
        } else {
            law_end_delivered_exactly_once(s1, inputs.drop_first());
        }
    }
}

/// Once a Mac OS stream stopped, it delivers no frame and no idle event:
/// only errors.
pub proof fn law_nothing_after_stop(s: MacosStreamState, inputs: Seq<MacosStreamInput>)
    requires
        s.stopped,
    ensures
        !delivers_frame_or_idle(s, inputs),
    decreases inputs.len(),
{
    if inputs.len() > 0 {
        let (s1, d) = macos_input_step(s, inputs[0]);
        lemma_stopped_stays(s, inputs[0]);
        law_nothing_after_stop(s1, inputs.drop_first());
    }
}

} // verus!

verus! {

use crate::capture_stream::{AudioCaptureConfig, ImplCaptureConfig};

/// A capture config with Mac OS specific settings
pub trait MacosCaptureConfigExt: Sized {
    /// Set whether or not to scale content to the output size
    fn with_scale_to_fit(self, scale_to_fit: bool) -> Self;
}

impl MacosCaptureConfigExt for CaptureConfig {
    fn with_scale_to_fit(self, scale_to_fit: bool) -> (r: Self)
        ensures
            r == (CaptureConfig {
                impl_capture_config: ImplCaptureConfig {
                    macos: MacosCaptureConfig { scale_to_fit, ..self.impl_capture_config.macos },
                    ..self.impl_capture_config
                },
                ..self
            }),
    {
        let CaptureConfig { target, show_cursor, pixel_format, capture_audio, impl_capture_config, buffer_count } = self;
        CaptureConfig {
            target,
            show_cursor,
            pixel_format,
            capture_audio,
            impl_capture_config: ImplCaptureConfig {
                macos: MacosCaptureConfig { scale_to_fit },
                windows: impl_capture_config.windows,
            },
            buffer_count,
        }
    }
}

/// An audio capture config with Mac OS specific settings
pub trait MacosAudioCaptureConfigExt: Sized {
    /// Set whether to leave out the audio of the capturing process
    fn set_exclude_current_process_audio(self, exclude_current_process_audio: bool) -> Self;
}

impl MacosAudioCaptureConfigExt for AudioCaptureConfig {
    fn set_exclude_current_process_audio(self, exclude_current_process_audio: bool) -> (r: Self)
        ensures
            r == (AudioCaptureConfig {
                impl_capture_audio_config: MacosAudioCaptureConfig { exclude_current_process_audio },
                ..self
            }),
    {
        AudioCaptureConfig {
            impl_capture_audio_config: MacosAudioCaptureConfig { exclude_current_process_audio },
            ..self
        }
    }
}

} // verus!
