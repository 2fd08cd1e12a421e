use vstd::prelude::*;

verus! {

/// Windows specific settings of a capture config: the raw interface pointers
/// of a DXGI adapter and of a D3D11 device to capture with, if given
#[derive(Copy, Clone, Debug)]
pub struct WindowsCaptureConfig {
    pub dxgi_adapter: Option<usize>,
    pub d3d11_device: Option<usize>,
}

impl WindowsCaptureConfig {
    /// No adapter and no device are given by default
    pub fn new() -> (r: Self)
        ensures
            r.dxgi_adapter is None,
            r.d3d11_device is None,
    {
        WindowsCaptureConfig { dxgi_adapter: None, d3d11_device: None }
    }
}

/// Windows specific settings of an audio capture config
#[derive(Copy, Clone, Debug)]
pub struct WindowsAudioCaptureConfig {}

impl WindowsAudioCaptureConfig {
    pub fn new() -> (r: Self) {
        WindowsAudioCaptureConfig {}
    }
}

/// Capture access on Windows
#[derive(Clone, Copy, Debug)]
pub struct WindowsCaptureAccessToken {
    pub borderless: bool,
}

impl WindowsCaptureAccessToken {
    /// Whether capture without the capture border was granted
    pub fn allows_borderless(&self) -> (r: bool)
        ensures
            r == self.borderless,
    {
        self.borderless
    }
}

} // verus!

verus! {

use crate::capture_stream::{CapturePixelFormat, StreamCreateError, StreamDelivery, StreamError, StreamStopError, DeliveryModel, delivery_model, next_id, increment_id};
use vstd::string::*;

/// The pixel formats of a Windows stream
#[derive(Copy, Clone, Debug, PartialEq, Eq, Structural)]
pub enum WindowsPixelFormat {
    Bgra8888,
}

/// The DirectX pixel formats a captured surface can have; formats the
/// library does not read are `Unknown`.
#[derive(Copy, Clone, Debug, PartialEq, Eq, Structural)]
pub enum DirectXPixelFormat {
    B8G8R8A8Typeless,
    B8G8R8A8UIntNormalized,
    B8G8R8A8UIntNormalizedSrgb,
    R10G10B10A2Typeless,
    R10G10B10A2UInt,
    R10G10B10A2UIntNormalized,
    R16G16B16A16Float,
    Unknown,
}

/// The frame pool pixel format of a capture pixel format: only the two
/// packed RGB formats are supported on Windows.
pub fn frame_pool_pixel_format(f: CapturePixelFormat) -> (r: Result<DirectXPixelFormat, StreamCreateError>)
    ensures
        f == CapturePixelFormat::Bgra8888 ==> r == Ok::<DirectXPixelFormat, StreamCreateError>(DirectXPixelFormat::B8G8R8A8UIntNormalized),
        f == CapturePixelFormat::Argb2101010 ==> r == Ok::<DirectXPixelFormat, StreamCreateError>(DirectXPixelFormat::R10G10B10A2UIntNormalized),
        (f == CapturePixelFormat::V420 || f == CapturePixelFormat::F420) ==> r matches Err(StreamCreateError::UnsupportedPixelFormat),
{
    match f {
        CapturePixelFormat::Bgra8888 => Ok(DirectXPixelFormat::B8G8R8A8UIntNormalized),
        CapturePixelFormat::Argb2101010 => Ok(DirectXPixelFormat::R10G10B10A2UIntNormalized),
        _ => Err(StreamCreateError::UnsupportedPixelFormat),
    }
}

/// The states of an app capability's access
#[derive(Copy, Clone, Debug, PartialEq, Eq, Structural)]
pub enum AppCapabilityAccessStatus {
    DeniedBySystem,
    NotDeclaredByApp,
    DeniedByUser,
    UserPromptRequired,
    Allowed,
}

/// Whether a capability counts as granted, from the outcome of creating the
/// capability (`Err` when it could not be created) and of checking its
/// access (`Err` when the check failed): a capability that cannot be created
/// counts as granted, one whose check failed or is not allowed does not.
pub fn capability_granted(capability: Result<Result<AppCapabilityAccessStatus, ()>, ()>) -> (r: bool)
    ensures
        r == (match capability {
            Err(()) => true,
            Ok(Ok(status)) => status == AppCapabilityAccessStatus::Allowed,
            Ok(Err(())) => false,
        }),
{
    match capability {
        Err(()) => true,
        Ok(Ok(AppCapabilityAccessStatus::Allowed)) => true,
        Ok(_) => false,
    }
}

impl WindowsCaptureAccessToken {
    /// The access token a check grants: programmatic capture must be allowed,
    /// and so must borderless capture when it is asked for; the token allows
    /// borderless capture when it was asked for or is allowed anyway.
    pub fn check_access(borderless: bool, programmatic_access: bool, borderless_access: bool) -> (r: Option<Self>)
        ensures
            r == (if programmatic_access && (!borderless || borderless_access) {
                Some(WindowsCaptureAccessToken { borderless: borderless || borderless_access })
            } else {
                None
            }),
    {
        if programmatic_access && (!borderless || borderless_access) {
            Some(WindowsCaptureAccessToken { borderless: borderless || borderless_access })
        } else {
            None
        }
    }

    /// The access token a request grants, from the outcome of the request
    /// (`Err` when it could not be made or completed): only an allowed
    /// request gives a token, for the access that was asked for.
    pub fn request_access(borderless: bool, outcome: Result<AppCapabilityAccessStatus, ()>) -> (r: Option<Self>)
        ensures
            r == (if outcome == Ok::<AppCapabilityAccessStatus, ()>(AppCapabilityAccessStatus::Allowed) {
                Some(WindowsCaptureAccessToken { borderless })
            } else {
                None
            }),
    {
        match outcome {
            Ok(AppCapabilityAccessStatus::Allowed) => Some(WindowsCaptureAccessToken { borderless }),
            _ => None,
        }
    }
}

/// Where a Windows stream gets its D3D11 device from
#[derive(Copy, Clone, Debug, PartialEq, Eq, Structural)]
pub enum DeviceSource {
    /// The device given in the config; its adapter is queried from it
    GivenDevice(usize),
    /// A device created on the adapter given in the config
    GivenAdapter(usize),
    /// A device created on the first adapter of a new DXGI factory
    FirstAdapter,
}

/// The device source of a config: a given device wins over a given adapter.
pub fn device_source(config: &WindowsCaptureConfig) -> (r: DeviceSource)
    ensures
        r == (match (config.dxgi_adapter, config.d3d11_device) {
            (_, Some(d)) => DeviceSource::GivenDevice(d),
            (Some(a), None) => DeviceSource::GivenAdapter(a),
            (None, None) => DeviceSource::FirstAdapter,
        }),
{
    match (config.dxgi_adapter, config.d3d11_device) {
        (_, Some(d)) => DeviceSource::GivenDevice(d),
        (Some(a), None) => DeviceSource::GivenAdapter(a),
        (None, None) => DeviceSource::FirstAdapter,
    }
}

/// The timing of a video frame, in nanoseconds
#[derive(Copy, Clone, Debug, PartialEq, Eq, Structural)]
pub struct FrameTiming {
    /// The time since the first frame
    pub origin_time: u64,
    /// The time since the frame the duration is measured from
    pub duration: u64,
}

/// The state the handlers of a Windows stream share: whether the stream is
/// closed, the next video and audio frame ids, and the capture times that
/// frame times are measured from.
#[derive(Copy, Clone, Debug, PartialEq, Eq, Structural)]
pub struct WindowsStreamState {
    pub closed: bool,
    pub frame_id_counter: u64,
    pub audio_frame_id_counter: u64,
    pub first_frame_time: Option<u64>,
    pub last_frame_time: Option<u64>,
}

/// The time from `from` to `to`, zero when `to` is earlier
pub open spec fn elapsed(from: u64, to: u64) -> u64 {
    if to >= from { (to - from) as u64 } else { 0 }
}

/// What a Windows stream does when a frame arrives: nothing without a frame
/// pool or once closed; otherwise the first frame sets both reference times
/// (and is at zero), and the next frame is delivered with the next id, or
/// its failure as an error.
pub open spec fn windows_frame_step(s: WindowsStreamState, pool_present: bool, capture_time: u64, next_frame: Result<(), Seq<char>>)
    -> (WindowsStreamState, Option<(DeliveryModel, FrameTiming)>)
{
    if !pool_present || s.closed {
        (s, None)
    } else {
        let origin_time = match s.first_frame_time { Some(t) => elapsed(t, capture_time), None => 0u64 };
        let duration = match s.last_frame_time { Some(t) => elapsed(t, capture_time), None => 0u64 };
        let s1 = WindowsStreamState {
            first_frame_time: Some(match s.first_frame_time { Some(t) => t, None => capture_time }),
            last_frame_time: Some(match s.last_frame_time { Some(t) => t, None => capture_time }),
            ..s
        };
        let timing = FrameTiming { origin_time, duration };
        match next_frame {
            Err(e) => (s1, Some((DeliveryModel::Error("Failed to capture frame: "@ + e), timing))),
            Ok(()) => (
                WindowsStreamState { frame_id_counter: next_id(s.frame_id_counter), ..s1 },
                Some((DeliveryModel::Video(s.frame_id_counter), timing)),
            ),
        }
    }
}

/// What a Windows stream does when it closes or is stopped: a stream not yet
/// closed is marked closed and delivers its end; a closed stream delivers
/// nothing.
pub open spec fn windows_close_step(s: WindowsStreamState) -> (WindowsStreamState, Option<DeliveryModel>) {
    (WindowsStreamState { closed: true, ..s }, if s.closed { None } else { Some(DeliveryModel::End) })
}

/// What a Windows stream does with an audio packet, or an audio stream
/// failure: nothing once closed; otherwise a packet is delivered with the
/// next audio id, and a failure as an error.
pub open spec fn windows_audio_step(s: WindowsStreamState, packet: Result<(), ()>) -> (WindowsStreamState, Option<DeliveryModel>) {
    if s.closed {
        (s, None)
    } else {
        match packet {
            Ok(()) => (
                WindowsStreamState { audio_frame_id_counter: next_id(s.audio_frame_id_counter), ..s },
                Some(DeliveryModel::Audio(s.audio_frame_id_counter)),
            ),
            Err(()) => (s, Some(DeliveryModel::Error("Audio stream error"@))),
        }
    }
}

impl WindowsStreamState {
    /// A fresh stream: open, with both counters at zero and no frame yet
    pub fn new() -> (r: Self)
        ensures
            r == (WindowsStreamState {
                closed: false,
                frame_id_counter: 0,
                audio_frame_id_counter: 0,
                first_frame_time: None,
                last_frame_time: None,
            }),
    {
        WindowsStreamState {
            closed: false,
            frame_id_counter: 0,
            audio_frame_id_counter: 0,
            first_frame_time: None,
            last_frame_time: None,
        }
    }

    /// Handles a frame arriving, at a capture time in nanoseconds, with the
    /// outcome of taking the next frame from the pool (the system's error
    /// text when it failed): see [`windows_frame_step`]
    pub fn on_frame_arrived(&mut self, pool_present: bool, capture_time: u64, next_frame: Result<(), String>)
        -> (r: Option<(StreamDelivery, FrameTiming)>)
        ensures
            ({
                let next_frame_model = match next_frame { Ok(()) => Ok(()), Err(e) => Err(e@) };
                let (s1, d) = windows_frame_step(*old(self), pool_present, capture_time, next_frame_model);
                &&& *final(self) == s1
                &&& match (r, d) {
                    (None, None) => true,
                    (Some((delivery, timing)), Some((model, t))) => delivery_model(Some(delivery)) == Some(model) && timing == t,
                    _ => false,
                }
            }),
    {
        if !pool_present || self.closed {
            return None;
        }
        let origin_time: u64 = match self.first_frame_time {
            Some(t) => capture_time.saturating_sub(t),
            None => {
                self.first_frame_time = Some(capture_time);
                0
            },
        };
        let duration: u64 = match self.last_frame_time {
            Some(t) => capture_time.saturating_sub(t),
            None => {
                self.last_frame_time = Some(capture_time);
                0
            },
        };
        let timing = FrameTiming { origin_time, duration };
        match next_frame {
            Err(e) => {
                let message = String::from_str("Failed to capture frame: ").concat(e.as_str());
                Some((StreamDelivery::Error(StreamError::Other(message)), timing))
            },
            Ok(()) => {
                let frame_id = self.frame_id_counter;
                self.frame_id_counter = increment_id(frame_id);
                Some((StreamDelivery::Video { frame_id }, timing))
            },
        }
    }

    /// Handles the capture item closing: see [`windows_close_step`]
    pub fn on_closed(&mut self) -> (r: Option<StreamDelivery>)
        ensures
            (*final(self), delivery_model(r)) == windows_close_step(*old(self)),
    {
        let already_closed = self.closed;
        self.closed = true;
        if !already_closed {
            Some(StreamDelivery::End)
        } else {
            None
        }
    }

    /// Handles an audio packet, or an audio stream failure: see
    /// [`windows_audio_step`]
    pub fn on_audio_packet(&mut self, packet: Result<(), ()>) -> (r: Option<StreamDelivery>)
        ensures
            (*final(self), delivery_model(r)) == windows_audio_step(*old(self), packet),
    {
        if self.closed {
            return None;
        }
        match packet {
            Ok(()) => {
                let frame_id = self.audio_frame_id_counter;
                self.audio_frame_id_counter = increment_id(frame_id);
                Some(StreamDelivery::Audio { frame_id })
            },
            Err(()) => {
                proof { reveal_strlit("Audio stream error"); }
                Some(StreamDelivery::Error(StreamError::Other(String::from_str("Audio stream error"))))
            },
        }
    }

    /// Stops the stream, as a close does: see [`windows_close_step`]
    pub fn stop(&mut self) -> (r: Option<StreamDelivery>)
        ensures
            (*final(self), delivery_model(r)) == windows_close_step(*old(self)),
    {
        self.on_closed()
    }
}

/// The result of stopping a Windows stream, from whether its capture session
/// closed
pub fn stop_result(already_stopped: bool, session_closed: bool) -> (r: Result<(), StreamStopError>)
    ensures
        already_stopped ==> r matches Err(StreamStopError::AlreadyStopped),
        !already_stopped && session_closed ==> r is Ok,
        !already_stopped && !session_closed ==> (r matches Err(StreamStopError::Other(m)) && m@ == "Failed to close capture session"@),
{
    if already_stopped {
        Err(StreamStopError::AlreadyStopped)
    } else if session_closed {
        Ok(())
    } else {
        proof { reveal_strlit("Failed to close capture session"); }
        Err(StreamStopError::Other(String::from_str("Failed to close capture session")))
    }
}

/// An input to a Windows stream: a frame arriving (whether the pool is
/// there, the capture time, and the outcome of taking the frame), the
/// capture item closing, a stop request, or an audio packet
pub enum WindowsStreamInput {
    FrameArrived { pool_present: bool, capture_time: u64, next_frame: Result<(), Seq<char>> },
    Closed,
    Stop,
    AudioPacket(Result<(), ()>),
}

/// What a Windows stream does on an input
pub open spec fn windows_input_step(s: WindowsStreamState, input: WindowsStreamInput) -> (WindowsStreamState, Option<DeliveryModel>) {
    match input {
        WindowsStreamInput::FrameArrived { pool_present, capture_time, next_frame } => {
            let (s1, d) = windows_frame_step(s, pool_present, capture_time, next_frame);
            (s1, match d { Some((model, _)) => Some(model), None => None })
        },
        WindowsStreamInput::Closed | WindowsStreamInput::Stop => windows_close_step(s),
        WindowsStreamInput::AudioPacket(packet) => windows_audio_step(s, packet),
    }
}

/// The number of ends a Windows stream delivers on a run of inputs
pub open spec fn windows_ends_delivered(s: WindowsStreamState, inputs: Seq<WindowsStreamInput>) -> nat
    decreases inputs.len(),
{
    if inputs.len() == 0 {
        0
    } else {
        let (s1, d) = windows_input_step(s, inputs[0]);
        (if d == Some(DeliveryModel::End) { 1nat } else { 0nat }) + windows_ends_delivered(s1, inputs.drop_first())
    }
}

/// Whether a run of inputs delivers anything at all
pub open spec fn windows_delivers_anything(s: WindowsStreamState, inputs: Seq<WindowsStreamInput>) -> bool
    decreases inputs.len(),
{
    if inputs.len() == 0 {
        false
    } else {
        let (s1, d) = windows_input_step(s, inputs[0]);
        d is Some || windows_delivers_anything(s1, inputs.drop_first())
    }
}

/// The ids of the video frames a Windows stream delivers on a run of
/// inputs, in delivery order
pub open spec fn windows_video_ids_delivered(s: WindowsStreamState, inputs: Seq<WindowsStreamInput>) -> Seq<u64>
    decreases inputs.len(),
{
    if inputs.len() == 0 {
        Seq::empty()
    } else {
        let (s1, d) = windows_input_step(s, inputs[0]);
        let first: Seq<u64> = match d {
            Some(DeliveryModel::Video(id)) => seq![id],
            _ => Seq::empty(),
        };
        first + windows_video_ids_delivered(s1, inputs.drop_first())
    }
}

/// The ids of the audio frames a Windows stream delivers on a run of
/// inputs, in delivery order
pub open spec fn windows_audio_ids_delivered(s: WindowsStreamState, inputs: Seq<WindowsStreamInput>) -> Seq<u64>
    decreases inputs.len(),
{
    if inputs.len() == 0 {
        Seq::empty()
    } else {
        let (s1, d) = windows_input_step(s, inputs[0]);
        let first: Seq<u64> = match d {
            Some(DeliveryModel::Audio(id)) => seq![id],
            _ => Seq::empty(),
        };
        first + windows_audio_ids_delivered(s1, inputs.drop_first())
    }
}

/// A Windows stream delivers its end at most once, whatever frames,
/// closes, stops and audio packets arrive, and never once it closed.
pub proof fn law_windows_end_delivered_at_most_once(s: WindowsStreamState, inputs: Seq<WindowsStreamInput>)
    ensures
        windows_ends_delivered(s, inputs) <= (if s.closed { 0nat } else { 1nat }),
    decreases inputs.len(),
{
    if inputs.len() > 0 {
        let (s1, d) = windows_input_step(s, inputs[0]);
        law_windows_end_delivered_at_most_once(s1, inputs.drop_first());
    }
}

/// The state of a Windows stream after a run of inputs
pub open spec fn windows_run_state(s: WindowsStreamState, inputs: Seq<WindowsStreamInput>) -> WindowsStreamState
    decreases inputs.len(),
{
    if inputs.len() == 0 {
        s
    } else {
        windows_run_state(windows_input_step(s, inputs[0]).0, inputs.drop_first())
    }
}

proof fn lemma_windows_run_stays_closed(s: WindowsStreamState, inputs: Seq<WindowsStreamInput>)
    requires
        s.closed,
    ensures
        windows_run_state(s, inputs).closed,
    decreases inputs.len(),
{
    if inputs.len() > 0 {
        lemma_windows_run_stays_closed(windows_input_step(s, inputs[0]).0, inputs.drop_first());
    }
}

/// An open Windows stream delivers its end exactly once on every run of
/// inputs that closes or stops it, and not at all on a run that leaves it
/// open; a close or a stop always closes it.
pub proof fn law_windows_end_delivered_exactly_once(s: WindowsStreamState, inputs: Seq<WindowsStreamInput>)
    requires
        !s.closed,
    ensures
        windows_ends_delivered(s, inputs) == (if windows_run_state(s, inputs).closed { 1nat } else { 0nat }),
        windows_input_step(s, WindowsStreamInput::Closed) == (WindowsStreamState { closed: true, ..s }, Some(DeliveryModel::End)),
        windows_input_step(s, WindowsStreamInput::Stop) == (WindowsStreamState { closed: true, ..s }, Some(DeliveryModel::End)),
    decreases inputs.len(),
{
    if inputs.len() > 0 {
        let (s1, d) = windows_input_step(s, inputs[0]);
        if s1.closed {
            law_windows_end_delivered_at_most_once(s1, inputs.drop_first());
            lemma_windows_run_stays_closed(s1, inputs.drop_first());
        } else {
            law_windows_end_delivered_exactly_once(s1, inputs.drop_first());
        }
    }
}

/// A closed Windows stream delivers nothing more.
pub proof fn law_windows_nothing_after_close(s: WindowsStreamState, inputs: Seq<WindowsStreamInput>)
    requires
        s.closed,
    ensures
        !windows_delivers_anything(s, inputs),
    decreases inputs.len(),
{
    if inputs.len() > 0 {
        let (s1, d) = windows_input_step(s, inputs[0]);
        law_windows_nothing_after_close(s1, inputs.drop_first());
    }
}

proof fn lemma_windows_video_ids_bounded(s: WindowsStreamState, inputs: Seq<WindowsStreamInput>)
    requires
        s.frame_id_counter + inputs.len() <= u64::MAX,
    ensures
        forall|k: int| 0 <= k < windows_video_ids_delivered(s, inputs).len() ==> s.frame_id_counter <= #[trigger] windows_video_ids_delivered(s, inputs)[k],
        forall|i: int, j: int| 0 <= i < j < windows_video_ids_delivered(s, inputs).len() ==>
            #[trigger] windows_video_ids_delivered(s, inputs)[i] < #[trigger] windows_video_ids_delivered(s, inputs)[j],
    decreases inputs.len(),
{
    if inputs.len() > 0 {
        let (s1, d) = windows_input_step(s, inputs[0]);
        assert(s.frame_id_counter <= s1.frame_id_counter <= s.frame_id_counter + 1);
        lemma_windows_video_ids_bounded(s1, inputs.drop_first());
        let rest = windows_video_ids_delivered(s1, inputs.drop_first());
        let all = windows_video_ids_delivered(s, inputs);
        match d {
            Some(DeliveryModel::Video(id)) => {
                assert(id == s.frame_id_counter && s1.frame_id_counter == s.frame_id_counter + 1);
                assert(all == seq![id] + rest);
                assert forall|k: int| 0 <= k < all.len() implies s.frame_id_counter <= #[trigger] all[k] by {
                    if k > 0 {
                        assert(all[k] == rest[k - 1]);
                    }
                }
                assert forall|i: int, j: int| 0 <= i < j < all.len() implies #[trigger] all[i] < #[trigger] all[j] by {
                    assert(all[j] == rest[j - 1]);
                    if i > 0 {
                        assert(all[i] == rest[i - 1]);
                    }
                }
            },
            _ => {
                assert(all =~= rest);
            },
        }
    }
}

/// A Windows stream delivers its video frames with strictly increasing ids,
/// none below the counter it started from, on any run of inputs short
/// enough that the counter cannot wrap.
pub proof fn law_windows_video_ids_increase(s: WindowsStreamState, inputs: Seq<WindowsStreamInput>)
    requires
        s.frame_id_counter + inputs.len() <= u64::MAX,
    ensures
        forall|k: int| 0 <= k < windows_video_ids_delivered(s, inputs).len() ==> s.frame_id_counter <= #[trigger] windows_video_ids_delivered(s, inputs)[k],
        forall|i: int, j: int| 0 <= i < j < windows_video_ids_delivered(s, inputs).len() ==>
            #[trigger] windows_video_ids_delivered(s, inputs)[i] < #[trigger] windows_video_ids_delivered(s, inputs)[j],
{
    lemma_windows_video_ids_bounded(s, inputs);
}

/// The capture time and origin time of each video frame a Windows stream
/// delivers on a run of inputs, in delivery order
pub open spec fn windows_frame_times(s: WindowsStreamState, inputs: Seq<WindowsStreamInput>) -> Seq<(u64, u64)>
    decreases inputs.len(),
{
    if inputs.len() == 0 {
        Seq::empty()
    } else {
        let (s1, _) = windows_input_step(s, inputs[0]);
        let first: Seq<(u64, u64)> = match inputs[0] {
            WindowsStreamInput::FrameArrived { pool_present, capture_time, next_frame } =>
                match windows_frame_step(s, pool_present, capture_time, next_frame).1 {
                    Some((DeliveryModel::Video(_), timing)) => seq![(capture_time, timing.origin_time)],
                    _ => Seq::empty(),
                },
            _ => Seq::empty(),
        };
        first + windows_frame_times(s1, inputs.drop_first())
    }
}

/// Every frame arrives no earlier than `t0`
pub open spec fn frames_arrive_from(inputs: Seq<WindowsStreamInput>, t0: u64) -> bool {
    forall|k: int| 0 <= k < inputs.len() ==> (#[trigger] inputs[k] matches WindowsStreamInput::FrameArrived { capture_time, .. } ==> t0 <= capture_time)
}

/// The first frame a Windows stream reads starts the clock: its origin
/// time is zero, and the stream measures later frames from its capture time.
pub proof fn law_windows_first_frame_at_zero(s: WindowsStreamState, capture_time: u64, next_frame: Result<(), Seq<char>>)
    requires
        s.first_frame_time is None,
        !s.closed,
    ensures
        ({
            let (s1, d) = windows_frame_step(s, true, capture_time, next_frame);
            &&& d matches Some((_, timing)) && timing.origin_time == 0
            &&& s1.first_frame_time == Some(capture_time)
        }),
{
}

/// Once a Windows stream has read its first frame at `t0`, every video
/// frame it delivers has, as origin time, the time since `t0`; so a frame
/// captured no earlier than another has an origin time no smaller.
pub proof fn law_windows_origin_times(s: WindowsStreamState, inputs: Seq<WindowsStreamInput>, t0: u64)
    requires
        s.first_frame_time == Some(t0),
        frames_arrive_from(inputs, t0),
    ensures
        forall|k: int| 0 <= k < windows_frame_times(s, inputs).len() ==>
            (#[trigger] windows_frame_times(s, inputs)[k]).1 == windows_frame_times(s, inputs)[k].0 - t0,
        forall|i: int, j: int| 0 <= i < windows_frame_times(s, inputs).len() && 0 <= j < windows_frame_times(s, inputs).len()
            && (#[trigger] windows_frame_times(s, inputs)[i]).0 <= (#[trigger] windows_frame_times(s, inputs)[j]).0
            ==> windows_frame_times(s, inputs)[i].1 <= windows_frame_times(s, inputs)[j].1,
    decreases inputs.len(),
{
    if inputs.len() > 0 {
        let (s1, _) = windows_input_step(s, inputs[0]);
        assert(s1.first_frame_time == Some(t0));
        let rest = inputs.drop_first();
        assert(frames_arrive_from(rest, t0)) by {
            assert forall|k: int| 0 <= k < rest.len() implies (#[trigger] rest[k] matches WindowsStreamInput::FrameArrived { capture_time, .. } ==> t0 <= capture_time) by {
                assert(rest[k] == inputs[k + 1]);
            }
        }
        law_windows_origin_times(s1, rest, t0);
        let tail = windows_frame_times(s1, rest);
        let all = windows_frame_times(s, inputs);
        assert(inputs[0] matches WindowsStreamInput::FrameArrived { capture_time, .. } ==> t0 <= capture_time);
        assert forall|k: int| 0 <= k < all.len() implies (#[trigger] all[k]).1 == all[k].0 - t0 by {
            if all.len() > tail.len() && k > 0 {
                assert(all[k] == tail[k - 1]);
            } else if all.len() == tail.len() {
                assert(all =~= tail);
            }
        }
    }
}

proof fn lemma_windows_audio_ids_bounded(s: WindowsStreamState, inputs: Seq<WindowsStreamInput>)
    requires
        s.audio_frame_id_counter + inputs.len() <= u64::MAX,
    ensures
        forall|k: int| 0 <= k < windows_audio_ids_delivered(s, inputs).len() ==> s.audio_frame_id_counter <= #[trigger] windows_audio_ids_delivered(s, inputs)[k],
        forall|i: int, j: int| 0 <= i < j < windows_audio_ids_delivered(s, inputs).len() ==>
            #[trigger] windows_audio_ids_delivered(s, inputs)[i] < #[trigger] windows_audio_ids_delivered(s, inputs)[j],
    decreases inputs.len(),
{
    if inputs.len() > 0 {
        let (s1, d) = windows_input_step(s, inputs[0]);
        assert(s.audio_frame_id_counter <= s1.audio_frame_id_counter <= s.audio_frame_id_counter + 1);
        lemma_windows_audio_ids_bounded(s1, inputs.drop_first());
        let rest = windows_audio_ids_delivered(s1, inputs.drop_first());
        let all = windows_audio_ids_delivered(s, inputs);
        match d {
            Some(DeliveryModel::Audio(id)) => {
                assert(id == s.audio_frame_id_counter && s1.audio_frame_id_counter == s.audio_frame_id_counter + 1);
                assert(all == seq![id] + rest);
                assert forall|k: int| 0 <= k < all.len() implies s.audio_frame_id_counter <= #[trigger] all[k] by {
                    if k > 0 {
                        assert(all[k] == rest[k - 1]);
                    }
                }
                assert forall|i: int, j: int| 0 <= i < j < all.len() implies #[trigger] all[i] < #[trigger] all[j] by {
                    assert(all[j] == rest[j - 1]);
                    if i > 0 {
                        assert(all[i] == rest[i - 1]);
                    }
                }
            },
            _ => {
                assert(all =~= rest);
            },
        }
    }
}

/// A Windows stream delivers its audio frames with strictly increasing ids,
/// none below the audio counter it started from, on any run of inputs short
/// enough that the counter cannot wrap.
pub proof fn law_windows_audio_ids_increase(s: WindowsStreamState, inputs: Seq<WindowsStreamInput>)
    requires
        s.audio_frame_id_counter + inputs.len() <= u64::MAX,
    ensures
        forall|k: int| 0 <= k < windows_audio_ids_delivered(s, inputs).len() ==> s.audio_frame_id_counter <= #[trigger] windows_audio_ids_delivered(s, inputs)[k],
        forall|i: int, j: int| 0 <= i < j < windows_audio_ids_delivered(s, inputs).len() ==>
            #[trigger] windows_audio_ids_delivered(s, inputs)[i] < #[trigger] windows_audio_ids_delivered(s, inputs)[j],
{
    lemma_windows_audio_ids_bounded(s, inputs);
}

} // verus!

verus! {

use crate::capture_stream::{CaptureConfig, ImplCaptureConfig};

/// A capture config with Windows specific settings
pub trait WindowsCaptureConfigExt: Sized {
    /// Capture with the given DXGI adapter (its raw interface pointer)
    fn with_dxgi_adapter(self, dxgi_adapter: usize) -> Self;
    /// Capture with the given D3D11 device (its raw interface pointer)
    fn with_d3d11_device(self, d3d11_device: usize) -> Self;
}

impl WindowsCaptureConfigExt for CaptureConfig {
    fn with_dxgi_adapter(self, dxgi_adapter: usize) -> (r: Self)
        ensures
            r == (CaptureConfig {
                impl_capture_config: ImplCaptureConfig {
                    windows: WindowsCaptureConfig { dxgi_adapter: Some(dxgi_adapter), ..self.impl_capture_config.windows },
                    ..self.impl_capture_config
                },
                ..self
            }),
    {
        let CaptureConfig { target, show_cursor, pixel_format, capture_audio, impl_capture_config, buffer_count } = self;
        CaptureConfig {
            target,
            show_cursor,
            pixel_format,
            capture_audio,
            impl_capture_config: ImplCaptureConfig {
                macos: impl_capture_config.macos,
                windows: WindowsCaptureConfig { dxgi_adapter: Some(dxgi_adapter), d3d11_device: impl_capture_config.windows.d3d11_device },
            },
            buffer_count,
        }
    }

    fn with_d3d11_device(self, d3d11_device: usize) -> (r: Self)
        ensures
            r == (CaptureConfig {
                impl_capture_config: ImplCaptureConfig {
                    windows: WindowsCaptureConfig { d3d11_device: Some(d3d11_device), ..self.impl_capture_config.windows },
                    ..self.impl_capture_config
                },
                ..self
            }),
    {
        let CaptureConfig { target, show_cursor, pixel_format, capture_audio, impl_capture_config, buffer_count } = self;
        CaptureConfig {
            target,
            show_cursor,
            pixel_format,
            capture_audio,
            impl_capture_config: ImplCaptureConfig {
                macos: impl_capture_config.macos,
                windows: WindowsCaptureConfig { dxgi_adapter: impl_capture_config.windows.dxgi_adapter, d3d11_device: Some(d3d11_device) },
            },
            buffer_count,
        }
    }
}

/// An audio capture config with Windows specific settings; there are none
pub trait WindowsAudioCaptureConfigExt {}

impl WindowsAudioCaptureConfigExt for CaptureConfig {}

} // verus!

verus! {

/// The steps of creating a Windows capture stream that can fail, with the
/// system's error text where the stream reports it
pub enum WindowsStreamCreateStep {
    InteropFactory,
    ItemFromWindow(String),
    ItemFromMonitor,
    DxgiFactory,
    EnumerateAdapter,
    D3d11DeviceMissing,
    D3d11Device,
    DxgiDeviceCast,
    Direct3DDevice,
    Direct3DDeviceCast,
    FramePool(String),
    FrameArrivedListener,
    ClosedListener,
    CaptureSession,
    AudioStream,
    StartCapture,
}

/// What a failed step of creating a Windows stream reports
pub open spec fn create_step_message(step: WindowsStreamCreateStep) -> Seq<char> {
    match step {
        WindowsStreamCreateStep::InteropFactory => "Failed to create IGraphicsCaptureInterop factory"@,
        WindowsStreamCreateStep::ItemFromWindow(e) => "Failed to create graphics capture item from HWND: "@ + e@,
        WindowsStreamCreateStep::ItemFromMonitor => "Failed to create graphics capture item from HMONITOR"@,
        WindowsStreamCreateStep::DxgiFactory => "Failed to create IDXGIAdapter factory"@,
        WindowsStreamCreateStep::EnumerateAdapter => "Failed to enumerate IDXGIAdapter"@,
        WindowsStreamCreateStep::D3d11DeviceMissing => "Failed to create ID3D11Device"@,
        WindowsStreamCreateStep::D3d11Device => "Failed to create d3d11 device"@,
        WindowsStreamCreateStep::DxgiDeviceCast => "Failed to cast ID3D11Device to IDXGIDevice"@,
        WindowsStreamCreateStep::Direct3DDevice => "Failed to create IDirect3DDevice from IDXGIDevice"@,
        WindowsStreamCreateStep::Direct3DDeviceCast => "Failed to cast IInspectible to IDirect3DDevice"@,
        WindowsStreamCreateStep::FramePool(e) => "Failed to create Direct3D11CaptureFramePool: "@ + e@,
        WindowsStreamCreateStep::FrameArrivedListener => "Failed to listen to FrameArrived event"@,
        WindowsStreamCreateStep::ClosedListener => "Failed to listen to Closed event"@,
        WindowsStreamCreateStep::CaptureSession => "Failed to create GraphicsCaptureSession"@,
        WindowsStreamCreateStep::AudioStream => "Failed to create audio stream"@,
        WindowsStreamCreateStep::StartCapture => "Failed to start capture"@,
    }
}

/// The error of a failed step of creating a Windows stream
pub fn create_step_error(step: WindowsStreamCreateStep) -> (r: StreamCreateError)
    ensures
        r matches StreamCreateError::Other(m) && m@ == create_step_message(step),
{
    let message = match step {
        WindowsStreamCreateStep::InteropFactory => {
            proof { reveal_strlit("Failed to create IGraphicsCaptureInterop factory"); }
            String::from_str("Failed to create IGraphicsCaptureInterop factory")
        },
        WindowsStreamCreateStep::ItemFromWindow(e) => String::from_str("Failed to create graphics capture item from HWND: ").concat(e.as_str()),
        WindowsStreamCreateStep::ItemFromMonitor => {
            proof { reveal_strlit("Failed to create graphics capture item from HMONITOR"); }
            String::from_str("Failed to create graphics capture item from HMONITOR")
        },
        WindowsStreamCreateStep::DxgiFactory => {
            proof { reveal_strlit("Failed to create IDXGIAdapter factory"); }
            String::from_str("Failed to create IDXGIAdapter factory")
        },
        WindowsStreamCreateStep::EnumerateAdapter => {
            proof { reveal_strlit("Failed to enumerate IDXGIAdapter"); }
            String::from_str("Failed to enumerate IDXGIAdapter")
        },
        WindowsStreamCreateStep::D3d11DeviceMissing => {
            proof { reveal_strlit("Failed to create ID3D11Device"); }
            String::from_str("Failed to create ID3D11Device")
        },
        WindowsStreamCreateStep::D3d11Device => {
            proof { reveal_strlit("Failed to create d3d11 device"); }
            String::from_str("Failed to create d3d11 device")
        },
        WindowsStreamCreateStep::DxgiDeviceCast => {
            proof { reveal_strlit("Failed to cast ID3D11Device to IDXGIDevice"); }
            String::from_str("Failed to cast ID3D11Device to IDXGIDevice")
        },
        WindowsStreamCreateStep::Direct3DDevice => {
            proof { reveal_strlit("Failed to create IDirect3DDevice from IDXGIDevice"); }
            String::from_str("Failed to create IDirect3DDevice from IDXGIDevice")
        },
        WindowsStreamCreateStep::Direct3DDeviceCast => {
            proof { reveal_strlit("Failed to cast IInspectible to IDirect3DDevice"); }
            String::from_str("Failed to cast IInspectible to IDirect3DDevice")
        },
        WindowsStreamCreateStep::FramePool(e) => String::from_str("Failed to create Direct3D11CaptureFramePool: ").concat(e.as_str()),
        WindowsStreamCreateStep::FrameArrivedListener => {
            proof { reveal_strlit("Failed to listen to FrameArrived event"); }
            String::from_str("Failed to listen to FrameArrived event")
        },
        WindowsStreamCreateStep::ClosedListener => {
            proof { reveal_strlit("Failed to listen to Closed event"); }
            String::from_str("Failed to listen to Closed event")
        },
        WindowsStreamCreateStep::CaptureSession => {
            proof { reveal_strlit("Failed to create GraphicsCaptureSession"); }
            String::from_str("Failed to create GraphicsCaptureSession")
        },
        WindowsStreamCreateStep::AudioStream => {
            proof { reveal_strlit("Failed to create audio stream"); }
            String::from_str("Failed to create audio stream")
        },
        WindowsStreamCreateStep::StartCapture => {
            proof { reveal_strlit("Failed to start capture"); }
            String::from_str("Failed to start capture")
        },
    };
    StreamCreateError::Other(message)
}

} // verus!
