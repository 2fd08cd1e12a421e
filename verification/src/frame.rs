use vstd::prelude::*;

verus! {

/// Declares `std::time::Instant`, an instant on the machine's monotonic
/// clock, as an opaque type: frames carry it through, and nothing is claimed
/// of its values.
#[verifier::external_type_specification]
#[verifier::external_body]
pub struct ExInstant(std::time::Instant);

/// The rate to capture audio samples
#[derive(Copy, Clone, Debug, PartialEq, Eq)]
pub enum AudioSampleRate {
    Hz8000,
    Hz16000,
    Hz24000,
    Hz48000,
}

/// The number of audio channels to capture
#[derive(Copy, Clone, Debug, PartialEq, Eq)]
pub enum AudioChannelCount {
    Mono,
    Stereo,
}

/// How many channels a channel count stands for
pub open spec fn channel_count_of(c: AudioChannelCount) -> nat {
    match c {
        AudioChannelCount::Mono => 1,
        AudioChannelCount::Stereo => 2,
    }
}

} // verus!

verus! {

/// Audio samples of one channel, read from an interleaved buffer: sample `i`
/// lies `stride * i` bytes after the sample at element `start`.
pub struct AudioChannelDataSamples<T> {
    pub data: Vec<T>,
    pub start: usize,
    pub stride: usize,
    pub length: usize,
}

impl<T> AudioChannelDataSamples<T> {
    /// The number of samples
    pub fn length(&self) -> (r: usize)
        ensures
            r == self.length,
    {
        self.length
    }
}

impl AudioChannelDataSamples<i16> {
    /// The element of the buffer that holds sample `i`, for 2-byte samples.
    pub open spec fn element_of(&self, i: int) -> int {
        self.start + (self.stride * i) / 2
    }

    /// Reads sample `i`
    pub fn get(&self, i: usize) -> (r: i16)
        requires
            (self.stride * i) % 2 == 0,
            self.element_of(i as int) < self.data@.len(),
        ensures
            r == self.data@[self.element_of(i as int)],
    {
        let len = self.data.len();
        assert((self.stride as u128 * i as u128) == self.stride * i) by (nonlinear_arith)
            requires self.stride <= usize::MAX, i <= usize::MAX;
        let offset = ((self.stride as u128 * i as u128) / 2) as usize;
        self.data[self.start + offset]
    }
}

/// `r` is the result of reading channel `channel` of interleaved samples
/// `data`: a mono buffer has channel 0 only and a stereo buffer channels 0
/// and 1, and another channel is refused. Sample `i` of channel `c` is
/// element `c + i * channels`, so the samples start at element `c`, step
/// `2 * channels` bytes from one to the next, and there is one for each
/// whole frame of `channels` elements.
pub open spec fn is_channel_samples_of(
    r: Result<AudioChannelDataSamples<i16>, AudioBufferError>,
    data: Seq<i16>,
    channel_count: AudioChannelCount,
    channel: usize,
) -> bool {
    let n = channel_count_of(channel_count);
    &&& (channel >= n <==> (r matches Err(AudioBufferError::InvalidChannel)))
    &&& (channel < n ==> (r matches Ok(samples) && {
        &&& samples.data@ == data
        &&& samples.start == channel
        &&& samples.stride == 2 * n
        &&& samples.length == data.len() / n
        &&& forall|i: int| 0 <= i < samples.length ==> {
            &&& #[trigger] samples.element_of(i) == channel + i * n
            &&& samples.element_of(i) < data.len()
            &&& (samples.stride * i) % 2 == 0
        }
    }))
}

/// The samples of one channel of interleaved 16-bit samples: see
/// [`is_channel_samples_of`]
pub fn channel_samples(data: &Vec<i16>, channel_count: AudioChannelCount, channel: usize) -> (r: Result<AudioChannelDataSamples<i16>, AudioBufferError>)
    ensures
        is_channel_samples_of(r, data@, channel_count, channel),
{
    let channels: usize = match channel_count {
        AudioChannelCount::Mono => 1,
        AudioChannelCount::Stereo => 2,
    };
    if channel >= channels {
        return Err(AudioBufferError::InvalidChannel);
    }
    let copied = data.clone();
    proof { assert(copied@ =~= data@); }
    let samples = AudioChannelDataSamples {
        data: copied,
        start: channel,
        stride: 2 * channels,
        length: data.len() / channels,
    };
    proof {
        let n = channels as int;
        let len = data@.len() as int;
        assert forall|i: int| 0 <= i < samples.length implies {
            &&& #[trigger] samples.element_of(i) == channel + i * n
            &&& samples.element_of(i) < len
            &&& (samples.stride * i) % 2 == 0
        } by {
            assert((2 * n * i) / 2 == i * n && (2 * n * i) % 2 == 0) by (nonlinear_arith)
                requires n == 1 || n == 2;
            assert(channel + i * n < len) by (nonlinear_arith)
                requires n == 1 || n == 2, 0 <= channel < n, 0 <= i < len / n, len >= 0;
        }
    }
    Ok(samples)
}

/// Represents an error getting the data for an audio channel
#[derive(Debug)]
pub enum AudioBufferError {
    /// The audio sample format was not supported
    UnsupportedFormat,
    /// The requested channel number wasn't present
    InvalidChannel,
    Other(String),
}

/// A frame of captured audio
pub struct AudioFrame {
    /// The interleaved 16-bit samples of the frame's channels
    pub data: Vec<i16>,
    pub sample_rate: AudioSampleRate,
    pub channel_count: AudioChannelCount,
    pub duration: std::time::Duration,
    pub origin_time: std::time::Duration,
    pub frame_id: u64,
}

impl AudioFrame {
    /// Get the sample rate of the captured audio
    pub fn sample_rate(&self) -> (r: AudioSampleRate)
        ensures
            r == self.sample_rate,
    {
        self.sample_rate
    }

    /// Get the channel count of the captured audio
    pub fn channel_count(&self) -> (r: AudioChannelCount)
        ensures
            r == self.channel_count,
    {
        self.channel_count
    }

    /// Get the duration of this audio frames
    pub fn duration(&self) -> (r: std::time::Duration)
        ensures
            r == self.duration,
    {
        self.duration
    }

    /// Get the time since the start of the stream that this audio frame begins at
    pub fn origin_time(&self) -> (r: std::time::Duration)
        ensures
            r == self.origin_time,
    {
        self.origin_time
    }

    /// Get the sequence id of this frame (monotonically increasing)
    ///
    /// Note: This is separate from video frame ids
    pub fn frame_id(&self) -> (r: u64)
        ensures
            r == self.frame_id,
    {
        self.frame_id
    }

    /// Get the samples of one channel of the frame: see [`channel_samples`]
    pub fn audio_channel_buffer(&self, channel: usize) -> (r: Result<AudioChannelDataSamples<i16>, AudioBufferError>)
        ensures
            is_channel_samples_of(r, self.data@, self.channel_count, channel),
    {
        channel_samples(&self.data, self.channel_count, channel)
    }
}

/// A frame of captured video
pub struct VideoFrame {
    pub frame_id: u64,
    pub capture_time: std::time::Instant,
    pub origin_time: std::time::Duration,
    pub duration: std::time::Duration,
}

impl VideoFrame {
    /// Get the sequence id of this video frame (monotonically increasing)
    ///
    /// Note: This is separate from audio frame ids
    pub fn frame_id(&self) -> (r: u64)
        ensures
            r == self.frame_id,
    {
        self.frame_id
    }

    /// Get the Instant that this frame was delivered to the application
    pub fn capture_time(&self) -> (r: std::time::Instant)
        ensures
            r == self.capture_time,
    {
        self.capture_time
    }

    /// Get the time since the start of the stream that this frame was generated
    pub fn origin_time(&self) -> (r: std::time::Duration)
        ensures
            r == self.origin_time,
    {
        self.origin_time
    }
}

} // verus!
