use vstd::prelude::*;
use vstd::string::*;

use crate::feature::bitmap::{FrameLayout, VideoFrameBitmapError};
use crate::frame::{AudioBufferError, AudioChannelCount};
use crate::platform::macos::objc_wrap::CVPixelFormat;

verus! {

/// What backs a Mac OS video frame: a screen capture sample, which may lack
/// an image buffer or an IOSurface, or a display stream surface.
#[derive(Copy, Clone, Debug, PartialEq, Eq, Structural)]
pub enum MacosFrameSurface {
    SCStream { has_image_buffer: bool, has_iosurface: bool },
    CGDisplayStream,
}

/// Whether a frame has an IOSurface to read
pub open spec fn has_surface(s: MacosFrameSurface) -> bool {
    match s {
        MacosFrameSurface::SCStream { has_image_buffer, has_iosurface } => has_image_buffer && has_iosurface,
        MacosFrameSurface::CGDisplayStream => true,
    }
}

/// The layout in which a Mac OS frame is copied into a bitmap, from its
/// surface, whether the surface could be locked for reading, the surface's
/// pixel format, and whether the base address of each of the format's planes
/// could be read: a frame without a surface, a surface that cannot be
/// locked, a format other than BGRA and the 4:2:0 formats, and a plane
/// without a base address are refused.
pub fn macos_bitmap_layout(surface: MacosFrameSurface, locked: bool, pixel_format: Option<CVPixelFormat>, planes_mapped: bool) -> (r: Result<FrameLayout, VideoFrameBitmapError>)
    ensures
        !has_surface(surface) ==> (r matches Err(VideoFrameBitmapError::Other(m)) && m@ == "Failed to get iosurface"@),
        has_surface(surface) && !locked ==> (r matches Err(VideoFrameBitmapError::Other(m)) && m@ == "Failed to lock iosurface"@),
        has_surface(surface) && locked ==> match pixel_format {
            Some(CVPixelFormat::BGRA8888) | Some(CVPixelFormat::V420) | Some(CVPixelFormat::F420) => if !planes_mapped {
                r matches Err(VideoFrameBitmapError::Other(m)) && m@ == "Failed to get base address of iosurface"@
            } else {
                r == Ok::<FrameLayout, VideoFrameBitmapError>(match pixel_format {
                    Some(CVPixelFormat::BGRA8888) => FrameLayout::Bgra8888,
                    Some(CVPixelFormat::V420) => FrameLayout::V420,
                    _ => FrameLayout::F420,
                })
            },
            _ => r matches Err(VideoFrameBitmapError::Other(m)) && m@ == "Unknown pixel format on iosurface"@,
        },
{
    let found = match surface {
        MacosFrameSurface::SCStream { has_image_buffer, has_iosurface } => has_image_buffer && has_iosurface,
        MacosFrameSurface::CGDisplayStream => true,
    };
    if !found {
        proof { reveal_strlit("Failed to get iosurface"); }
        return Err(VideoFrameBitmapError::Other(String::from_str("Failed to get iosurface")));
    }
    if !locked {
        proof { reveal_strlit("Failed to lock iosurface"); }
        return Err(VideoFrameBitmapError::Other(String::from_str("Failed to lock iosurface")));
    }
    let layout = match pixel_format {
        Some(CVPixelFormat::BGRA8888) => FrameLayout::Bgra8888,
        Some(CVPixelFormat::V420) => FrameLayout::V420,
        Some(CVPixelFormat::F420) => FrameLayout::F420,
        _ => {
            proof { reveal_strlit("Unknown pixel format on iosurface"); }
            return Err(VideoFrameBitmapError::Other(String::from_str("Unknown pixel format on iosurface")));
        },
    };
    if !planes_mapped {
        proof { reveal_strlit("Failed to get base address of iosurface"); }
        return Err(VideoFrameBitmapError::Other(String::from_str("Failed to get base address of iosurface")));
    }
    Ok(layout)
}

/// The channel count of Mac OS audio: one channel per frame is mono, any
/// other count stereo.
pub fn macos_audio_channel_count(channels_per_frame: u32) -> (r: AudioChannelCount)
    ensures
        r == (if channels_per_frame == 1 { AudioChannelCount::Mono } else { AudioChannelCount::Stereo }),
{
    if channels_per_frame == 1 { AudioChannelCount::Mono } else { AudioChannelCount::Stereo }
}

/// The format flags of canonical audio: packed native-endian floats
pub const K_AUDIO_FORMAT_FLAGS_CANONICAL: u32 = 9;

/// How the samples of a Mac OS audio frame are reached
#[derive(Copy, Clone, Debug, PartialEq, Eq, Structural)]
pub enum MacosAudioBufferSource {
    /// The frame's PCM buffer was already built
    Existing,
    /// A PCM buffer is to be built from the sample's buffer list
    Build,
}

/// The first step of reading a channel of Mac OS audio: an existing PCM
/// buffer is used; without one, canonical audio builds one and other
/// formats are refused.
pub fn macos_audio_buffer_source(has_pcm_buffer: bool, format_flags: u32) -> (r: Result<MacosAudioBufferSource, AudioBufferError>)
    ensures
        has_pcm_buffer ==> r matches Ok(MacosAudioBufferSource::Existing),
        !has_pcm_buffer && format_flags == K_AUDIO_FORMAT_FLAGS_CANONICAL ==> r matches Ok(MacosAudioBufferSource::Build),
        !has_pcm_buffer && format_flags != K_AUDIO_FORMAT_FLAGS_CANONICAL ==> r matches Err(AudioBufferError::UnsupportedFormat),
{
    if has_pcm_buffer {
        Ok(MacosAudioBufferSource::Existing)
    } else if format_flags == K_AUDIO_FORMAT_FLAGS_CANONICAL {
        Ok(MacosAudioBufferSource::Build)
    } else {
        Err(AudioBufferError::UnsupportedFormat)
    }
}

/// The outcome of building a PCM buffer for canonical audio, from whether
/// the sample's buffer list could be read and whether the PCM buffer could
/// be made over it
pub fn macos_built_pcm_buffer(buffer_list_read: bool, pcm_buffer_made: bool) -> (r: Result<(), AudioBufferError>)
    ensures
        !buffer_list_read ==> (r matches Err(AudioBufferError::Other(m))
            && m@ == "CMSampleBuffer::get_audio_buffer_list_with_block_buffer() failed"@),
        buffer_list_read && !pcm_buffer_made ==> (r matches Err(AudioBufferError::Other(m)) && m@ == "Failed to build PCM audio buffer"@),
        buffer_list_read && pcm_buffer_made ==> r is Ok,
{
    if !buffer_list_read {
        proof { reveal_strlit("CMSampleBuffer::get_audio_buffer_list_with_block_buffer() failed"); }
        return Err(AudioBufferError::Other(String::from_str("CMSampleBuffer::get_audio_buffer_list_with_block_buffer() failed")));
    }
    if !pcm_buffer_made {
        proof { reveal_strlit("Failed to build PCM audio buffer"); }
        return Err(AudioBufferError::Other(String::from_str("Failed to build PCM audio buffer")));
    }
    Ok(())
}

/// The last step of reading a channel of Mac OS audio, from the PCM buffer's
/// channel count and whether it holds float samples for the channel: a
/// channel past the count is refused, and a channel without float samples
/// cannot be read.
pub fn macos_audio_channel_check(channel: usize, channel_count: usize, has_f32_samples: bool) -> (r: Result<(), AudioBufferError>)
    ensures
        channel >= channel_count ==> r matches Err(AudioBufferError::InvalidChannel),
        channel < channel_count && has_f32_samples ==> r is Ok,
        channel < channel_count && !has_f32_samples ==> (r matches Err(AudioBufferError::Other(m)) && m@ == "Failed to get audio buffer"@),
{
    if channel >= channel_count {
        return Err(AudioBufferError::InvalidChannel);
    }
    if has_f32_samples {
        Ok(())
    } else {
        proof { reveal_strlit("Failed to get audio buffer"); }
        Err(AudioBufferError::Other(String::from_str("Failed to get audio buffer")))
    }
}

} // verus!
