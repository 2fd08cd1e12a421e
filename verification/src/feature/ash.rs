use vstd::prelude::*;
use vstd::string::*;

verus! {

/// Identifies planes of a video frame
#[derive(Copy, Clone, Debug, PartialEq, Eq, Structural)]
pub enum AshVideoFramePlaneTexture {
    /// The single RGBA plane for an RGBA format frame
    Rgba,
    /// The Luminance (Y, brightness) plane for a YCbCr format frame
    Luminance,
    /// The Chrominance (CbCr, Blue/Red) plane for a YCbCr format frame
    Chroma,
}

/// Represents an error getting the Vulkan image of a video frame
#[derive(Clone, Debug)]
pub enum AshVideoFrameError {
    Other(String),
}

impl AshVideoFrameError {
    /// The display text of the error
    pub fn to_display_string(&self) -> (r: String)
        ensures
            match self {
                AshVideoFrameError::Other(m) => r@ == "AshVideoFrameError::Other(\""@ + m@ + "\")"@,
            },
    {
        match self {
            AshVideoFrameError::Other(m) => String::from_str("AshVideoFrameError::Other(\"").concat(m.as_str()).concat("\")"),
        }
    }
}

/// A capture stream that shares its frames with a Vulkan device
pub trait AshCaptureStreamExt {}

} // verus!
