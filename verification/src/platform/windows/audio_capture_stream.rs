use vstd::prelude::*;
use vstd::string::*;

verus! {

/// An audio capture stream on Windows
#[derive(Debug)]
pub struct WindowsAudioCaptureStream {}

/// Represents an error creating an audio capture stream on Windows
#[derive(Debug)]
pub enum WindowsAudioCaptureStreamCreateError {
    Other(String),
    /// The default audio endpoint could not be found
    EnpointEnumerationFailed,
}

impl WindowsAudioCaptureStream {
    /// Creates an audio capture stream, from the outcome of creating the
    /// device enumerator (the system's error text when it failed) and of
    /// looking up the default render endpoint. Audio capture is not
    /// implemented on Windows: even with an endpoint, creation fails.
    pub fn new(device_enumerator: Result<(), String>, endpoint_found: bool) -> (r: Result<Self, WindowsAudioCaptureStreamCreateError>)
        ensures
            match device_enumerator {
                Err(e) => r matches Err(WindowsAudioCaptureStreamCreateError::Other(m))
                    && m@ == "Failed to create MMDeviceEnumerator: "@ + e@,
                Ok(()) => if !endpoint_found {
                    r matches Err(WindowsAudioCaptureStreamCreateError::EnpointEnumerationFailed)
                } else {
                    r matches Err(WindowsAudioCaptureStreamCreateError::Other(m))
                        && m@ == "WindowsAudioCaptureStream unimplemented!"@
                },
            },
    {
        match device_enumerator {
            Err(e) => {
                let message = String::from_str("Failed to create MMDeviceEnumerator: ").concat(e.as_str());
                Err(WindowsAudioCaptureStreamCreateError::Other(message))
            },
            Ok(()) => {
                if !endpoint_found {
                    Err(WindowsAudioCaptureStreamCreateError::EnpointEnumerationFailed)
                } else {
                    proof { reveal_strlit("WindowsAudioCaptureStream unimplemented!"); }
                    Err(WindowsAudioCaptureStreamCreateError::Other(String::from_str("WindowsAudioCaptureStream unimplemented!")))
                }
            },
        }
    }
}

} // verus!

verus! {

use crate::capture_stream::StreamCreateError;

/// The audio stream of a new capture stream, from the outcome of creating
/// it: any failure fails the capture stream with the same message.
pub fn capture_audio_stream(created: Result<WindowsAudioCaptureStream, WindowsAudioCaptureStreamCreateError>) -> (r: Result<WindowsAudioCaptureStream, StreamCreateError>)
    ensures
        created is Ok ==> r is Ok,
        created is Err ==> (r matches Err(StreamCreateError::Other(m)) && m@ == "Failed to create audio stream"@),
{
    match created {
        Ok(stream) => Ok(stream),
        Err(_) => {
            proof { reveal_strlit("Failed to create audio stream"); }
            Err(StreamCreateError::Other(String::from_str("Failed to create audio stream")))
        },
    }
}

} // verus!
