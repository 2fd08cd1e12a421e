use vstd::prelude::*;
use vstd::string::*;

use crate::capture_stream::{StreamCreateError, StreamError, StreamEvent};
use crate::frame::VideoFrame;
use crate::platform::macos::capture_stream::SCStreamCallback;
use crate::platform::macos::objc_wrap::{SCStreamCallbackError, SCStreamOutputType};

verus! {

/// Represents an error while taking a screenshot
#[derive(Debug)]
pub enum ScreenshotError {
    Other(String),
}

impl ScreenshotError {
    pub open spec fn message(&self) -> Seq<char> {
        match self {
            ScreenshotError::Other(m) => m@,
        }
    }

    /// The display text of the error: `ScreenshotError::Other(<message>)`
    pub fn to_display_string(&self) -> (r: String)
        ensures
            r@ == "ScreenshotError::Other("@ + self.message() + ")"@,
    {
        match self {
            ScreenshotError::Other(m) => String::from_str("ScreenshotError::Other(").concat(m.as_str()).concat(")"),
        }
    }
}

/// Waits for the first frame or error of a Windows stream: only the first
/// one is handed on.
#[derive(Copy, Clone, Debug, PartialEq, Eq, Structural)]
pub struct WindowsScreenshotWaiter {
    pub sent: bool,
}

impl WindowsScreenshotWaiter {
    pub fn new() -> (r: Self)
        ensures
            !r.sent,
    {
        WindowsScreenshotWaiter { sent: false }
    }

    /// Handles a stream event: the first video frame or error is handed on,
    /// everything else and everything after it is dropped.
    pub fn on_event(&mut self, event: Result<StreamEvent, StreamError>) -> (r: Option<Result<VideoFrame, StreamError>>)
        ensures
            old(self).sent ==> r is None && final(self).sent,
            !old(self).sent ==> match event {
                Ok(StreamEvent::Video(frame)) => r == Some(Ok::<VideoFrame, StreamError>(frame)) && final(self).sent,
                Err(e) => r == Some(Err::<VideoFrame, StreamError>(e)) && final(self).sent,
                Ok(_) => r is None && !final(self).sent,
            },
    {
        match event {
            Ok(StreamEvent::Video(frame)) => {
                if self.sent {
                    None
                } else {
                    self.sent = true;
                    Some(Ok(frame))
                }
            },
            Err(e) => {
                if self.sent {
                    None
                } else {
                    self.sent = true;
                    Some(Err(e))
                }
            },
            Ok(_) => None,
        }
    }
}

/// The error of a Windows screenshot whose stream could not be created
pub fn screenshot_create_error(error: &StreamCreateError) -> (r: ScreenshotError)
    ensures
        r.message() == "Failed to create capture stream: "@ + error.display_text(),
{
    ScreenshotError::Other(String::from_str("Failed to create capture stream: ").concat(error.to_display_string().as_str()))
}

/// The result of a Windows screenshot, from what its waiter handed on
/// (`None` when the stream ended without handing anything on)
pub fn windows_screenshot_result(received: Option<Result<VideoFrame, StreamError>>) -> (r: Result<VideoFrame, ScreenshotError>)
    ensures
        match received {
            None => r matches Err(e) && e.message() == "Failed to wait for result from callback"@,
            Some(Err(error)) => r matches Err(e) && e.message() == "Capture failed: "@ + error.display_text(),
            Some(Ok(frame)) => r matches Ok(f) && f == frame,
        },
{
    match received {
        None => {
            proof { reveal_strlit("Failed to wait for result from callback"); }
            Err(ScreenshotError::Other(String::from_str("Failed to wait for result from callback")))
        },
        Some(Err(error)) => Err(ScreenshotError::Other(String::from_str("Capture failed: ").concat(error.to_display_string().as_str()))),
        Some(Ok(frame)) => Ok(frame),
    }
}

/// What a failed Mac OS screenshot stream reports
pub open spec fn sc_failure_description(e: SCStreamCallbackError) -> Seq<char> {
    match e {
        SCStreamCallbackError::Other { description, .. } => description@,
        SCStreamCallbackError::SampleBufferCopyFailed => "Failed to copy sample buffer"@,
        SCStreamCallbackError::StreamStopped => "Stream stopped early"@,
    }
}

/// Waits for the first screen sample or failure of a Mac OS screenshot
/// stream: only the first one is handed on.
#[derive(Copy, Clone, Debug, PartialEq, Eq, Structural)]
pub struct MacosScreenshotWaiter {
    pub sent: bool,
}

impl MacosScreenshotWaiter {
    pub fn new() -> (r: Self)
        ensures
            !r.sent,
    {
        MacosScreenshotWaiter { sent: false }
    }

    /// Handles a stream callback: a screen sample is the screenshot (`Ok`), a
    /// failure fails it, audio is dropped; only the first outcome is handed on.
    pub fn on_stream_callback(&mut self, callback: SCStreamCallback) -> (r: Option<Result<(), ScreenshotError>>)
        ensures
            old(self).sent ==> r is None && final(self).sent,
            !old(self).sent ==> match callback {
                SCStreamCallback::Output { output_type: SCStreamOutputType::Screen, .. } => r matches Some(Ok(())) && final(self).sent,
                SCStreamCallback::Output { output_type: SCStreamOutputType::Audio, .. } => r is None && !final(self).sent,
                SCStreamCallback::Failure(e) => final(self).sent && (r matches Some(Err(err))
                    && err.message() == "Failed to capture screenshot: "@ + sc_failure_description(e)),
            },
    {
        let outcome: Option<Result<(), ScreenshotError>> = match callback {
            SCStreamCallback::Output { output_type: SCStreamOutputType::Screen, .. } => Some(Ok(())),
            SCStreamCallback::Output { output_type: SCStreamOutputType::Audio, .. } => None,
            SCStreamCallback::Failure(error) => {
                let description = match error {
                    SCStreamCallbackError::Other { description, .. } => description,
                    SCStreamCallbackError::SampleBufferCopyFailed => {
                        proof { reveal_strlit("Failed to copy sample buffer"); }
                        String::from_str("Failed to copy sample buffer")
                    },
                    SCStreamCallbackError::StreamStopped => {
                        proof { reveal_strlit("Stream stopped early"); }
                        String::from_str("Stream stopped early")
                    },
                };
                Some(Err(ScreenshotError::Other(String::from_str("Failed to capture screenshot: ").concat(description.as_str()))))
            },
        };
        match outcome {
            Some(result) => {
                if self.sent {
                    None
                } else {
                    self.sent = true;
                    Some(result)
                }
            },
            None => None,
        }
    }
}

/// The outcome of a screenshot taken by the system's screenshot manager,
/// from the manager's result (its error text when it failed)
pub fn macos_screenshot_capture_result(result: Result<(), String>) -> (r: Result<(), ScreenshotError>)
    ensures
        match result {
            Ok(()) => r is Ok,
            Err(error) => r matches Err(e) && e.message() == "Failed to capture screenshot: "@ + error@,
        },
{
    match result {
        Ok(()) => Ok(()),
        Err(error) => Err(ScreenshotError::Other(String::from_str("Failed to capture screenshot: ").concat(error.as_str()))),
    }
}

/// The error of a Mac OS screenshot whose stream could not be built, with the
/// system's error text
pub fn macos_screenshot_build_error(error: &str) -> (r: ScreenshotError)
    ensures
        r.message() == "Failed to build SCStream: "@ + error@,
{
    ScreenshotError::Other(String::from_str("Failed to build SCStream: ").concat(error))
}

/// The result of a Mac OS screenshot, from what its waiter handed on
/// (`None` when nothing was)
pub fn macos_screenshot_result(received: Option<Result<VideoFrame, ScreenshotError>>) -> (r: Result<VideoFrame, ScreenshotError>)
    ensures
        match received {
            None => r matches Err(e) && e.message() == "Failed to await callback future"@,
            Some(result) => r == result,
        },
{
    match received {
        None => {
            proof { reveal_strlit("Failed to await callback future"); }
            Err(ScreenshotError::Other(String::from_str("Failed to await callback future")))
        },
        Some(result) => result,
    }
}

} // verus!
