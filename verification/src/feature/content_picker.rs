use vstd::prelude::*;
use vstd::string::*;

use crate::capturable_content::{CapturableApplication, CapturableDisplay, CapturableWindow};
use crate::platform::macos::objc_wrap::{SC_CONTENT_SHARING_PICKER_MODE_SINGLE_DISPLAY, SC_CONTENT_SHARING_PICKER_MODE_SINGLE_WINDOW};

verus! {

/// Configuration for the content picker
///
/// Note: not all platforms support filtering or picking displays with their native content picker
pub struct SharableContentPickerConfig {
    /// Allow picking displays
    pub display: bool,
    /// Allow picking windows
    pub window: bool,
    /// Applications to exclude
    pub excluded_apps: Vec<CapturableApplication>,
}

impl Default for SharableContentPickerConfig {
    /// Displays and windows may be picked, and no application is excluded
    fn default() -> (r: Self)
        ensures
            r.display,
            r.window,
            r.excluded_apps@.len() == 0,
    {
        SharableContentPickerConfig { display: true, window: true, excluded_apps: Vec::new() }
    }
}

/// Represents an error picking content
#[derive(Debug)]
pub enum SharableContentPickerError {
    /// The picker config doesn't allow for any selectable content
    EmptyConfig,
    /// The backend doesn't support filtering content as specified by the config
    ConfigFilteringUnsupported,
    Other(String),
}

/// Content picked by the picker
pub enum PickedSharableContent {
    Window(CapturableWindow),
    Display(CapturableDisplay),
}

/// The picker modes the Mac OS picker allows: a single display if displays
/// may be picked, a single window if windows may be.
pub fn macos_picker_modes(config: &SharableContentPickerConfig) -> (r: usize)
    ensures
        r == (if config.display { SC_CONTENT_SHARING_PICKER_MODE_SINGLE_DISPLAY } else { 0 })
            + (if config.window { SC_CONTENT_SHARING_PICKER_MODE_SINGLE_WINDOW } else { 0 }),
{
    let display_mode: usize = if config.display { SC_CONTENT_SHARING_PICKER_MODE_SINGLE_DISPLAY } else { 0 };
    let window_mode: usize = if config.window { SC_CONTENT_SHARING_PICKER_MODE_SINGLE_WINDOW } else { 0 };
    let modes = display_mode | window_mode;
    assert(modes == display_mode + window_mode) by (bit_vector)
        requires
            display_mode == 0 || display_mode == 16,
            window_mode == 0 || window_mode == 1,
            modes == display_mode | window_mode,
    ;
    modes
}

/// A picker config that allows neither displays nor windows is empty and
/// refused before any picker is shown; any other config may be shown on Mac
/// OS.
pub fn macos_picker_check(config: &SharableContentPickerConfig) -> (r: Result<(), SharableContentPickerError>)
    ensures
        !config.display && !config.window <==> r matches Err(SharableContentPickerError::EmptyConfig),
        config.display || config.window <==> r is Ok,
{
    if !config.display && !config.window {
        Err(SharableContentPickerError::EmptyConfig)
    } else {
        Ok(())
    }
}

/// The Windows picker refuses an empty config, and cannot filter: it needs
/// displays and windows allowed and no application excluded.
pub fn windows_picker_check(config: &SharableContentPickerConfig) -> (r: Result<(), SharableContentPickerError>)
    ensures
        (!config.display && !config.window) ==> r matches Err(SharableContentPickerError::EmptyConfig),
        (config.display && config.window && config.excluded_apps@.len() == 0) ==> r is Ok,
        (config.display || config.window) && !(config.display && config.window && config.excluded_apps@.len() == 0)
            ==> r matches Err(SharableContentPickerError::ConfigFilteringUnsupported),
{
    if !config.display && !config.window {
        Err(SharableContentPickerError::EmptyConfig)
    } else if !config.display || !config.window || config.excluded_apps.len() != 0 {
        Err(SharableContentPickerError::ConfigFilteringUnsupported)
    } else {
        Ok(())
    }
}

/// The events of the Mac OS picker
#[derive(Copy, Clone, Debug, PartialEq, Eq, Structural)]
pub enum PickerEvent {
    /// The user cancelled the picker
    Cancelled,
    /// The user picked content
    DidUpdate,
}

/// The outcome of the Mac OS picker, from what its observer received: the
/// event, or the picker's error description, or nothing when the observer
/// went away. A cancelled picker picks nothing; reading picked content is
/// not implemented, so a picked event is not admitted.
pub fn macos_picker_outcome(received: Option<Result<PickerEvent, String>>) -> (r: Result<Option<PickedSharableContent>, SharableContentPickerError>)
    requires
        received != Some(Ok::<PickerEvent, String>(PickerEvent::DidUpdate)),
    ensures
        match received {
            None => r matches Err(SharableContentPickerError::Other(m)) && m@ == "Failed to receive event from future"@,
            Some(Err(e)) => r matches Err(SharableContentPickerError::Other(m))
                && m@ == "Failed to receive sharable content from picker: "@ + e@,
            Some(Ok(_)) => r matches Ok(None),
        },
{
    match received {
        None => {
            proof { reveal_strlit("Failed to receive event from future"); }
            Err(SharableContentPickerError::Other(String::from_str("Failed to receive event from future")))
        },
        Some(Err(e)) => Err(SharableContentPickerError::Other(
            String::from_str("Failed to receive sharable content from picker: ").concat(e.as_str()),
        )),
        Some(Ok(_)) => Ok(None),
    }
}

} // verus!
