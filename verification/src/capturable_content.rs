use vstd::prelude::*;
use vstd::string::*;

use crate::platform::macos::capturable_content::MacosCapturableContentFilter;

verus! {

/// Represents an error that occured when enumerating capturable content
#[derive(Debug, Clone)]
pub enum CapturableContentError {
    Other(String),
}

impl CapturableContentError {
    /// The display text of the error: `CapturableContentError::Other("<message>")`
    pub fn to_display_string(&self) -> (r: String)
        ensures
            match self {
                CapturableContentError::Other(m) => r@ == "CapturableContentError::Other(\""@ + m@ + "\")"@,
            },
    {
        match self {
            CapturableContentError::Other(message) => String::from_str("CapturableContentError::Other(\"").concat(message.as_str()).concat("\")"),
        }
    }
}

/// Selects the kind of windows to enumerate for capture
#[derive(Copy, Clone, Debug, PartialEq, Eq, Structural)]
pub struct CapturableWindowFilter {
    /// Desktop windows are elements of the desktop environment, E.G. the dock on macos or the start bar on windows.
    pub desktop_windows: bool,
    /// Whether to restrict to onscreen windows
    pub onscreen_only: bool,
}

impl Default for CapturableWindowFilter {
    fn default() -> (r: Self)
        ensures
            r == (CapturableWindowFilter { desktop_windows: false, onscreen_only: true }),
    {
        CapturableWindowFilter { desktop_windows: false, onscreen_only: true }
    }
}

/// Selects the kind of capturable content to enumerate
#[derive(Debug)]
pub struct CapturableContentFilter {
    /// What kind of capturable windows, if Some, to enumerate
    pub windows: Option<CapturableWindowFilter>,
    /// Whether to enumerate capturable displays
    pub displays: bool,
    /// Mac OS specific options
    pub impl_capturable_content_filter: MacosCapturableContentFilter,
}

impl CapturableContentFilter {
    /// Whether this filter allows any capturable content
    pub fn is_empty(&self) -> (r: bool)
        ensures
            r == (self.windows is None && !self.displays),
    {
        !(self.windows.is_some() || self.displays)
    }

    /// Displays only
    #[allow(non_snake_case)]
    pub fn DISPLAYS() -> (r: Self)
        ensures
            r.windows == None::<CapturableWindowFilter>,
            r.displays,
            r.impl_capturable_content_filter.is_default(),
    {
        CapturableContentFilter { windows: None, displays: true, impl_capturable_content_filter: MacosCapturableContentFilter::DEFAULT() }
    }

    /// All windows, including desktop and offscreen windows
    #[allow(non_snake_case)]
    pub fn ALL_WINDOWS() -> (r: Self)
        ensures
            r.windows == Some(CapturableWindowFilter { desktop_windows: true, onscreen_only: false }),
            !r.displays,
            r.impl_capturable_content_filter.is_default(),
    {
        CapturableContentFilter {
            windows: Some(CapturableWindowFilter { desktop_windows: true, onscreen_only: false }),
            displays: false,
            impl_capturable_content_filter: MacosCapturableContentFilter::DEFAULT(),
        }
    }

    /// All windows and all displays
    #[allow(non_snake_case)]
    pub fn EVERYTHING() -> (r: Self)
        ensures
            r.windows == Some(CapturableWindowFilter { desktop_windows: true, onscreen_only: false }),
            r.displays,
            r.impl_capturable_content_filter.is_default(),
    {
        CapturableContentFilter {
            windows: Some(CapturableWindowFilter { desktop_windows: true, onscreen_only: false }),
            displays: true,
            impl_capturable_content_filter: MacosCapturableContentFilter::DEFAULT(),
        }
    }

    /// Onscreen windows that are not part of the desktop
    #[allow(non_snake_case)]
    pub fn NORMAL_WINDOWS() -> (r: Self)
        ensures
            r.windows == Some(CapturableWindowFilter { desktop_windows: false, onscreen_only: true }),
            !r.displays,
            r.impl_capturable_content_filter.is_default(),
    {
        CapturableContentFilter {
            windows: Some(CapturableWindowFilter { desktop_windows: false, onscreen_only: true }),
            displays: false,
            impl_capturable_content_filter: MacosCapturableContentFilter::DEFAULT(),
        }
    }

    /// Normal windows and all displays
    #[allow(non_snake_case)]
    pub fn EVERYTHING_NORMAL() -> (r: Self)
        ensures
            r.windows == Some(CapturableWindowFilter { desktop_windows: false, onscreen_only: true }),
            r.displays,
            r.impl_capturable_content_filter.is_default(),
    {
        CapturableContentFilter {
            windows: Some(CapturableWindowFilter { desktop_windows: false, onscreen_only: true }),
            displays: true,
            impl_capturable_content_filter: MacosCapturableContentFilter::DEFAULT(),
        }
    }
}

} // verus!

verus! {

/// Represents an application with capturable windows
#[derive(Debug)]
pub struct CapturableApplication {
    /// On Macos, the application bundle id; on windows, the application file name
    pub identifier: String,
    /// The application's display name
    pub name: String,
    /// The id of the application's process
    pub pid: i32,
}

impl Clone for CapturableApplication {
    fn clone(&self) -> (r: Self)
        ensures
            r == *self,
    {
        CapturableApplication { identifier: self.identifier.clone(), name: self.name.clone(), pid: self.pid }
    }
}

impl CapturableApplication {
    /// Gets the "identifier" of the application
    ///
    /// On Macos, this is the application bundle, and on windows, this is the application file name
    pub fn identifier(&self) -> (r: String)
        ensures
            r@ == self.identifier@,
    {
        self.identifier.clone()
    }
}

/// Represents a capturable application window, as it was when the capturable
/// content was enumerated
#[derive(Debug)]
pub struct CapturableWindow {
    /// The native id of the window: the `CGWindowID` on Mac OS, the `HWND` on windows
    pub window_id: u64,
    /// The title of the window
    pub title: String,
    /// The application that owns the window
    pub application: CapturableApplication,
}

impl Clone for CapturableWindow {
    fn clone(&self) -> (r: Self)
        ensures
            r == *self,
    {
        CapturableWindow { window_id: self.window_id, title: self.title.clone(), application: self.application.clone() }
    }
}

impl CapturableWindow {
    /// Gets the title of the window
    pub fn title(&self) -> (r: String)
        ensures
            r@ == self.title@,
    {
        self.title.clone()
    }

    /// Gets the application that owns this window
    pub fn application(&self) -> (r: CapturableApplication)
        ensures
            r == self.application,
    {
        self.application.clone()
    }
}

/// Represents a capturable display
#[derive(Copy, Clone, Debug, PartialEq, Eq, Structural)]
pub struct CapturableDisplay {
    /// The native id of the display: the `CGDirectDisplayID` on Mac OS, the `HMONITOR` on windows
    pub display_id: u64,
}

/// Something that can be captured: a window or a display
#[derive(Clone, Debug)]
pub enum Capturable {
    Window(CapturableWindow),
    Display(CapturableDisplay),
}

/// Capturable windows and displays, as enumerated from the OS
pub struct CapturableContent {
    windows: Vec<CapturableWindow>,
    displays: Vec<CapturableDisplay>,
}

impl CapturableContent {
    pub closed spec fn windows_view(&self) -> Seq<CapturableWindow> {
        self.windows@
    }

    pub closed spec fn displays_view(&self) -> Seq<CapturableDisplay> {
        self.displays@
    }

    /// Capturable content holding the given windows and displays, in order
    pub fn from_parts(windows: Vec<CapturableWindow>, displays: Vec<CapturableDisplay>) -> (r: Self)
        ensures
            r.windows_view() == windows@,
            r.displays_view() == displays@,
    {
        CapturableContent { windows, displays }
    }

    /// Get an iterator over the capturable windows
    pub fn windows<'a>(&'a self) -> (r: CapturableWindowIterator<'a>)
        ensures
            r.content() == self,
            r.position() == 0,
    {
        CapturableWindowIterator { content: self, i: 0 }
    }

    /// Get an iterator over the capturable displays
    pub fn displays<'a>(&'a self) -> (r: CapturableDisplayIterator<'a>)
        ensures
            r.content() == self,
            r.position() == 0,
    {
        CapturableDisplayIterator { content: self, i: 0 }
    }
}

/// An iterator over capturable windows
pub struct CapturableWindowIterator<'content> {
    content: &'content CapturableContent,
    i: usize,
}

impl<'content> CapturableWindowIterator<'content> {
    #[verifier::type_invariant]
    spec fn within_content(self) -> bool {
        self.i <= self.content.windows@.len()
    }

    pub closed spec fn content(&self) -> &'content CapturableContent {
        self.content
    }

    /// The number of windows already yielded
    pub closed spec fn position(&self) -> nat {
        self.i as nat
    }

    /// Yields the next window, in enumeration order
    pub fn next(&mut self) -> (r: Option<CapturableWindow>)
        ensures
            final(self).content() == old(self).content(),
            old(self).position() < old(self).content().windows_view().len() ==> {
                &&& r == Some(old(self).content().windows_view()[old(self).position() as int])
                &&& final(self).position() == old(self).position() + 1
            },
            old(self).position() >= old(self).content().windows_view().len() ==> {
                &&& r is None
                &&& final(self).position() == old(self).position()
            },
    {
        if self.i < self.content.windows.len() {
            let i = self.i;
            self.i = self.i + 1;
            Some(self.content.windows[i].clone())
        } else {
            None
        }
    }

    /// The number of windows still to be yielded, exactly
    pub fn size_hint(&self) -> (r: (usize, Option<usize>))
        ensures
            self.position() <= self.content().windows_view().len() <= usize::MAX,
            r.0 == self.content().windows_view().len() - self.position(),
            r.1 == Some(r.0),
    {
        proof { use_type_invariant(self); }
        let left = self.content.windows.len() - self.i;
        (left, Some(left))
    }
}

/// An iterator over capturable displays
pub struct CapturableDisplayIterator<'content> {
    content: &'content CapturableContent,
    i: usize,
}

impl<'content> CapturableDisplayIterator<'content> {
    #[verifier::type_invariant]
    spec fn within_content(self) -> bool {
        self.i <= self.content.displays@.len()
    }

    pub closed spec fn content(&self) -> &'content CapturableContent {
        self.content
    }

    /// The number of displays already yielded
    pub closed spec fn position(&self) -> nat {
        self.i as nat
    }

    /// Yields the next display, in enumeration order
    pub fn next(&mut self) -> (r: Option<CapturableDisplay>)
        ensures
            final(self).content() == old(self).content(),
            old(self).position() < old(self).content().displays_view().len() ==> {
                &&& r == Some(old(self).content().displays_view()[old(self).position() as int])
                &&& final(self).position() == old(self).position() + 1
            },
            old(self).position() >= old(self).content().displays_view().len() ==> {
                &&& r is None
                &&& final(self).position() == old(self).position()
            },
    {
        if self.i < self.content.displays.len() {
            let i = self.i;
            self.i = self.i + 1;
            Some(self.content.displays[i])
        } else {
            None
        }
    }

    /// The number of displays still to be yielded, exactly
    pub fn size_hint(&self) -> (r: (usize, Option<usize>))
        ensures
            self.position() <= self.content().displays_view().len() <= usize::MAX,
            r.0 == self.content().displays_view().len() - self.position(),
            r.1 == Some(r.0),
    {
        proof { use_type_invariant(self); }
        let left = self.content.displays.len() - self.i;
        (left, Some(left))
    }

    /// The number of displays still to be yielded
    pub fn len(&self) -> (r: usize)
        ensures
            self.position() <= self.content().displays_view().len() <= usize::MAX,
            r == self.content().displays_view().len() - self.position(),
    {
        proof { use_type_invariant(self); }
        self.content.displays.len() - self.i
    }
}

} // verus!
