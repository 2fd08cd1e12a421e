use vstd::prelude::*;
use vstd::string::*;

use crate::capturable_content::{CapturableContentError, CapturableContentFilter};

verus! {

/// Represents the "window level" of a native Mac OS window. Windows within the same level are ordered above or below levels that are above below or above this level respectively.
#[derive(Copy, Clone, Debug, PartialEq, Eq, Structural, PartialOrd, Ord)]
pub enum MacosWindowLevel {
    BelowDesktop,
    Desktop,
    DesktopIcon,
    Backstop,
    Normal,
    Floating,
    TornOffMenu,
    Dock,
    MainMenu,
    Status,
    ModalPanel,
    PopupMenu,
    Dragging,
    ScreenSaver,
    Overlay,
    Help,
    Utility,
    Cursor,
    AssistiveTechHigh,
}

impl MacosWindowLevel {
    /// The number of the level, in declaration order from 0 to 18.
    pub open spec fn spec_value(self) -> i32 {
        match self {
            MacosWindowLevel::BelowDesktop => 0,
            MacosWindowLevel::Desktop => 1,
            MacosWindowLevel::DesktopIcon => 2,
            MacosWindowLevel::Backstop => 3,
            MacosWindowLevel::Normal => 4,
            MacosWindowLevel::Floating => 5,
            MacosWindowLevel::TornOffMenu => 6,
            MacosWindowLevel::Dock => 7,
            MacosWindowLevel::MainMenu => 8,
            MacosWindowLevel::Status => 9,
            MacosWindowLevel::ModalPanel => 10,
            MacosWindowLevel::PopupMenu => 11,
            MacosWindowLevel::Dragging => 12,
            MacosWindowLevel::ScreenSaver => 13,
            MacosWindowLevel::Overlay => 14,
            MacosWindowLevel::Help => 15,
            MacosWindowLevel::Utility => 16,
            MacosWindowLevel::Cursor => 17,
            MacosWindowLevel::AssistiveTechHigh => 18,
        }
    }

    /// The number of the level (its position in the declaration order)
    pub fn value(&self) -> (r: i32)
        ensures
            r == self.spec_value(),
    {
        match self {
            MacosWindowLevel::BelowDesktop => 0,
            MacosWindowLevel::Desktop => 1,
            MacosWindowLevel::DesktopIcon => 2,
            MacosWindowLevel::Backstop => 3,
            MacosWindowLevel::Normal => 4,
            MacosWindowLevel::Floating => 5,
            MacosWindowLevel::TornOffMenu => 6,
            MacosWindowLevel::Dock => 7,
            MacosWindowLevel::MainMenu => 8,
            MacosWindowLevel::Status => 9,
            MacosWindowLevel::ModalPanel => 10,
            MacosWindowLevel::PopupMenu => 11,
            MacosWindowLevel::Dragging => 12,
            MacosWindowLevel::ScreenSaver => 13,
            MacosWindowLevel::Overlay => 14,
            MacosWindowLevel::Help => 15,
            MacosWindowLevel::Utility => 16,
            MacosWindowLevel::Cursor => 17,
            MacosWindowLevel::AssistiveTechHigh => 18,
        }
    }

    /// The variant's name, as its debug form prints it
    pub fn debug_name(&self) -> (r: &'static str)
        ensures
            r@ == self.spec_debug_name(),
    {
        match self {
            MacosWindowLevel::BelowDesktop => "BelowDesktop",
            MacosWindowLevel::Desktop => "Desktop",
            MacosWindowLevel::DesktopIcon => "DesktopIcon",
            MacosWindowLevel::Backstop => "Backstop",
            MacosWindowLevel::Normal => "Normal",
            MacosWindowLevel::Floating => "Floating",
            MacosWindowLevel::TornOffMenu => "TornOffMenu",
            MacosWindowLevel::Dock => "Dock",
            MacosWindowLevel::MainMenu => "MainMenu",
            MacosWindowLevel::Status => "Status",
            MacosWindowLevel::ModalPanel => "ModalPanel",
            MacosWindowLevel::PopupMenu => "PopupMenu",
            MacosWindowLevel::Dragging => "Dragging",
            MacosWindowLevel::ScreenSaver => "ScreenSaver",
            MacosWindowLevel::Overlay => "Overlay",
            MacosWindowLevel::Help => "Help",
            MacosWindowLevel::Utility => "Utility",
            MacosWindowLevel::Cursor => "Cursor",
            MacosWindowLevel::AssistiveTechHigh => "AssistiveTechHigh",
        }
    }

    pub open spec fn spec_debug_name(self) -> Seq<char> {
        match self {
            MacosWindowLevel::BelowDesktop => "BelowDesktop"@,
            MacosWindowLevel::Desktop => "Desktop"@,
            MacosWindowLevel::DesktopIcon => "DesktopIcon"@,
            MacosWindowLevel::Backstop => "Backstop"@,
            MacosWindowLevel::Normal => "Normal"@,
            MacosWindowLevel::Floating => "Floating"@,
            MacosWindowLevel::TornOffMenu => "TornOffMenu"@,
            MacosWindowLevel::Dock => "Dock"@,
            MacosWindowLevel::MainMenu => "MainMenu"@,
            MacosWindowLevel::Status => "Status"@,
            MacosWindowLevel::ModalPanel => "ModalPanel"@,
            MacosWindowLevel::PopupMenu => "PopupMenu"@,
            MacosWindowLevel::Dragging => "Dragging"@,
            MacosWindowLevel::ScreenSaver => "ScreenSaver"@,
            MacosWindowLevel::Overlay => "Overlay"@,
            MacosWindowLevel::Help => "Help"@,
            MacosWindowLevel::Utility => "Utility"@,
            MacosWindowLevel::Cursor => "Cursor"@,
            MacosWindowLevel::AssistiveTechHigh => "AssistiveTechHigh"@,
        }
    }
}

/// The window layer at which each Mac OS window level begins, as the window
/// server reports them.
#[derive(Copy, Clone, Debug)]
pub struct WindowLevels {
    pub desktop: i32,
    pub desktop_icon: i32,
    pub backstop: i32,
    pub normal: i32,
    pub floating: i32,
    pub torn_off_menu: i32,
    pub modal_panel: i32,
    pub utility: i32,
    pub dock: i32,
    pub main_menu: i32,
    pub status: i32,
    pub pop_up_menu: i32,
    pub overlay: i32,
    pub help: i32,
    pub dragging: i32,
    pub screen_saver: i32,
    pub assistive_tech_high: i32,
    pub cursor: i32,
}

/// The level of a window at the given layer: the level of the first bound,
/// in the order below, that the layer lies under; a layer at or above every
/// bound is at the cursor level.
pub open spec fn level_for_layer(l: WindowLevels, layer: i32) -> MacosWindowLevel {
    if layer < l.desktop {
        MacosWindowLevel::BelowDesktop
    } else if layer < l.desktop_icon {
        MacosWindowLevel::Desktop
    } else if layer < l.backstop {
        MacosWindowLevel::DesktopIcon
    } else if layer < l.normal {
        MacosWindowLevel::Backstop
    } else if layer < l.floating {
        MacosWindowLevel::Normal
    } else if layer < l.torn_off_menu {
        MacosWindowLevel::Floating
    } else if layer < l.modal_panel {
        MacosWindowLevel::TornOffMenu
    } else if layer < l.utility {
        MacosWindowLevel::ModalPanel
    } else if layer < l.dock {
        MacosWindowLevel::Utility
    } else if layer < l.main_menu {
        MacosWindowLevel::Dock
    } else if layer < l.status {
        MacosWindowLevel::MainMenu
    } else if layer < l.pop_up_menu {
        MacosWindowLevel::Status
    } else if layer < l.overlay {
        MacosWindowLevel::PopupMenu
    } else if layer < l.help {
        MacosWindowLevel::Overlay
    } else if layer < l.dragging {
        MacosWindowLevel::Help
    } else if layer < l.screen_saver {
        MacosWindowLevel::Dragging
    } else if layer < l.assistive_tech_high {
        MacosWindowLevel::ScreenSaver
    } else if layer < l.cursor {
        MacosWindowLevel::AssistiveTechHigh
    } else {
        MacosWindowLevel::Cursor
    }
}

/// With the level bounds in rising order, each level holds exactly the
/// layers from its own bound up to the next level's bound: a layer at a
/// level's bound is at that level (the Dock's layer at the Dock level, the
/// utility layer at the utility level), below the desktop bound a layer is
/// below the desktop, and from the cursor bound up it is at the cursor level.
pub proof fn law_layer_level_ranges(l: WindowLevels, layer: i32)
    requires
        l.desktop <= l.desktop_icon,
        l.desktop_icon <= l.backstop,
        l.backstop <= l.normal,
        l.normal <= l.floating,
        l.floating <= l.torn_off_menu,
        l.torn_off_menu <= l.modal_panel,
        l.modal_panel <= l.utility,
        l.utility <= l.dock,
        l.dock <= l.main_menu,
        l.main_menu <= l.status,
        l.status <= l.pop_up_menu,
        l.pop_up_menu <= l.overlay,
        l.overlay <= l.help,
        l.help <= l.dragging,
        l.dragging <= l.screen_saver,
        l.screen_saver <= l.assistive_tech_high,
        l.assistive_tech_high <= l.cursor,
    ensures
        layer < l.desktop ==> level_for_layer(l, layer) == MacosWindowLevel::BelowDesktop,
        l.desktop <= layer < l.desktop_icon ==> level_for_layer(l, layer) == MacosWindowLevel::Desktop,
        l.desktop_icon <= layer < l.backstop ==> level_for_layer(l, layer) == MacosWindowLevel::DesktopIcon,
        l.backstop <= layer < l.normal ==> level_for_layer(l, layer) == MacosWindowLevel::Backstop,
        l.normal <= layer < l.floating ==> level_for_layer(l, layer) == MacosWindowLevel::Normal,
        l.floating <= layer < l.torn_off_menu ==> level_for_layer(l, layer) == MacosWindowLevel::Floating,
        l.torn_off_menu <= layer < l.modal_panel ==> level_for_layer(l, layer) == MacosWindowLevel::TornOffMenu,
        l.modal_panel <= layer < l.utility ==> level_for_layer(l, layer) == MacosWindowLevel::ModalPanel,
        l.utility <= layer < l.dock ==> level_for_layer(l, layer) == MacosWindowLevel::Utility,
        l.dock <= layer < l.main_menu ==> level_for_layer(l, layer) == MacosWindowLevel::Dock,
        l.main_menu <= layer < l.status ==> level_for_layer(l, layer) == MacosWindowLevel::MainMenu,
        l.status <= layer < l.pop_up_menu ==> level_for_layer(l, layer) == MacosWindowLevel::Status,
        l.pop_up_menu <= layer < l.overlay ==> level_for_layer(l, layer) == MacosWindowLevel::PopupMenu,
        l.overlay <= layer < l.help ==> level_for_layer(l, layer) == MacosWindowLevel::Overlay,
        l.help <= layer < l.dragging ==> level_for_layer(l, layer) == MacosWindowLevel::Help,
        l.dragging <= layer < l.screen_saver ==> level_for_layer(l, layer) == MacosWindowLevel::Dragging,
        l.screen_saver <= layer < l.assistive_tech_high ==> level_for_layer(l, layer) == MacosWindowLevel::ScreenSaver,
        l.assistive_tech_high <= layer < l.cursor ==> level_for_layer(l, layer) == MacosWindowLevel::AssistiveTechHigh,
        l.cursor <= layer ==> level_for_layer(l, layer) == MacosWindowLevel::Cursor,
{
}

/// The window level of a window, from its layer; a layer that could not be
/// read gives an error.
pub fn get_window_level(window_levels: &WindowLevels, window_layer: Result<i32, ()>) -> (r: Result<MacosWindowLevel, ()>)
    ensures
        match window_layer {
            Ok(layer) => r == Ok::<MacosWindowLevel, ()>(level_for_layer(*window_levels, layer)),
            Err(_) => r is Err,
        },
{
    let level = match window_layer {
        Ok(level) => level,
        Err(e) => return Err(e),
    };
    Ok(
        if level < window_levels.desktop {
            MacosWindowLevel::BelowDesktop
        } else if level < window_levels.desktop_icon {
            MacosWindowLevel::Desktop
        } else if level < window_levels.backstop {
            MacosWindowLevel::DesktopIcon
        } else if level < window_levels.normal {
            MacosWindowLevel::Backstop
        } else if level < window_levels.floating {
            MacosWindowLevel::Normal
        } else if level < window_levels.torn_off_menu {
            MacosWindowLevel::Floating
        } else if level < window_levels.modal_panel {
            MacosWindowLevel::TornOffMenu
        } else if level < window_levels.utility {
            MacosWindowLevel::ModalPanel
        } else if level < window_levels.dock {
            MacosWindowLevel::Utility
        } else if level < window_levels.main_menu {
            MacosWindowLevel::Dock
        } else if level < window_levels.status {
            MacosWindowLevel::MainMenu
        } else if level < window_levels.pop_up_menu {
            MacosWindowLevel::Status
        } else if level < window_levels.overlay {
            MacosWindowLevel::PopupMenu
        } else if level < window_levels.help {
            MacosWindowLevel::Overlay
        } else if level < window_levels.dragging {
            MacosWindowLevel::Help
        } else if level < window_levels.screen_saver {
            MacosWindowLevel::Dragging
        } else if level < window_levels.assistive_tech_high {
            MacosWindowLevel::ScreenSaver
        } else if level < window_levels.cursor {
            MacosWindowLevel::AssistiveTechHigh
        } else {
            MacosWindowLevel::Cursor
        }
    )
}

/// Mac OS specific options of a capturable content filter
#[derive(Debug)]
pub struct MacosCapturableContentFilter {
    /// The inclusive range of window levels to keep; an absent end is unbounded
    pub window_level_range: (Option<MacosWindowLevel>, Option<MacosWindowLevel>),
    /// Bundle ids of applications whose windows are to be excluded
    pub excluded_bundle_ids: Option<Vec<String>>,
}

/// `level` lies in the inclusive range, by level number; an absent end
/// does not bound it.
pub open spec fn level_in_range(range: (Option<MacosWindowLevel>, Option<MacosWindowLevel>), level: MacosWindowLevel) -> bool {
    &&& range.0 matches Some(min) ==> level.spec_value() >= min.spec_value()
    &&& range.1 matches Some(max) ==> level.spec_value() <= max.spec_value()
}

impl MacosCapturableContentFilter {
    pub open spec fn is_default(&self) -> bool {
        &&& self.window_level_range == (None::<MacosWindowLevel>, None::<MacosWindowLevel>)
        &&& self.excluded_bundle_ids is None
    }

    /// No level range and no excluded applications
    #[allow(non_snake_case)]
    pub fn DEFAULT() -> (r: Self)
        ensures
            r.is_default(),
    {
        MacosCapturableContentFilter { window_level_range: (None, None), excluded_bundle_ids: None }
    }

    /// Windows from the normal level up to the torn-off menu level
    #[allow(non_snake_case)]
    pub fn NORMAL_WINDOWS() -> (r: Self)
        ensures
            r.window_level_range == (Some(MacosWindowLevel::Normal), Some(MacosWindowLevel::TornOffMenu)),
            r.excluded_bundle_ids is None,
    {
        MacosCapturableContentFilter {
            window_level_range: (Some(MacosWindowLevel::Normal), Some(MacosWindowLevel::TornOffMenu)),
            excluded_bundle_ids: None,
        }
    }

    /// Whether the filter excludes the windows of the application with the
    /// given bundle id
    pub open spec fn excludes_bundle_id(&self, bundle_id: Seq<char>) -> bool {
        match self.excluded_bundle_ids {
            Some(ids) => ids@.map_values(|s: String| s@).contains(bundle_id),
            None => false,
        }
    }

    /// Whether the windows of the application with the given bundle id are
    /// excluded: see [`MacosCapturableContentFilter::excludes_bundle_id`]
    pub fn is_excluded_bundle_id(&self, bundle_id: &String) -> (r: bool)
        ensures
            r == self.excludes_bundle_id(bundle_id@),
    {
        match &self.excluded_bundle_ids {
            None => false,
            Some(ids) => {
                let ghost names = ids@.map_values(|s: String| s@);
                let mut i: usize = 0;
                while i < ids.len()
                    invariant
                        i <= ids@.len(),
                        names == ids@.map_values(|s: String| s@),
                        self.excludes_bundle_id(bundle_id@) == names.contains(bundle_id@),
                        forall|k: int| 0 <= k < i ==> names[k] != bundle_id@,
                    decreases ids@.len() - i,
                {
                    assert(names[i as int] == ids@[i as int]@);
                    if ids[i].eq(bundle_id) {
                        assert(names.contains(bundle_id@));
                        return true;
                    }
                    i = i + 1;
                }
                assert(!names.contains(bundle_id@));
                false
            },
        }
    }

    /// Whether a window passes the filter, from its level and the bundle id
    /// of its application: a window of an excluded application never
    /// passes; otherwise every window passes when no range is set, and a
    /// window passes when its level could be read and lies in the range.
    pub fn filter_scwindow(&self, window_level: Result<MacosWindowLevel, ()>, bundle_id: &String) -> (r: bool)
        ensures
            r == (!self.excludes_bundle_id(bundle_id@) && (self.window_level_range == (None::<MacosWindowLevel>, None::<MacosWindowLevel>)
                || (window_level matches Ok(level) && level_in_range(self.window_level_range, level)))),
    {
        if self.is_excluded_bundle_id(bundle_id) {
            return false;
        }
        match (&self.window_level_range.0, &self.window_level_range.1) {
            (None, None) => true,
            (min, max) => {
                match window_level {
                    Ok(level) => {
                        let above_min = match min {
                            Some(min) => level.value() >= min.value(),
                            None => true,
                        };
                        let below_max = match max {
                            Some(max) => level.value() <= max.value(),
                            None => true,
                        };
                        above_min && below_max
                    },
                    Err(_) => false,
                }
            },
        }
    }

    /// Every display passes the filter.
    pub fn filter_scdisplay(&self) -> (r: bool)
        ensures
            r,
    {
        true
    }
}

/// The bundle ids already excluded, followed by the new ones.
pub open spec fn extended_bundle_ids(current: Option<Vec<String>>, added: Seq<&str>) -> Seq<Seq<char>> {
    let old_ids = match current {
        Some(ids) => ids@.map_values(|s: String| s@),
        None => Seq::empty(),
    };
    old_ids + added.map_values(|s: &str| s@)
}

/// A capturable content filter with Mac OS specific options
pub trait MacosCapturableContentFilterExt: Sized {
    /// Set the range of "window levels" to filter to (inclusive)
    fn with_window_level_range(self, min: Option<MacosWindowLevel>, max: Option<MacosWindowLevel>) -> Result<Self, CapturableContentError>;
    /// Exclude windows who's applications have the provided bundle ids
    fn with_exclude_bundle_ids(self, excluded_bundle_ids: &[&str]) -> Self;
}

impl MacosCapturableContentFilterExt for CapturableContentFilter {
    /// Sets the range of "window levels" to filter to (inclusive). A range whose
    /// minimum is above its maximum is refused.
    fn with_window_level_range(self, min: Option<MacosWindowLevel>, max: Option<MacosWindowLevel>) -> (r: Result<CapturableContentFilter, CapturableContentError>)
        ensures
            match (min, max) {
                (Some(lo), Some(hi)) if lo.spec_value() > hi.spec_value() => r matches Err(CapturableContentError::Other(m))
                    && m@ == "Invalid window level range: minimum level: "@ + lo.spec_debug_name() + " is greater than maximum level: "@ + hi.spec_debug_name(),
                _ => r matches Ok(f) && f.windows == self.windows && f.displays == self.displays
                    && f.impl_capturable_content_filter.window_level_range == (min, max)
                    && f.impl_capturable_content_filter.excluded_bundle_ids == self.impl_capturable_content_filter.excluded_bundle_ids,
            },
    {
        match (&min, &max) {
            (Some(min_level), Some(max_level)) => {
                if min_level.value() > max_level.value() {
                    let message = String::from_str("Invalid window level range: minimum level: ")
                        .concat(min_level.debug_name())
                        .concat(" is greater than maximum level: ")
                        .concat(max_level.debug_name());
                    return Err(CapturableContentError::Other(message));
                }
            },
            _ => {},
        }
        let CapturableContentFilter { windows, displays, impl_capturable_content_filter } = self;
        let MacosCapturableContentFilter { window_level_range: _, excluded_bundle_ids } = impl_capturable_content_filter;
        Ok(CapturableContentFilter {
            windows,
            displays,
            impl_capturable_content_filter: MacosCapturableContentFilter { window_level_range: (min, max), excluded_bundle_ids },
        })
    }

    /// Excludes windows whose applications have the provided bundle ids, in
    /// addition to those already excluded.
    fn with_exclude_bundle_ids(self, excluded_bundle_ids: &[&str]) -> (r: CapturableContentFilter)
        ensures
            r.windows == self.windows,
            r.displays == self.displays,
            r.impl_capturable_content_filter.window_level_range == self.impl_capturable_content_filter.window_level_range,
            r.impl_capturable_content_filter.excluded_bundle_ids matches Some(ids)
                && ids@.map_values(|s: String| s@) == extended_bundle_ids(self.impl_capturable_content_filter.excluded_bundle_ids, excluded_bundle_ids@),
    {
        let ghost expected = extended_bundle_ids(self.impl_capturable_content_filter.excluded_bundle_ids, excluded_bundle_ids@);
        let mut new_bundle_id_list: Vec<String> = Vec::new();
        let ghost old_ids: Seq<Seq<char>> = match &self.impl_capturable_content_filter.excluded_bundle_ids {
            Some(ids) => ids@.map_values(|s: String| s@),
            None => Seq::empty(),
        };
        match &self.impl_capturable_content_filter.excluded_bundle_ids {
            Some(current_bundle_ids) => {
                let mut i: usize = 0;
                while i < current_bundle_ids.len()
                    invariant
                        i <= current_bundle_ids@.len(),
                        old_ids == current_bundle_ids@.map_values(|s: String| s@),
                        new_bundle_id_list@.map_values(|s: String| s@) == old_ids.take(i as int),
                    decreases current_bundle_ids@.len() - i,
                {
                    let id = current_bundle_ids[i].clone();
                    let ghost prev = new_bundle_id_list@;
                    new_bundle_id_list.push(id);
                    assert(new_bundle_id_list@ == prev.push(id));
                    assert(new_bundle_id_list@.map_values(|s: String| s@) =~= prev.map_values(|s: String| s@).push(id@));
                    i = i + 1;
                    assert(new_bundle_id_list@.map_values(|s: String| s@) =~= old_ids.take(i as int));
                }
                assert(old_ids.take(i as int) =~= old_ids);
            },
            None => {
                assert(new_bundle_id_list@.map_values(|s: String| s@) =~= old_ids);
            },
        }
        let mut j: usize = 0;
        while j < excluded_bundle_ids.len()
            invariant
                j <= excluded_bundle_ids@.len(),
                new_bundle_id_list@.map_values(|s: String| s@) == old_ids + excluded_bundle_ids@.map_values(|s: &str| s@).take(j as int),
            decreases excluded_bundle_ids@.len() - j,
        {
            let id = excluded_bundle_ids[j].to_owned();
            let ghost prev = new_bundle_id_list@;
            new_bundle_id_list.push(id);
            assert(new_bundle_id_list@.map_values(|s: String| s@) =~= prev.map_values(|s: String| s@).push(id@));
            assert(excluded_bundle_ids@.map_values(|s: &str| s@).take(j + 1) =~= excluded_bundle_ids@.map_values(|s: &str| s@).take(j as int).push(id@));
            j = j + 1;
            assert(new_bundle_id_list@.map_values(|s: String| s@) =~= old_ids + excluded_bundle_ids@.map_values(|s: &str| s@).take(j as int));
        }
        assert(excluded_bundle_ids@.map_values(|s: &str| s@).take(j as int) =~= excluded_bundle_ids@.map_values(|s: &str| s@));
        let CapturableContentFilter { windows, displays, impl_capturable_content_filter } = self;
        CapturableContentFilter {
            windows,
            displays,
            impl_capturable_content_filter: MacosCapturableContentFilter {
                window_level_range: impl_capturable_content_filter.window_level_range,
                excluded_bundle_ids: Some(new_bundle_id_list),
            },
        }
    }
}

} // verus!

verus! {

use crate::capturable_content::{CapturableContent, CapturableDisplay, CapturableWindow};
use crate::text::{decimal_digits, decimal_string, decimal_text, signed_decimal_string};

/// What a Mac OS content request asks the system for: whether to exclude
/// desktop windows and whether to list only onscreen windows. A filter
/// without windows asks for neither desktop windows nor offscreen ones.
pub fn shareable_content_request(filter: &CapturableContentFilter) -> (r: (bool, bool))
    ensures
        r == (match filter.windows {
            None => (false, true),
            Some(w) => (!w.desktop_windows, w.onscreen_only),
        }),
{
    match filter.windows {
        None => (false, true),
        Some(window_filter) => (!window_filter.desktop_windows, window_filter.onscreen_only),
    }
}

/// A window the system listed, with its level when it could be read
pub struct MacosShareableWindow {
    pub window: CapturableWindow,
    pub level: Result<MacosWindowLevel, ()>,
}

/// Whether the filter keeps a listed window
pub open spec fn keeps_window(f: MacosCapturableContentFilter, w: MacosShareableWindow) -> bool {
    &&& !f.excludes_bundle_id(w.window.application.identifier@)
    &&& (f.window_level_range == (None::<MacosWindowLevel>, None::<MacosWindowLevel>)
        || (w.level matches Ok(level) && level_in_range(f.window_level_range, level)))
}

/// The listed windows a filter keeps, in order
pub open spec fn kept_windows(f: MacosCapturableContentFilter, ws: Seq<MacosShareableWindow>) -> Seq<CapturableWindow>
    decreases ws.len(),
{
    if ws.len() == 0 {
        Seq::empty()
    } else {
        kept_windows(f, ws.drop_last()) + (if keeps_window(f, ws.last()) { seq![ws.last().window] } else { Seq::empty() })
    }
}

/// The capturable content of a Mac OS request, from what the system answered:
/// the listed windows and displays, or the error code of a failed request,
/// or the text of the error that kept the answer from arriving. The windows
/// the filter keeps (in their level range, and not of an excluded
/// application) and all displays are capturable.
pub fn macos_capturable_content(
    filter: &CapturableContentFilter,
    answer: Result<Result<(Vec<MacosShareableWindow>, Vec<CapturableDisplay>), i64>, String>,
) -> (r: Result<CapturableContent, CapturableContentError>)
    ensures
        match answer {
            Ok(Ok((windows, displays))) => r matches Ok(c)
                && c.windows_view() == (if filter.windows is Some {
                    kept_windows(filter.impl_capturable_content_filter, windows@)
                } else {
                    Seq::empty()
                })
                && c.displays_view() == (if filter.displays { displays@ } else { Seq::empty() }),
            Ok(Err(code)) => r matches Err(CapturableContentError::Other(m))
                && m@ == "SCShareableContent returned error code: "@ + decimal_text(code as int),
            Err(e) => r matches Err(CapturableContentError::Other(m))
                && m@ == "Failed to receive SCSharableContent result from completion handler future: "@ + e@,
        },
{
    match answer {
        Ok(Ok((windows, displays))) => {
            let mut kept: Vec<CapturableWindow> = Vec::new();
            let wanted_windows = filter.windows.is_some();
            let mut i: usize = 0;
            while wanted_windows && i < windows.len()
                invariant
                    i <= windows.len(),
                    !wanted_windows ==> i == 0,
                    kept@ == kept_windows(filter.impl_capturable_content_filter, windows@.take(i as int)),
                decreases windows.len() - i,
            {
                proof {
                    assert(windows@.take(i as int + 1).drop_last() =~= windows@.take(i as int));
                }
                let level = match &windows[i].level {
                    Ok(level) => Ok(*level),
                    Err(()) => Err(()),
                };
                if filter.impl_capturable_content_filter.filter_scwindow(level, &windows[i].window.application.identifier) {
                    kept.push(windows[i].window.clone());
                }
                i = i + 1;
            }
            proof {
                if wanted_windows {
                    assert(windows@.take(windows@.len() as int) =~= windows@);
                } else {
                    assert(kept@ =~= Seq::<CapturableWindow>::empty());
                }
            }
            let mut shown: Vec<CapturableDisplay> = Vec::new();
            let mut j: usize = 0;
            while filter.displays && j < displays.len()
                invariant
                    j <= displays.len(),
                    !filter.displays ==> j == 0,
                    shown@ == displays@.take(j as int),
                decreases displays.len() - j,
            {
                if filter.impl_capturable_content_filter.filter_scdisplay() {
                    shown.push(displays[j]);
                }
                j = j + 1;
                assert(shown@ =~= displays@.take(j as int));
            }
            if filter.displays {
                assert(shown@ =~= displays@);
            } else {
                assert(shown@ =~= Seq::<CapturableDisplay>::empty());
            }
            Ok(CapturableContent::from_parts(kept, shown))
        },
        Ok(Err(code)) => Err(CapturableContentError::Other(
            String::from_str("SCShareableContent returned error code: ").concat(signed_decimal_string(code).as_str()),
        )),
        Err(e) => Err(CapturableContentError::Other(
            String::from_str("Failed to receive SCSharableContent result from completion handler future: ").concat(e.as_str()),
        )),
    }
}

/// Once a filter excludes some bundle ids, in addition to those it excluded
/// before, no window of an application with one of them is capturable.
pub proof fn law_excluded_applications_are_not_captured(
    before: Option<Vec<String>>,
    added: Seq<&str>,
    after: MacosCapturableContentFilter,
    w: MacosShareableWindow,
)
    requires
        after.excluded_bundle_ids matches Some(ids) && ids@.map_values(|s: String| s@) == extended_bundle_ids(before, added),
        added.map_values(|s: &str| s@).contains(w.window.application.identifier@),
    ensures
        !keeps_window(after, w),
{
    let id = w.window.application.identifier@;
    let new_ids = added.map_values(|s: &str| s@);
    let old_ids = match before {
        Some(ids) => ids@.map_values(|s: String| s@),
        None => Seq::<Seq<char>>::empty(),
    };
    let k = choose|k: int| 0 <= k < new_ids.len() && new_ids[k] == id;
    assert((old_ids + new_ids)[old_ids.len() + k] == id);
    assert(extended_bundle_ids(before, added).contains(id));
}

/// The position of the first window with the given id, if any
pub open spec fn first_window_with_id(ws: Seq<CapturableWindow>, id: u32) -> Option<int>
    decreases ws.len(),
{
    if ws.len() == 0 {
        None
    } else if ws[0].window_id as u32 == id {
        Some(0)
    } else {
        match first_window_with_id(ws.drop_first(), id) {
            Some(i) => Some(i + 1),
            None => None,
        }
    }
}

proof fn lemma_first_window_with_id(ws: Seq<CapturableWindow>, id: u32)
    ensures
        match first_window_with_id(ws, id) {
            Some(i) => 0 <= i < ws.len() && ws[i].window_id as u32 == id
                && forall|k: int| 0 <= k < i ==> ws[k].window_id as u32 != id,
            None => forall|k: int| 0 <= k < ws.len() ==> ws[k].window_id as u32 != id,
        },
    decreases ws.len(),
{
    if ws.len() > 0 {
        lemma_first_window_with_id(ws.drop_first(), id);
        if ws[0].window_id as u32 != id {
            match first_window_with_id(ws.drop_first(), id) {
                Some(i) => {
                    assert forall|k: int| 0 <= k < i + 1 implies ws[k].window_id as u32 != id by {
                        if k > 0 {
                            assert(ws[k] == ws.drop_first()[k - 1]);
                        }
                    }
                },
                None => {
                    assert forall|k: int| 0 <= k < ws.len() implies ws[k].window_id as u32 != id by {
                        if k > 0 {
                            assert(ws[k] == ws.drop_first()[k - 1]);
                        }
                    }
                },
            }
        }
    }
}

/// Among windows whose ids differ, looking a window up by its own id finds
/// that window, and an id that no window has finds none.
pub proof fn law_window_found_by_its_id(ws: Seq<CapturableWindow>, k: int, absent: u32)
    requires
        0 <= k < ws.len(),
        forall|i: int, j: int| 0 <= i < ws.len() && 0 <= j < ws.len() && i != j
            ==> #[trigger] ws[i].window_id as u32 != #[trigger] ws[j].window_id as u32,
        forall|i: int| 0 <= i < ws.len() ==> #[trigger] ws[i].window_id as u32 != absent,
    ensures
        first_window_with_id(ws, ws[k].window_id as u32) == Some(k),
        first_window_with_id(ws, absent) is None,
{
    lemma_first_window_with_id(ws, ws[k].window_id as u32);
    lemma_first_window_with_id(ws, absent);
}

/// A capturable window with Mac OS specific features
pub trait MacosCapturableWindowExt: Sized {
    /// Get the window layer of this window, from the system's lookup of it
    fn get_window_layer(&self, layer: Result<i32, ()>) -> Result<i32, CapturableContentError>;

    /// Get the window level of this window, from the system's window levels
    /// and its lookup of the window's layer
    fn get_window_level(&self, window_levels: &WindowLevels, layer: Result<i32, ()>) -> Result<MacosWindowLevel, CapturableContentError>;

    /// Get the native window id for this capturable window.
    /// This is the `CGWindowID` for this window.
    fn get_window_id(&self) -> u32;

    /// Try and convert the given CGWindowID to a capturable window, among
    /// the capturable windows
    fn from_window_id(window_id: u32, content: &CapturableContent) -> Result<Self, CapturableContentError>;
}

impl MacosCapturableWindowExt for CapturableWindow {
        /// The low 32 bits of the window's id
        fn get_window_id(&self) -> (r: u32)
            ensures
                r == self.window_id as u32,
        {
            self.window_id as u32
        }

    /// The capturable window with a given `CGWindowID`, looked up among all
    /// capturable windows: the first window with that id, or an error naming
    /// the id when there is none.
    fn from_window_id(window_id: u32, content: &CapturableContent) -> (r: Result<CapturableWindow, CapturableContentError>)
        ensures
            match first_window_with_id(content.windows_view(), window_id) {
                Some(i) => r matches Ok(w) && w == content.windows_view()[i],
                None => r matches Err(CapturableContentError::Other(m))
                    && m@ == "No capturable window with id: "@ + decimal_digits(window_id as nat) + " found"@,
            },
    {
        proof { lemma_first_window_with_id(content.windows_view(), window_id); }
        let mut windows = content.windows();
        let ghost all = content.windows_view();
        loop
            invariant
                windows.content() == content,
                all == content.windows_view(),
                windows.position() <= all.len(),
                forall|k: int| 0 <= k < windows.position() ==> all[k].window_id as u32 != window_id,
                match first_window_with_id(all, window_id) {
                    Some(i) => 0 <= i < all.len() && all[i].window_id as u32 == window_id
                        && forall|k: int| 0 <= k < i ==> all[k].window_id as u32 != window_id,
                    None => forall|k: int| 0 <= k < all.len() ==> all[k].window_id as u32 != window_id,
                },
            decreases all.len() - windows.position(),
        {
            let ghost position = windows.position();
            match windows.next() {
                Some(window) => {
                    if window.window_id as u32 == window_id {
                        proof {
                            match first_window_with_id(all, window_id) {
                                Some(i) => {
                                    if i < position {
                                        assert(all[i].window_id as u32 != window_id);
                                    }
                                    if i > position {
                                        assert(all[position as int].window_id as u32 != window_id);
                                    }
                                },
                                None => {
                                    assert(all[position as int].window_id as u32 != window_id);
                                },
                            }
                        }
                        return Ok(window);
                    }
                },
                None => {
                    let message = String::from_str("No capturable window with id: ")
                        .concat(decimal_string(window_id as u64).as_str())
                        .concat(" found");
                    return Err(CapturableContentError::Other(message));
                },
            }
        }
    }

    /// The window layer of the window, from the system's lookup of its window
    /// description
    fn get_window_layer(&self, layer: Result<i32, ()>) -> (r: Result<i32, CapturableContentError>)
        ensures
            match layer {
                Ok(l) => r == Ok::<i32, CapturableContentError>(l),
                Err(()) => r matches Err(CapturableContentError::Other(m)) && m@ == "Failed to retreive window layer"@,
            },
    {
        match layer {
            Ok(l) => Ok(l),
            Err(()) => {
                proof { reveal_strlit("Failed to retreive window layer"); }
                Err(CapturableContentError::Other(String::from_str("Failed to retreive window layer")))
            },
        }
    }

    /// The window level of the window, from the system's window levels and
    /// its lookup of the window's layer
    fn get_window_level(&self, window_levels: &WindowLevels, layer: Result<i32, ()>) -> (r: Result<MacosWindowLevel, CapturableContentError>)
        ensures
            match layer {
                Ok(l) => r == Ok::<MacosWindowLevel, CapturableContentError>(level_for_layer(*window_levels, l)),
                Err(()) => r matches Err(CapturableContentError::Other(m)) && m@ == "Failed to retreive window level"@,
            },
    {
        match crate::platform::macos::capturable_content::get_window_level(window_levels, layer) {
            Ok(level) => Ok(level),
            Err(()) => {
                proof { reveal_strlit("Failed to retreive window level"); }
                Err(CapturableContentError::Other(String::from_str("Failed to retreive window level")))
            },
        }
    }
}

} // verus!
