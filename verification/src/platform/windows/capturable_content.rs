use vstd::prelude::*;
use vstd::string::*;

use crate::capturable_content::{CapturableContentError, CapturableContentFilter, CapturableWindowFilter};
use crate::text::{hex_digits, hex_string};

verus! {

/// The display affinity bits that exclude a window from capture
pub const WDA_EXCLUDEFROMCAPTURE: u32 = 0x11;

/// A capturable window on Windows: its `HWND`, and the id of the process
/// that owned it when it was enumerated. Two windows are the same window
/// when their handles are the same.
#[derive(Copy, Clone, Debug, Eq)]
pub struct WindowsCapturableWindow {
    pub hwnd: isize,
    pub pid: u32,
}

impl PartialEq for WindowsCapturableWindow {
    fn eq(&self, other: &Self) -> (r: bool) {
        self.hwnd == other.hwnd
    }
}

impl vstd::std_specs::cmp::PartialEqSpecImpl for WindowsCapturableWindow {
    open spec fn obeys_eq_spec() -> bool {
        true
    }

    open spec fn eq_spec(&self, other: &Self) -> bool {
        self.hwnd == other.hwnd
    }
}

/// std's `Hash` for `isize` feeds the value to the hasher; nothing is
/// claimed of the hasher's state afterwards.
pub assume_specification<H: std::hash::Hasher>[<isize as std::hash::Hash>::hash::<H>](data: &isize, state: &mut H);

impl std::hash::Hash for WindowsCapturableWindow {
    fn hash<H: std::hash::Hasher>(&self, state: &mut H) {
        self.hwnd.hash(state);
    }
}

/// A capturable application on Windows: its process id, and the file name of
/// its executable (empty when it could not be read)
#[derive(Debug)]
pub struct WindowsCapturableApplication {
    pub pid: u32,
    pub identifier: String,
}

/// The bounds of a monitor, in integer desktop coordinates
#[derive(Copy, Clone, Debug, PartialEq, Eq, Structural)]
pub struct Rect32 {
    pub left: i32,
    pub top: i32,
    pub right: i32,
    pub bottom: i32,
}

/// A capturable display on Windows: its `HMONITOR` and its bounds. Two
/// displays are the same display when their monitor handles are the same,
/// whatever bounds were read with them.
#[derive(Copy, Clone, Debug, Eq)]
pub struct WindowsCapturableDisplay {
    pub monitor: isize,
    pub rect: Rect32,
}

impl PartialEq for WindowsCapturableDisplay {
    fn eq(&self, other: &Self) -> (r: bool) {
        self.monitor == other.monitor
    }
}

impl vstd::std_specs::cmp::PartialEqSpecImpl for WindowsCapturableDisplay {
    open spec fn obeys_eq_spec() -> bool {
        true
    }

    open spec fn eq_spec(&self, other: &Self) -> bool {
        self.monitor == other.monitor
    }
}

impl std::hash::Hash for WindowsCapturableDisplay {
    fn hash<H: std::hash::Hasher>(&self, state: &mut H) {
        self.monitor.hash(state);
    }
}

impl WindowsCapturableWindow {
    /// A capturable window from its handle and its owning process
    pub fn from_impl(hwnd: isize, pid: u32) -> (r: Self)
        ensures
            r.hwnd == hwnd,
            r.pid == pid,
    {
        WindowsCapturableWindow { hwnd, pid }
    }

    /// The application that owns the window
    pub fn application(&self, identifier: String) -> (r: WindowsCapturableApplication)
        ensures
            r.pid == self.pid,
            r.identifier@ == identifier@,
    {
        WindowsCapturableApplication { pid: self.pid, identifier }
    }
}

impl WindowsCapturableDisplay {
    /// A capturable display from its monitor handle and bounds
    pub fn from_impl(monitor: (isize, Rect32)) -> (r: Self)
        ensures
            r.monitor == monitor.0,
            r.rect == monitor.1,
    {
        WindowsCapturableDisplay { monitor: monitor.0, rect: monitor.1 }
    }
}

impl WindowsCapturableApplication {
    /// An application from its process id and executable file name
    pub fn from_impl(pid: u32, identifier: String) -> (r: Self)
        ensures
            r.pid == pid,
            r.identifier@ == identifier@,
    {
        WindowsCapturableApplication { pid, identifier }
    }

    /// An application from its process id and the path of the process's main
    /// module, `None` when the process could not be opened: its identifier is
    /// the file name of the path (see [`module_identifier`])
    pub fn from_module(pid: u32, module_file: Option<&str>) -> (r: Self)
        ensures
            r.pid == pid,
            r.identifier@ == module_identifier(match module_file { Some(p) => Some(p@), None => None }),
    {
        WindowsCapturableApplication { pid, identifier: identifier_from_module_path(module_file) }
    }

    /// The file name of the application's executable
    pub fn identifier(&self) -> (r: String)
        ensures
            r@ == self.identifier@,
    {
        self.identifier.clone()
    }

    /// The name of the application: its identifier
    pub fn name(&self) -> (r: String)
        ensures
            r@ == self.identifier@,
    {
        self.identifier()
    }

    /// The process id, as a signed number
    pub fn pid(&self) -> (r: i32)
        ensures
            r == self.pid as i32,
    {
        self.pid as i32
    }
}

/// Whether character `i` of a path separates its components: a backslash,
/// or also a slash outside verbatim (`\\?\`) paths
pub open spec fn separator_at(s: Seq<char>, i: int, verbatim: bool) -> bool {
    s[i] == '\\' || (!verbatim && s[i] == '/')
}

/// The position of the first separator at or after `i`, or the path's
/// length when there is none
pub open spec fn next_separator(s: Seq<char>, i: int, verbatim: bool) -> int
    decreases s.len() - i,
{
    if i < 0 || i >= s.len() {
        s.len() as int
    } else if separator_at(s, i, verbatim) {
        i
    } else {
        next_separator(s, i + 1, verbatim)
    }
}

/// The end of the two components `server\share` read from `i`
pub open spec fn two_components_end(s: Seq<char>, i: int, verbatim: bool) -> int {
    let j = next_separator(s, i, verbatim);
    if j < s.len() { next_separator(s, j + 1, verbatim) } else { j }
}

/// Whether a path starts with `\\?\`, a verbatim path
pub open spec fn is_verbatim(s: Seq<char>) -> bool {
    s.len() >= 4 && s[0] == '\\' && s[1] == '\\' && s[2] == '?' && s[3] == '\\'
}

/// Whether `c` is an ASCII letter
pub open spec fn is_ascii_letter(c: char) -> bool {
    ('a' <= c && c <= 'z') || ('A' <= c && c <= 'Z')
}

/// The length of a path's prefix: `\\?\UNC\server\share`, `\\?\C:`,
/// `\\?\name`, `\\.\name`, `\\server\share` or `C:`; zero when there is none
pub open spec fn path_prefix_len(s: Seq<char>) -> int {
    if is_verbatim(s) {
        if s.len() >= 8 && s[4] == 'U' && s[5] == 'N' && s[6] == 'C' && s[7] == '\\' {
            two_components_end(s, 8, true)
        } else if s.len() >= 6 && is_ascii_letter(s[4]) && s[5] == ':' {
            6
        } else {
            next_separator(s, 4, true)
        }
    } else if s.len() >= 4 && s[0] == '\\' && s[1] == '\\' && s[2] == '.' && separator_at(s, 3, false) {
        next_separator(s, 4, false)
    } else if s.len() >= 2 && s[0] == '\\' && s[1] == '\\' {
        two_components_end(s, 2, false)
    } else if s.len() >= 2 && is_ascii_letter(s[0]) && s[1] == ':' {
        2
    } else {
        0
    }
}

/// Whether `s[b..e]` is a component of the path: not empty, and outside
/// verbatim paths not the current directory `.`, which is passed over
pub open spec fn names_component(s: Seq<char>, b: int, e: int, verbatim: bool) -> bool {
    e > b && (verbatim || !(e - b == 1 && s[b] == '.'))
}

/// The scan of a path from its prefix end `p` up to `i`: where the
/// component being read starts, and the bounds of the last finished
/// component (empty at the start)
pub open spec fn path_scan(s: Seq<char>, p: int, i: int, verbatim: bool) -> (int, int, int)
    decreases i - p,
{
    if i <= p {
        (p, p, p)
    } else {
        let (cur, lb, le) = path_scan(s, p, i - 1, verbatim);
        if separator_at(s, i - 1, verbatim) {
            if names_component(s, cur, i - 1, verbatim) { (i, cur, i - 1) } else { (i, lb, le) }
        } else {
            (cur, lb, le)
        }
    }
}

/// The bounds of the last component of a path after its prefix: trailing
/// separators are passed over, and `.` components outside verbatim paths
pub open spec fn last_component(s: Seq<char>) -> (int, int) {
    let p = path_prefix_len(s);
    let v = is_verbatim(s);
    let (cur, lb, le) = path_scan(s, p, s.len() as int, v);
    if names_component(s, cur, s.len() as int, v) { (cur, s.len() as int) } else { (lb, le) }
}

/// The file name of a Windows path: its last component after the prefix,
/// unless there is none or it is `.` or `..`
pub open spec fn path_file_name(s: Seq<char>) -> Option<Seq<char>> {
    let (b, e) = last_component(s);
    let name = s.subrange(b, e);
    if name.len() == 0 || name == seq!['.'] || name == seq!['.', '.'] {
        None
    } else {
        Some(name)
    }
}

/// The identifier of an application from the path of its process's main
/// module: empty when the process could not be read, else the file name of
/// the path, or the whole path when it has none
pub open spec fn module_identifier(module_file: Option<Seq<char>>) -> Seq<char> {
    match module_file {
        None => Seq::empty(),
        Some(p) => match path_file_name(p) {
            Some(name) => name,
            None => p,
        },
    }
}

/// The first separator at or after `from`: see [`next_separator`]
fn find_separator(path: &str, from: usize, verbatim: bool) -> (r: usize)
    requires
        from <= path@.len(),
    ensures
        r == next_separator(path@, from as int, verbatim),
        from <= r <= path@.len(),
{
    let n = path.unicode_len();
    let mut i = from;
    while i < n
        invariant
            n == path@.len(),
            from <= i <= n,
            next_separator(path@, i as int, verbatim) == next_separator(path@, from as int, verbatim),
        decreases n - i,
    {
        let c = path.get_char(i);
        if c == '\\' || (!verbatim && c == '/') {
            return i;
        }
        i = i + 1;
    }
    i
}

/// The end of two components read from `from`: see [`two_components_end`]
fn find_two_components_end(path: &str, from: usize, verbatim: bool) -> (r: usize)
    requires
        from <= path@.len(),
    ensures
        r == two_components_end(path@, from as int, verbatim),
        r <= path@.len(),
{
    let j = find_separator(path, from, verbatim);
    if j < path.unicode_len() {
        find_separator(path, j + 1, verbatim)
    } else {
        j
    }
}

fn is_letter(c: char) -> (r: bool)
    ensures
        r == is_ascii_letter(c),
{
    ('a' <= c && c <= 'z') || ('A' <= c && c <= 'Z')
}

/// The length of a path's prefix: see [`path_prefix_len`]
fn prefix_len(path: &str) -> (r: usize)
    ensures
        r == path_prefix_len(path@),
        r <= path@.len(),
{
    let n = path.unicode_len();
    if n >= 4 && path.get_char(0) == '\\' && path.get_char(1) == '\\' && path.get_char(2) == '?' && path.get_char(3) == '\\' {
        if n >= 8 && path.get_char(4) == 'U' && path.get_char(5) == 'N' && path.get_char(6) == 'C' && path.get_char(7) == '\\' {
            find_two_components_end(path, 8, true)
        } else if n >= 6 && is_letter(path.get_char(4)) && path.get_char(5) == ':' {
            6
        } else {
            find_separator(path, 4, true)
        }
    } else if n >= 4 && path.get_char(0) == '\\' && path.get_char(1) == '\\' && path.get_char(2) == '.'
        && (path.get_char(3) == '\\' || path.get_char(3) == '/') {
        find_separator(path, 4, false)
    } else if n >= 2 && path.get_char(0) == '\\' && path.get_char(1) == '\\' {
        find_two_components_end(path, 2, false)
    } else if n >= 2 && is_letter(path.get_char(0)) && path.get_char(1) == ':' {
        2
    } else {
        0
    }
}

proof fn lemma_path_scan_bounds(s: Seq<char>, p: int, i: int, verbatim: bool)
    requires
        0 <= p <= i,
    ensures
        ({
            let (cur, lb, le) = path_scan(s, p, i, verbatim);
            p <= lb <= le <= cur <= i
        }),
    decreases i - p,
{
    if i > p {
        lemma_path_scan_bounds(s, p, i - 1, verbatim);
    }
}

/// The identifier of an application from the path of its process's main
/// module, `None` when the process could not be opened: see
/// [`module_identifier`]
pub fn identifier_from_module_path(module_file: Option<&str>) -> (r: String)
    ensures
        r@ == module_identifier(match module_file { Some(p) => Some(p@), None => None }),
{
    let path = match module_file {
        None => {
            return String::new();
        },
        Some(p) => p,
    };
    let ghost s = path@;
    let n = path.unicode_len();
    let verbatim = n >= 4 && path.get_char(0) == '\\' && path.get_char(1) == '\\' && path.get_char(2) == '?'
        && path.get_char(3) == '\\';
    let p = prefix_len(path);
    let mut i: usize = p;
    let mut cur: usize = p;
    let mut lb: usize = p;
    let mut le: usize = p;
    while i < n
        invariant
            n == s.len(),
            s == path@,
            verbatim == is_verbatim(s),
            p <= i <= n,
            (cur as int, lb as int, le as int) == path_scan(s, p as int, i as int, verbatim),
            p <= lb <= le <= cur <= i,
        decreases n - i,
    {
        let c = path.get_char(i);
        if c == '\\' || (!verbatim && c == '/') {
            let names = i > cur && (verbatim || !(i - cur == 1 && path.get_char(cur) == '.'));
            if names {
                lb = cur;
                le = i;
            }
            cur = i + 1;
        }
        i = i + 1;
    }
    proof { lemma_path_scan_bounds(s, p as int, n as int, verbatim); }
    let (b, e) = if n > cur && (verbatim || !(n - cur == 1 && path.get_char(cur) == '.')) { (cur, n) } else { (lb, le) };
    assert((b as int, e as int) == last_component(s));
    let is_current = e - b == 1 && path.get_char(b) == '.';
    let is_parent = e - b == 2 && path.get_char(b) == '.' && path.get_char(b + 1) == '.';
    proof {
        let name = s.subrange(b as int, e as int);
        if is_current {
            assert(name =~= seq!['.']);
        }
        if is_parent {
            assert(name =~= seq!['.', '.']);
        }
        if name == seq!['.'] {
            assert(name[0] == s[b as int]);
        }
        if name == seq!['.', '.'] {
            assert(name[0] == s[b as int] && name[1] == s[b + 1]);
        }
    }
    if e == b || is_current || is_parent {
        path.to_owned()
    } else {
        path.substring_char(b, e).to_owned()
    }
}

/// What the system reports of an enumerated top-level window
#[derive(Copy, Clone, Debug, PartialEq, Eq, Structural)]
pub struct WindowsWindowInfo {
    pub hwnd: isize,
    pub pid: u32,
    /// Whether the handle still names a window
    pub is_window: bool,
    /// Whether the window is visible
    pub visible: bool,
    /// The window's display affinity, when it could be read
    pub display_affinity: Option<u32>,
    /// Whether the window belongs to the desktop environment (the taskbar,
    /// the desktop itself) rather than to an application
    pub desktop_element: bool,
}

/// Whether a window's display affinity excludes it from capture
pub open spec fn excluded_from_capture(display_affinity: Option<u32>) -> bool {
    display_affinity matches Some(a) && a & WDA_EXCLUDEFROMCAPTURE != 0
}

/// Whether an enumerated window is offered for capture: it is still a
/// window, it is visible if only onscreen windows are wanted, it is not part
/// of the desktop environment unless desktop windows are wanted, and it is
/// not excluded from capture.
pub open spec fn window_is_offered(filter: CapturableWindowFilter, w: WindowsWindowInfo) -> bool {
    &&& w.is_window
    &&& (!filter.onscreen_only || w.visible)
    &&& (filter.desktop_windows || !w.desktop_element)
    &&& !excluded_from_capture(w.display_affinity)
}

/// The windows offered for capture, in enumeration order
pub open spec fn offered_windows(filter: CapturableWindowFilter, ws: Seq<WindowsWindowInfo>) -> Seq<WindowsCapturableWindow>
    decreases ws.len(),
{
    if ws.len() == 0 {
        Seq::empty()
    } else {
        let w = ws.last();
        offered_windows(filter, ws.drop_last()) + (if window_is_offered(filter, w) {
            seq![WindowsCapturableWindow { hwnd: w.hwnd, pid: w.pid }]
        } else {
            Seq::empty()
        })
    }
}

/// Which windows a filter offers: a handle that no longer names a window,
/// or a window excluded from capture, is never offered; a desktop element
/// only when desktop windows are asked for; and visibility matters only to
/// a filter of onscreen windows, whatever it says of desktop windows. So an
/// application window that is a window and not excluded is offered exactly
/// when it is visible or offscreen windows are asked for.
pub proof fn law_window_offered_by_filter(filter: CapturableWindowFilter, w: WindowsWindowInfo)
    ensures
        !w.is_window ==> !window_is_offered(filter, w),
        (w.display_affinity matches Some(a) && a & 0x11 != 0) ==> !window_is_offered(filter, w),
        (w.desktop_element && !filter.desktop_windows) ==> !window_is_offered(filter, w),
        (w.is_window && !w.desktop_element && (w.display_affinity is None || w.display_affinity == Some(0u32)))
            ==> (window_is_offered(filter, w) <==> (!filter.onscreen_only || w.visible)),
        (w.is_window && w.desktop_element && filter.desktop_windows && (w.display_affinity is None || w.display_affinity == Some(0u32)))
            ==> (window_is_offered(filter, w) <==> (!filter.onscreen_only || w.visible)),
{
    assert(0u32 & 0x11u32 == 0) by (bit_vector);
}

/// The windows a filter offers are the offered enumerated windows, in
/// enumeration order: one enumerated window is offered, with its handle and
/// process, exactly when the filter offers it.
pub proof fn law_offered_windows_one(filter: CapturableWindowFilter, w: WindowsWindowInfo)
    ensures
        offered_windows(filter, seq![w]) == (if window_is_offered(filter, w) {
            seq![WindowsCapturableWindow { hwnd: w.hwnd, pid: w.pid }]
        } else {
            Seq::<WindowsCapturableWindow>::empty()
        }),
{
    assert(seq![w].drop_last() =~= Seq::<WindowsWindowInfo>::empty());
    assert(seq![w].last() == w);
    assert(offered_windows(filter, Seq::<WindowsWindowInfo>::empty()) == Seq::<WindowsCapturableWindow>::empty());
    assert(Seq::<WindowsCapturableWindow>::empty() + seq![WindowsCapturableWindow { hwnd: w.hwnd, pid: w.pid }]
        =~= seq![WindowsCapturableWindow { hwnd: w.hwnd, pid: w.pid }]);
    assert(Seq::<WindowsCapturableWindow>::empty() + Seq::<WindowsCapturableWindow>::empty() =~= Seq::<WindowsCapturableWindow>::empty());
}

fn excluded_by_affinity(display_affinity: Option<u32>) -> (r: bool)
    ensures
        r == excluded_from_capture(display_affinity),
{
    match display_affinity {
        Some(affinity) => affinity & WDA_EXCLUDEFROMCAPTURE != 0,
        None => false,
    }
}

/// The capturable windows and displays of a Windows desktop
pub struct WindowsCapturableContent {
    pub windows: Vec<WindowsCapturableWindow>,
    pub displays: Vec<WindowsCapturableDisplay>,
}

impl WindowsCapturableContent {
    /// The content a filter selects from the enumerated windows and monitors:
    /// the monitors if displays are wanted, and the offered windows if
    /// windows are wanted. Enumeration never fails.
    pub fn new(filter: &CapturableContentFilter, windows: Vec<WindowsWindowInfo>, monitors: Vec<WindowsCapturableDisplay>) -> (r: Result<Self, CapturableContentError>)
        ensures
            r matches Ok(c) && {
                &&& c.displays@ == (if filter.displays { monitors@ } else { Seq::empty() })
                &&& c.windows@ == (match filter.windows {
                    Some(wf) => offered_windows(wf, windows@),
                    None => Seq::empty(),
                })
            },
    {
        let displays = if filter.displays { monitors } else { Vec::new() };
        let mut offered: Vec<WindowsCapturableWindow> = Vec::new();
        match filter.windows {
            Some(window_filter) => {
                let mut i: usize = 0;
                while i < windows.len()
                    invariant
                        i <= windows.len(),
                        offered@ == offered_windows(window_filter, windows@.take(i as int)),
                    decreases windows.len() - i,
                {
                    let w = windows[i];
                    proof {
                        assert(windows@.take(i as int + 1).drop_last() =~= windows@.take(i as int));
                    }
                    if w.is_window && (!window_filter.onscreen_only || w.visible) && (window_filter.desktop_windows || !w.desktop_element)
                        && !excluded_by_affinity(w.display_affinity) {
                        offered.push(WindowsCapturableWindow { hwnd: w.hwnd, pid: w.pid });
                    }
                    i = i + 1;
                }
                proof {
                    assert(windows@.take(windows@.len() as int) =~= windows@);
                }
            },
            None => {},
        }
        Ok(WindowsCapturableContent { windows: offered, displays })
    }
}

/// The text of a window handle in an error: sixteen upper-case hexadecimal
/// digits of its bits
pub open spec fn hwnd_text(hwnd: isize) -> Seq<char> {
    hex_digits(hwnd as u64 as nat, 16)
}

/// A window that provides its native handle (`HWND`), and that can be made
/// from one
pub trait WindowsCapturableWindowNativeWindowHandle: Sized {
    /// The window's `HWND`
    fn get_native_window_handle(&self) -> isize;

    /// A capturable window from an `HWND`, given whether the handle names a
    /// window and the window's display affinity when it could be read
    fn from_native_window_handle(&self, window_handle: isize, pid: u32, is_window: bool, display_affinity: Option<u32>) -> Result<Self, CapturableContentError>;
}

impl WindowsCapturableWindowNativeWindowHandle for WindowsCapturableWindow {
    fn get_native_window_handle(&self) -> (r: isize)
        ensures
            r == self.hwnd,
    {
        self.hwnd
    }

    /// Refuses a handle that names no window, and a window excluded from
    /// capture
    fn from_native_window_handle(&self, window_handle: isize, pid: u32, is_window: bool, display_affinity: Option<u32>) -> (r: Result<Self, CapturableContentError>)
        ensures
            !is_window ==> (r matches Err(CapturableContentError::Other(m))
                && m@ == "HWND "@ + hwnd_text(window_handle) + " is not a window"@),
            is_window && excluded_from_capture(display_affinity) ==> (r matches Err(CapturableContentError::Other(m))
                && m@ == "HWND "@ + hwnd_text(window_handle) + " is not capturable a window"@),
            is_window && !excluded_from_capture(display_affinity) ==> r == Ok::<Self, CapturableContentError>(WindowsCapturableWindow { hwnd: window_handle, pid }),
    {
        if !is_window {
            let message = String::from_str("HWND ").concat(hex_string(window_handle as u64, 16).as_str()).concat(" is not a window");
            return Err(CapturableContentError::Other(message));
        }
        if excluded_by_affinity(display_affinity) {
            let message = String::from_str("HWND ").concat(hex_string(window_handle as u64, 16).as_str()).concat(" is not capturable a window");
            return Err(CapturableContentError::Other(message));
        }
        Ok(WindowsCapturableWindow { hwnd: window_handle, pid })
    }
}

} // verus!
