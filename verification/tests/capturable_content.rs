use crabgrab::platform::macos::capturable_content::{macos_capturable_content, shareable_content_request, MacosShareableWindow, MacosWindowLevel};
use crabgrab::capturable_content::{
    CapturableApplication, CapturableContent, CapturableContentError, CapturableContentFilter, CapturableDisplay,
    CapturableWindow, CapturableWindowFilter,
};

fn window(id: u64, title: &str) -> CapturableWindow {
    CapturableWindow {
        window_id: id,
        title: title.to_string(),
        application: CapturableApplication { identifier: "app".to_string(), name: "App".to_string(), pid: 1 },
    }
}

#[test]
fn filter_constants() {
    let displays = CapturableContentFilter::DISPLAYS();
    assert!(displays.windows.is_none());
    assert!(displays.displays);
    assert!(!displays.is_empty());
    let all_windows = CapturableContentFilter::ALL_WINDOWS();
    assert_eq!(all_windows.windows, Some(CapturableWindowFilter { desktop_windows: true, onscreen_only: false }));
    assert!(!all_windows.displays);
    let everything = CapturableContentFilter::EVERYTHING();
    assert!(everything.windows.is_some() && everything.displays);
    let normal = CapturableContentFilter::NORMAL_WINDOWS();
    assert_eq!(normal.windows, Some(CapturableWindowFilter { desktop_windows: false, onscreen_only: true }));
    assert!(!normal.displays);
    let everything_normal = CapturableContentFilter::EVERYTHING_NORMAL();
    assert!(everything_normal.windows.is_some() && everything_normal.displays);
    assert_eq!(CapturableWindowFilter::default(), CapturableWindowFilter { desktop_windows: false, onscreen_only: true });
}

#[test]
fn empty_filter_is_empty() {
    let mut filter = CapturableContentFilter::DISPLAYS();
    filter.displays = false;
    assert!(filter.is_empty());
}

#[test]
fn content_iterators_walk_in_order() {
    let content = CapturableContent::from_parts(vec![window(1, "a"), window(2, "b")], vec![CapturableDisplay { display_id: 9 }]);
    let mut windows = content.windows();
    assert_eq!(windows.size_hint(), (2, Some(2)));
    assert_eq!(windows.next().unwrap().title(), "a");
    assert_eq!(windows.size_hint(), (1, Some(1)));
    assert_eq!(windows.next().unwrap().window_id, 2);
    assert!(windows.next().is_none());
    assert_eq!(windows.size_hint(), (0, Some(0)));
    let mut displays = content.displays();
    assert_eq!(displays.len(), 1);
    assert_eq!(displays.size_hint(), (1, Some(1)));
    assert_eq!(displays.next(), Some(CapturableDisplay { display_id: 9 }));
    assert_eq!(displays.len(), 0);
    assert!(displays.next().is_none());
    assert_eq!(displays.size_hint(), (0, Some(0)));
}

#[test]
fn window_accessors() {
    let w = window(5, "Terminal");
    assert_eq!(w.title(), "Terminal");
    assert_eq!(w.application().identifier(), "app");
    assert_eq!(w.application().pid, 1);
}

#[test]
fn content_error_display() {
    assert_eq!(CapturableContentError::Other("no".to_string()).to_display_string(), "CapturableContentError::Other(\"no\")");
}

#[test]
fn find_capturable_windows() {
    let content_filter = CapturableContentFilter {
        windows: Some(CapturableWindowFilter {
            desktop_windows: true,
            onscreen_only: true,
        }),
        displays: false,
        impl_capturable_content_filter: CapturableContentFilter::DISPLAYS().impl_capturable_content_filter,
    };
    // the system is asked for desktop windows too, onscreen only
    assert_eq!(shareable_content_request(&content_filter), (false, true));
    let listed = vec![
        MacosShareableWindow { window: window(1, "Desktop"), level: Ok(MacosWindowLevel::Desktop) },
        MacosShareableWindow { window: window(2, "Finder"), level: Err(()) },
    ];
    let content_result = macos_capturable_content(&content_filter, Ok(Ok((listed, vec![]))));
    assert!(content_result.is_ok());
    println!("capturable windows: ");
    let content = content_result.unwrap();
    let mut windows = content.windows();
    let mut titles = Vec::new();
    while let Some(window) = windows.next() {
        println!(" * {}", window.title());
        titles.push(window.title());
    }
    assert_eq!(titles, vec!["Desktop".to_string(), "Finder".to_string()]);
    assert_eq!(content.displays().len(), 0);
}
