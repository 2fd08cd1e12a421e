use crabgrab::platform::windows::frame::{readback_error, WindowsReadbackStep};
use crabgrab::capturable_content::{CapturableContentError, CapturableContentFilter, CapturableWindowFilter};
use crabgrab::capture_stream::{CaptureConfig, CapturePixelFormat, StreamCreateError, StreamDelivery, StreamError, StreamStopError};
use crabgrab::capturable_content::CapturableDisplay;
use crabgrab::feature::bitmap::{FrameLayout, VideoFrameBitmapError};
use crabgrab::frame::{AudioBufferError, AudioChannelCount, AudioSampleRate};
use crabgrab::platform::windows::audio_capture_stream::{capture_audio_stream, WindowsAudioCaptureStream, WindowsAudioCaptureStreamCreateError};
use crabgrab::platform::windows::capturable_content::{
    identifier_from_module_path, Rect32, WindowsCapturableApplication, WindowsCapturableContent, WindowsCapturableDisplay, WindowsCapturableWindow,
    WindowsCapturableWindowNativeWindowHandle, WindowsWindowInfo,
};
use crabgrab::platform::windows::capture_stream::{create_step_error, WindowsStreamCreateStep,
    capability_granted, device_source, frame_pool_pixel_format, stop_result, AppCapabilityAccessStatus, DeviceSource,
    DirectXPixelFormat, FrameTiming, WindowsCaptureAccessToken, WindowsCaptureConfig, WindowsCaptureConfigExt,
    WindowsStreamState,
};
use crabgrab::platform::windows::frame::{windows_bitmap_layout, WindowsAudioFrame};
use std::time::Duration;

fn info(hwnd: isize, is_window: bool, visible: bool, display_affinity: Option<u32>) -> WindowsWindowInfo {
    WindowsWindowInfo { hwnd, pid: 100 + hwnd as u32, is_window, visible, display_affinity, desktop_element: false }
}

fn desktop_info(hwnd: isize) -> WindowsWindowInfo {
    WindowsWindowInfo { desktop_element: true, ..info(hwnd, true, true, None) }
}

fn audio_frame(channel_count: AudioChannelCount, data: Vec<i16>) -> WindowsAudioFrame {
    WindowsAudioFrame {
        data,
        channel_count,
        sample_rate: AudioSampleRate::Hz48000,
        duration: Duration::from_millis(10),
        origin_time: Duration::from_millis(20),
        frame_id: 3,
    }
}

#[test]
fn windows_content_is_filtered() {
    let windows = vec![
        info(1, true, true, Some(0)),
        info(2, false, true, None),
        info(3, true, false, None),
        info(4, true, true, Some(0x11)),
        info(5, true, true, None),
        info(6, true, true, Some(0x1)),
        desktop_info(7),
    ];
    let monitors = vec![WindowsCapturableDisplay::from_impl((77, Rect32 { left: 0, top: 0, right: 1920, bottom: 1080 }))];
    let content = WindowsCapturableContent::new(&CapturableContentFilter::EVERYTHING_NORMAL(), windows.clone(), monitors.clone()).unwrap();
    let hwnds: Vec<isize> = content.windows.iter().map(|w| w.hwnd).collect();
    assert_eq!(hwnds, vec![1, 5]);
    assert_eq!(content.windows[1].pid, 105);
    assert_eq!(content.displays, monitors);

    let content = WindowsCapturableContent::new(&CapturableContentFilter::ALL_WINDOWS(), windows.clone(), monitors.clone()).unwrap();
    let hwnds: Vec<isize> = content.windows.iter().map(|w| w.hwnd).collect();
    assert_eq!(hwnds, vec![1, 3, 5, 7]);
    assert!(content.displays.is_empty());

    let content = WindowsCapturableContent::new(&CapturableContentFilter::DISPLAYS(), windows, monitors).unwrap();
    assert!(content.windows.is_empty());
    assert_eq!(content.displays.len(), 1);
    assert_eq!(content.displays[0].rect.right, 1920);

    let mut filter = CapturableContentFilter::ALL_WINDOWS();
    filter.windows = Some(CapturableWindowFilter { desktop_windows: false, onscreen_only: true });
    let content = WindowsCapturableContent::new(&filter, vec![info(9, true, true, None)], vec![]).unwrap();
    assert_eq!(content.windows.len(), 1);
}

#[test]
fn native_window_handles() {
    let window = WindowsCapturableWindow::from_impl(0x1234, 8);
    assert_eq!(window.get_native_window_handle(), 0x1234);
    let not_a_window = window.from_native_window_handle(0xbeef, 1, false, None).err().unwrap();
    assert!(matches!(not_a_window, CapturableContentError::Other(m) if m == "HWND 000000000000BEEF is not a window"));
    let excluded = window.from_native_window_handle(-1, 1, true, Some(0x11)).err().unwrap();
    assert!(matches!(excluded, CapturableContentError::Other(m) if m == "HWND FFFFFFFFFFFFFFFF is not capturable a window"));
    let ok = window.from_native_window_handle(0x42, 9, true, None).unwrap();
    assert_eq!(ok, WindowsCapturableWindow { hwnd: 0x42, pid: 9 });
    let unreadable_affinity = window.from_native_window_handle(0x43, 9, true, Some(0)).unwrap();
    assert_eq!(unreadable_affinity.hwnd, 0x43);
}

#[test]
fn applications() {
    let window = WindowsCapturableWindow::from_impl(5, 4000000000);
    let application = window.application("explorer.exe".to_string());
    assert_eq!(application.identifier(), "explorer.exe");
    assert_eq!(application.name(), "explorer.exe");
    assert_eq!(application.pid(), -294967296);
    assert_eq!(WindowsCapturableApplication::from_impl(12, String::new()).pid(), 12);
}

#[test]
fn frames_take_consecutive_ids_and_times() {
    let mut state = WindowsStreamState::new();
    assert!(state.on_frame_arrived(false, 5, Ok(())).is_none());
    let (delivery, timing) = state.on_frame_arrived(true, 1_000, Ok(())).unwrap();
    assert!(matches!(delivery, StreamDelivery::Video { frame_id: 0 }));
    assert_eq!(timing, FrameTiming { origin_time: 0, duration: 0 });
    let (delivery, timing) = state.on_frame_arrived(true, 1_500, Ok(())).unwrap();
    assert!(matches!(delivery, StreamDelivery::Video { frame_id: 1 }));
    // the last frame time is never moved on: the duration is measured from the first frame
    assert_eq!(timing, FrameTiming { origin_time: 500, duration: 500 });
    let (delivery, timing) = state.on_frame_arrived(true, 2_500, Err("lost".to_string())).unwrap();
    assert!(matches!(delivery, StreamDelivery::Error(StreamError::Other(m)) if m == "Failed to capture frame: lost"));
    assert_eq!(timing.origin_time, 1_500);
    assert_eq!(state.frame_id_counter, 2);
    let (_, timing) = state.on_frame_arrived(true, 200, Ok(())).unwrap();
    assert_eq!(timing.origin_time, 0);
}

#[test]
fn a_windows_stream_ends_once() {
    let mut state = WindowsStreamState::new();
    assert!(matches!(state.on_closed(), Some(StreamDelivery::End)));
    assert!(state.closed);
    assert!(state.on_closed().is_none());
    assert!(state.stop().is_none());
    assert!(state.on_frame_arrived(true, 10, Ok(())).is_none());
    let mut stopped = WindowsStreamState::new();
    assert!(matches!(stopped.stop(), Some(StreamDelivery::End)));
    assert!(stopped.on_closed().is_none());
}

#[test]
fn a_closed_state_delivers_nothing() {
    let mut state = WindowsStreamState { closed: true, ..WindowsStreamState::new() };
    assert!(state.on_closed().is_none());
    assert!(state.on_frame_arrived(true, 1, Ok(())).is_none());
    assert!(state.on_audio_packet(Ok(())).is_none());
    assert_eq!(state.audio_frame_id_counter, 0);
}

#[test]
fn audio_packets() {
    let mut state = WindowsStreamState::new();
    assert!(matches!(state.on_audio_packet(Ok(())), Some(StreamDelivery::Audio { frame_id: 0 })));
    assert!(matches!(state.on_audio_packet(Ok(())), Some(StreamDelivery::Audio { frame_id: 1 })));
    assert!(matches!(state.on_audio_packet(Err(())), Some(StreamDelivery::Error(StreamError::Other(m))) if m == "Audio stream error"));
    assert_eq!(state.audio_frame_id_counter, 2);
    assert_eq!(state.frame_id_counter, 0);
}

#[test]
fn access_decisions() {
    assert!(capability_granted(Err(())));
    assert!(capability_granted(Ok(Ok(AppCapabilityAccessStatus::Allowed))));
    assert!(!capability_granted(Ok(Ok(AppCapabilityAccessStatus::DeniedByUser))));
    assert!(!capability_granted(Ok(Err(()))));
    assert_eq!(WindowsCaptureAccessToken::check_access(true, true, true).unwrap().borderless, true);
    assert_eq!(WindowsCaptureAccessToken::check_access(false, true, false).unwrap().borderless, false);
    assert!(WindowsCaptureAccessToken::check_access(true, true, false).is_none());
    assert!(WindowsCaptureAccessToken::check_access(false, false, true).is_none());
    assert!(WindowsCaptureAccessToken::request_access(true, Ok(AppCapabilityAccessStatus::Allowed)).unwrap().allows_borderless());
    assert!(WindowsCaptureAccessToken::request_access(true, Ok(AppCapabilityAccessStatus::UserPromptRequired)).is_none());
    assert!(WindowsCaptureAccessToken::request_access(false, Err(())).is_none());
}

#[test]
fn pixel_formats_and_devices() {
    assert_eq!(frame_pool_pixel_format(CapturePixelFormat::Bgra8888).unwrap(), DirectXPixelFormat::B8G8R8A8UIntNormalized);
    assert_eq!(frame_pool_pixel_format(CapturePixelFormat::Argb2101010).unwrap(), DirectXPixelFormat::R10G10B10A2UIntNormalized);
    assert!(matches!(frame_pool_pixel_format(CapturePixelFormat::V420), Err(StreamCreateError::UnsupportedPixelFormat)));
    assert!(matches!(frame_pool_pixel_format(CapturePixelFormat::F420), Err(StreamCreateError::UnsupportedPixelFormat)));
    let config = WindowsCaptureConfig::new();
    assert_eq!(device_source(&config), DeviceSource::FirstAdapter);
    assert_eq!(device_source(&WindowsCaptureConfig { dxgi_adapter: Some(1), d3d11_device: None }), DeviceSource::GivenAdapter(1));
    assert_eq!(device_source(&WindowsCaptureConfig { dxgi_adapter: Some(1), d3d11_device: Some(2) }), DeviceSource::GivenDevice(2));
    let capture_config = CaptureConfig::with_display(CapturableDisplay { display_id: 1 }, CapturePixelFormat::Bgra8888)
        .with_dxgi_adapter(10)
        .with_d3d11_device(20);
    assert_eq!(capture_config.impl_capture_config.windows.dxgi_adapter, Some(10));
    assert_eq!(capture_config.impl_capture_config.windows.d3d11_device, Some(20));
    assert!(stop_result(false, true).is_ok());
    assert!(matches!(stop_result(false, false), Err(StreamStopError::Other(m)) if m == "Failed to close capture session"));
    assert!(matches!(stop_result(true, true), Err(StreamStopError::AlreadyStopped)));
}

#[test]
fn audio_channel_buffers() {
    let stereo = audio_frame(AudioChannelCount::Stereo, vec![1, 2, 3, 4]);
    let left = stereo.audio_channel_buffer(0).ok().unwrap();
    assert_eq!(left.start, 0);
    assert_eq!(left.stride, 4);
    assert_eq!(left.length(), 2);
    assert_eq!(left.get(0), 1);
    assert_eq!(left.get(1), 3);
    let right = stereo.audio_channel_buffer(1).ok().unwrap();
    assert_eq!(right.start, 1);
    assert_eq!(right.length(), 2);
    assert_eq!(right.get(0), 2);
    assert_eq!(right.get(1), 4);
    assert!(matches!(stereo.audio_channel_buffer(2), Err(AudioBufferError::InvalidChannel)));
    let odd = audio_frame(AudioChannelCount::Stereo, vec![1, 2, 3]);
    assert_eq!(odd.audio_channel_buffer(1).ok().unwrap().length(), 1);
    let mono = audio_frame(AudioChannelCount::Mono, vec![1, 2]);
    let only = mono.audio_channel_buffer(0).ok().unwrap();
    assert_eq!(only.stride, 2);
    assert_eq!(only.length(), 2);
    assert_eq!(only.get(0), 1);
    assert_eq!(only.get(1), 2);
    assert!(matches!(mono.audio_channel_buffer(1), Err(AudioBufferError::InvalidChannel)));
    assert_eq!(mono.sample_rate(), AudioSampleRate::Hz48000);
    assert_eq!(mono.channel_count(), AudioChannelCount::Mono);
    assert_eq!(mono.origin_time(), Duration::from_millis(20));
    assert_eq!(mono.duration(), Duration::from_millis(10));
    assert_eq!(mono.frame_id(), 3);
}

#[test]
fn audio_streams_cannot_be_created() {
    assert!(matches!(WindowsAudioCaptureStream::new(Err("no com".to_string()), true),
        Err(WindowsAudioCaptureStreamCreateError::Other(m)) if m == "Failed to create MMDeviceEnumerator: no com"));
    assert!(matches!(WindowsAudioCaptureStream::new(Ok(()), false), Err(WindowsAudioCaptureStreamCreateError::EnpointEnumerationFailed)));
    assert!(matches!(WindowsAudioCaptureStream::new(Ok(()), true),
        Err(WindowsAudioCaptureStreamCreateError::Other(m)) if m == "WindowsAudioCaptureStream unimplemented!"));
}

#[test]
fn windows_frame_layouts() {
    assert!(matches!(windows_bitmap_layout(Ok(DirectXPixelFormat::B8G8R8A8UIntNormalized)), Ok(FrameLayout::Bgra8888)));
    assert!(matches!(windows_bitmap_layout(Ok(DirectXPixelFormat::R10G10B10A2UIntNormalized)), Ok(FrameLayout::ArgbPacked2101010)));
    assert!(matches!(windows_bitmap_layout(Ok(DirectXPixelFormat::R16G16B16A16Float)),
        Err(VideoFrameBitmapError::Other(m)) if m == "Unknown or unsupported pixel format on DXGISurface"));
    assert!(matches!(windows_bitmap_layout(Err("gone".to_string())), Err(VideoFrameBitmapError::Other(m)) if m == "gone"));
}

#[test]
fn readback_errors() {
    assert!(matches!(readback_error(WindowsReadbackStep::StagingTexture("E_FAIL".to_string())),
        VideoFrameBitmapError::Other(m) if m == "Failed to create texture: E_FAIL"));
    assert!(matches!(readback_error(WindowsReadbackStep::MapStaging), VideoFrameBitmapError::Other(m) if m == "Couldn't map staging texture"));
    assert!(matches!(readback_error(WindowsReadbackStep::SurfaceDescription),
        VideoFrameBitmapError::Other(m) if m == "Couldn't get description of frame surface"));
}

#[test]
fn audio_failures_fail_the_capture_stream() {
    let failed = capture_audio_stream(WindowsAudioCaptureStream::new(Ok(()), true));
    assert!(matches!(failed, Err(StreamCreateError::Other(m)) if m == "Failed to create audio stream"));
    assert!(capture_audio_stream(Ok(WindowsAudioCaptureStream {})).is_ok());
}

#[test]
fn stream_creation_errors() {
    assert!(matches!(create_step_error(WindowsStreamCreateStep::ItemFromWindow("bad hwnd".to_string())),
        StreamCreateError::Other(m) if m == "Failed to create graphics capture item from HWND: bad hwnd"));
    assert!(matches!(create_step_error(WindowsStreamCreateStep::StartCapture), StreamCreateError::Other(m) if m == "Failed to start capture"));
    assert!(matches!(create_step_error(WindowsStreamCreateStep::FramePool("E".to_string())),
        StreamCreateError::Other(m) if m == "Failed to create Direct3D11CaptureFramePool: E"));
}

#[test]
fn displays_are_the_same_by_monitor() {
    let a = WindowsCapturableDisplay::from_impl((7, Rect32 { left: 0, top: 0, right: 10, bottom: 10 }));
    let b = WindowsCapturableDisplay::from_impl((7, Rect32 { left: 5, top: 5, right: 6, bottom: 6 }));
    let c = WindowsCapturableDisplay::from_impl((8, Rect32 { left: 0, top: 0, right: 10, bottom: 10 }));
    assert_eq!(a.monitor, 7);
    assert_eq!(a.rect, Rect32 { left: 0, top: 0, right: 10, bottom: 10 });
    assert!(a == b);
    assert!(a != c);
}

#[test]
fn application_identifier_is_the_module_file_name() {
    assert_eq!(identifier_from_module_path(Some("C:\\Windows\\explorer.exe")), "explorer.exe");
    assert_eq!(identifier_from_module_path(Some("C:/Windows/explorer.exe")), "explorer.exe");
    assert_eq!(identifier_from_module_path(Some("C:\\Apps\\tool.exe\\")), "tool.exe");
    assert_eq!(identifier_from_module_path(Some("C:\\Apps\\tool.exe\\.")), "tool.exe");
    assert_eq!(identifier_from_module_path(Some("notepad.exe")), "notepad.exe");
    assert_eq!(identifier_from_module_path(Some("C:\\Apps\\..")), "C:\\Apps\\..");
    assert_eq!(identifier_from_module_path(Some("C:\\")), "C:\\");
    assert_eq!(identifier_from_module_path(Some("")), "");
    assert_eq!(identifier_from_module_path(Some(r"\\?\C:\Windows\explorer.exe")), "explorer.exe");
    assert_eq!(identifier_from_module_path(Some(r"\\?\C:\dir/tool.exe")), "dir/tool.exe");
    assert_eq!(identifier_from_module_path(Some(r"\\?\C:\dir\.")), r"\\?\C:\dir\.");
    assert_eq!(identifier_from_module_path(Some(r"\\?\C:\")), r"\\?\C:\");
    assert_eq!(identifier_from_module_path(Some(r"\\?\UNC\server\share\x.exe")), "x.exe");
    assert_eq!(identifier_from_module_path(Some(r"\\?\UNC\server\share")), r"\\?\UNC\server\share");
    assert_eq!(identifier_from_module_path(Some(r"\\server\share\app.exe")), "app.exe");
    assert_eq!(identifier_from_module_path(Some(r"\\server\share\")), r"\\server\share\");
    assert_eq!(identifier_from_module_path(Some(r"\\.\device\x.exe")), "x.exe");
    assert_eq!(identifier_from_module_path(Some(r"C:x.exe")), "x.exe");
    assert_eq!(identifier_from_module_path(Some(r"C:\Apps\C:")), "C:");
    assert_eq!(identifier_from_module_path(None), "");
    let app = WindowsCapturableApplication::from_module(40, Some("D:\\Games\\game.exe"));
    assert_eq!(app.identifier(), "game.exe");
    assert_eq!(app.name(), "game.exe");
    assert_eq!(app.pid(), 40);
    assert_eq!(WindowsCapturableApplication::from_module(41, None).identifier(), "");
}

#[test]
fn windows_are_the_same_by_handle() {
    let a = WindowsCapturableWindow::from_impl(0x10, 1);
    let b = WindowsCapturableWindow::from_impl(0x10, 2);
    let c = WindowsCapturableWindow::from_impl(0x11, 1);
    assert!(a == b);
    assert!(a != c);
    let windows: std::collections::HashSet<WindowsCapturableWindow> = vec![a, b, c].into_iter().collect();
    assert_eq!(windows.len(), 2);
    let displays: std::collections::HashSet<WindowsCapturableDisplay> = vec![
        WindowsCapturableDisplay::from_impl((7, Rect32 { left: 0, top: 0, right: 10, bottom: 10 })),
        WindowsCapturableDisplay::from_impl((7, Rect32 { left: 5, top: 5, right: 6, bottom: 6 })),
        WindowsCapturableDisplay::from_impl((8, Rect32 { left: 0, top: 0, right: 10, bottom: 10 })),
    ].into_iter().collect();
    assert_eq!(displays.len(), 2);
}
