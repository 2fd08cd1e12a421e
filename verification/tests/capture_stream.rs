use crabgrab::frame::AudioFrame;
use crabgrab::capture_stream::AccessRequestOutcome;
use crabgrab::platform::windows::capture_stream::AppCapabilityAccessStatus;
use crabgrab::capturable_content::{Capturable, CapturableApplication, CapturableDisplay, CapturableWindow};
use crabgrab::capture_stream::{
    increment_id, AccessCheck, AudioCaptureConfig, Backend, CaptureAccessToken, CaptureConfig, CaptureConfigError,
    CapturePixelFormat, CaptureStream, ImplCaptureAccessToken, ImplCaptureStream, StreamCreateError, StreamDelivery,
    StreamError, StreamStopError,
};
use crabgrab::frame::{AudioBufferError, AudioChannelCount, AudioSampleRate};
use crabgrab::platform::macos::capture_stream::{MacosCaptureAccessToken, MacosStreamBackend};
use crabgrab::platform::windows::capture_stream::WindowsCaptureAccessToken;

fn sample_window() -> CapturableWindow {
    CapturableWindow {
        window_id: 42,
        title: "Finder".to_string(),
        application: CapturableApplication { identifier: "com.apple.finder".to_string(), name: "Finder".to_string(), pid: 7 },
    }
}

fn macos_token() -> CaptureAccessToken {
    CaptureAccessToken { impl_capture_access_token: ImplCaptureAccessToken::Macos(MacosCaptureAccessToken()) }
}

fn windows_token(borderless: bool) -> CaptureAccessToken {
    CaptureAccessToken { impl_capture_access_token: ImplCaptureAccessToken::Windows(WindowsCaptureAccessToken { borderless }) }
}

#[test]
fn error_display_texts() {
    assert_eq!(StreamError::Other("boom".to_string()).to_display_string(), "StreamError::Other(\"boom\")");
    assert_eq!(StreamCreateError::Other("x".to_string()).to_display_string(), "StreamCreateError::Other(\"x\")");
    assert_eq!(StreamCreateError::UnsupportedPixelFormat.to_display_string(), "StreamCreateError::UnsupportedPixelFormat");
    assert_eq!(StreamCreateError::UnauthorizedFeature("audio".to_string()).to_display_string(), "StreamCreateError::UnauthorizedFeature(audio)");
    assert_eq!(StreamStopError::Other("y".to_string()).to_display_string(), "StreamStopError::Other(\"y\")");
    assert_eq!(StreamStopError::AlreadyStopped.to_display_string(), "StreamStopError::AlreadyStopped");
    assert_eq!(CaptureConfigError::UnsupportedPixelFormat.to_display_string(), "CaptureConfigError::UnsupportedPixelFormat");
    assert_eq!(CaptureConfigError::InvalidBufferCount.to_display_string(), "CaptureConfigError::InvalidBufferCount");
}

#[test]
fn audio_config_defaults_to_mono_24khz() {
    let config = AudioCaptureConfig::new();
    assert_eq!(config.sample_rate, AudioSampleRate::Hz24000);
    assert_eq!(config.channel_count, AudioChannelCount::Mono);
    assert!(!config.impl_capture_audio_config.exclude_current_process_audio);
}

#[test]
fn fresh_configs_and_builders() {
    let config = CaptureConfig::with_window(sample_window(), CapturePixelFormat::V420).unwrap();
    assert!(matches!(config.target, Capturable::Window(ref w) if w.window_id == 42));
    assert_eq!(config.pixel_format, CapturePixelFormat::V420);
    assert!(!config.show_cursor);
    assert!(config.capture_audio.is_none());
    assert_eq!(config.buffer_count, 3);
    assert!(config.impl_capture_config.macos.scale_to_fit);
    assert!(config.impl_capture_config.windows.dxgi_adapter.is_none());
    let config = config.with_buffer_count(8).with_show_cursor(true);
    assert_eq!(config.buffer_count, 8);
    assert!(config.show_cursor);
    assert_eq!(config.pixel_format, CapturePixelFormat::V420);

    let display_config = CaptureConfig::with_display(CapturableDisplay { display_id: 1 }, CapturePixelFormat::Bgra8888);
    assert!(matches!(display_config.target, Capturable::Display(d) if d.display_id == 1));
    assert_eq!(display_config.buffer_count, 3);
}

#[test]
fn access_tokens_and_borderless() {
    assert!(macos_token().allows_borderless());
    assert!(windows_token(true).allows_borderless());
    assert!(!windows_token(false).allows_borderless());

    assert!(CaptureStream::test_access(false, AccessCheck::Macos { preflight_access: true }).is_some());
    assert!(CaptureStream::test_access(true, AccessCheck::Macos { preflight_access: false }).is_none());
    let token = CaptureStream::test_access(false, AccessCheck::Windows { programmatic_access: true, borderless_access: true }).unwrap();
    assert!(token.allows_borderless());
    let token = CaptureStream::test_access(false, AccessCheck::Windows { programmatic_access: true, borderless_access: false }).unwrap();
    assert!(!token.allows_borderless());
    assert!(CaptureStream::test_access(true, AccessCheck::Windows { programmatic_access: true, borderless_access: false }).is_none());
    assert!(CaptureStream::test_access(false, AccessCheck::Windows { programmatic_access: false, borderless_access: true }).is_none());
}

#[test]
fn supported_pixel_formats_per_backend() {
    assert_eq!(
        CaptureStream::supported_pixel_formats(Backend::Macos),
        vec![CapturePixelFormat::V420, CapturePixelFormat::F420, CapturePixelFormat::Bgra8888, CapturePixelFormat::Argb2101010]
    );
    assert_eq!(
        CaptureStream::supported_pixel_formats(Backend::Windows),
        vec![CapturePixelFormat::Bgra8888, CapturePixelFormat::Argb2101010]
    );
}

#[test]
fn new_streams_per_platform() {
    let window_config = CaptureConfig::with_window(sample_window(), CapturePixelFormat::V420).unwrap();
    let stream = CaptureStream::new(macos_token(), &window_config).unwrap();
    assert!(matches!(stream.impl_capture_stream, ImplCaptureStream::Macos { backend: MacosStreamBackend::Window, state } if !state.stopped));
    let display_config = CaptureConfig::with_display(CapturableDisplay { display_id: 2 }, CapturePixelFormat::F420);
    let stream = CaptureStream::new(macos_token(), &display_config).unwrap();
    assert!(matches!(stream.impl_capture_stream, ImplCaptureStream::Macos { backend: MacosStreamBackend::Display, .. }));
    assert!(matches!(CaptureStream::new(windows_token(false), &display_config), Err(StreamCreateError::UnsupportedPixelFormat)));
    let bgra_config = CaptureConfig::with_display(CapturableDisplay { display_id: 2 }, CapturePixelFormat::Bgra8888);
    let stream = CaptureStream::new(windows_token(false), &bgra_config).unwrap();
    assert!(matches!(stream.impl_capture_stream, ImplCaptureStream::Windows(s) if !s.closed && s.frame_id_counter == 0));
}

#[test]
fn stopping_a_macos_stream_ends_it_once() {
    let config = CaptureConfig::with_display(CapturableDisplay { display_id: 2 }, CapturePixelFormat::Bgra8888);
    let mut stream = CaptureStream::new(macos_token(), &config).unwrap();
    let first = stream.stop();
    assert!(matches!(first.delivery, Some(StreamDelivery::End)));
    assert!(first.stop_backend);
    assert!(stream.stop_result(&first, true).is_ok());
    assert!(matches!(stream.stop_result(&first, false), Err(StreamStopError::Other(m)) if m == "Unkown"));
    let second = stream.stop();
    assert!(second.delivery.is_none());
    assert!(!second.stop_backend);
    assert!(matches!(stream.stop_result(&second, true), Err(StreamStopError::AlreadyStopped)));
}

#[test]
fn stopping_a_windows_stream_ends_it_once() {
    let config = CaptureConfig::with_display(CapturableDisplay { display_id: 2 }, CapturePixelFormat::Bgra8888);
    let mut stream = CaptureStream::new(windows_token(false), &config).unwrap();
    let first = stream.stop();
    assert!(matches!(first.delivery, Some(StreamDelivery::End)));
    assert!(first.stop_backend);
    assert!(stream.stop_result(&first, true).is_ok());
    assert!(matches!(stream.stop_result(&first, false), Err(StreamStopError::Other(m)) if m == "Failed to close capture session"));
    let second = stream.stop();
    assert!(second.delivery.is_none());
    assert!(!second.stop_backend);
    assert!(matches!(stream.stop_result(&second, true), Err(StreamStopError::AlreadyStopped)));
}

#[test]
fn ids_wrap_after_the_largest() {
    assert_eq!(increment_id(0), 1);
    assert_eq!(increment_id(41), 42);
    assert_eq!(increment_id(u64::MAX), 0);
}

#[test]
fn requested_access() {
    assert!(CaptureStream::request_access(false, AccessRequestOutcome::Macos { granted: true }).unwrap().allows_borderless());
    assert!(CaptureStream::request_access(false, AccessRequestOutcome::Macos { granted: false }).is_none());
    let token = CaptureStream::request_access(true, AccessRequestOutcome::Windows(Ok(AppCapabilityAccessStatus::Allowed))).unwrap();
    assert!(token.allows_borderless());
    assert!(CaptureStream::request_access(true, AccessRequestOutcome::Windows(Ok(AppCapabilityAccessStatus::DeniedBySystem))).is_none());
    assert!(CaptureStream::request_access(false, AccessRequestOutcome::Windows(Err(()))).is_none());
}

#[test]
fn audio_frame_accessors() {
    let frame = AudioFrame {
        data: vec![1, 2, 3, 4],
        sample_rate: AudioSampleRate::Hz16000,
        channel_count: AudioChannelCount::Stereo,
        duration: std::time::Duration::from_millis(10),
        origin_time: std::time::Duration::from_millis(250),
        frame_id: 6,
    };
    assert_eq!(frame.sample_rate(), AudioSampleRate::Hz16000);
    assert_eq!(frame.channel_count(), AudioChannelCount::Stereo);
    assert_eq!(frame.duration(), std::time::Duration::from_millis(10));
    assert_eq!(frame.origin_time(), std::time::Duration::from_millis(250));
    assert_eq!(frame.frame_id(), 6);
    let right = frame.audio_channel_buffer(1).ok().unwrap();
    assert_eq!(right.length(), 2);
    assert_eq!((right.get(0), right.get(1)), (2, 4));
    assert!(matches!(frame.audio_channel_buffer(2), Err(AudioBufferError::InvalidChannel)));
}
