use crabgrab::platform::macos::objc_wrap::{cmtime_order, CGWindowID};
use std::cmp::Ordering;
use crabgrab::capturable_content::{
    CapturableApplication, CapturableContent, CapturableContentError, CapturableContentFilter, CapturableDisplay,
    CapturableWindow, CapturableWindowFilter,
};
use crabgrab::capture_stream::{AudioCaptureConfig, CaptureConfig, CapturePixelFormat, StreamDelivery, StreamError};
use crabgrab::frame::{AudioBufferError, AudioChannelCount, AudioSampleRate};
use crabgrab::platform::macos::capturable_content::{
    get_window_level, macos_capturable_content, shareable_content_request, MacosCapturableContentFilter,
    MacosCapturableContentFilterExt, MacosCapturableWindowExt, MacosShareableWindow, MacosWindowLevel, WindowLevels,
};
use crabgrab::platform::macos::capture_stream::{
    display_stream_settings, sc_stream_settings, stream_pixel_format, DisplayStreamClock, DisplayStreamSettings, MacosAudioCaptureConfigExt, MacosCaptureConfigExt,
    MacosStreamState, SCStreamCallback,
};
use crabgrab::platform::macos::frame::{
    macos_audio_buffer_source, macos_audio_channel_check, macos_audio_channel_count, macos_bitmap_layout,
    macos_built_pcm_buffer, MacosAudioBufferSource, MacosFrameSurface, K_AUDIO_FORMAT_FLAGS_CANONICAL,
};
use crabgrab::platform::macos::objc_wrap::{
    CGBitmapAlphaInfo, CGBitmapByteOrder, CGBitmapInfo, CGDisplayStreamFrameStatus, CGImagePixelFormat, CMMediaType,
    CMTime, CFNumberType, CVPixelFormat, OSType, SCFrameStatus, SCShareableContentStyle, SCStreamCallbackError,
    SCStreamColorMatrix, SCStreamOutputType, SCStreamPixelFormat, SCStreamSampleRate,
};
use crabgrab::feature::bitmap::{FrameLayout, VideoFrameBitmapError};

fn levels() -> WindowLevels {
    WindowLevels {
        desktop: -2147483623,
        desktop_icon: -2147483603,
        backstop: -20,
        normal: 0,
        floating: 3,
        torn_off_menu: 3,
        modal_panel: 8,
        utility: 19,
        dock: 20,
        main_menu: 24,
        status: 25,
        pop_up_menu: 101,
        overlay: 102,
        help: 200,
        dragging: 500,
        screen_saver: 1000,
        assistive_tech_high: 1500,
        cursor: 2147483630,
    }
}

fn window(id: u64) -> CapturableWindow {
    CapturableWindow {
        window_id: id,
        title: format!("window {}", id),
        application: CapturableApplication { identifier: "com.example".to_string(), name: "Example".to_string(), pid: 3 },
    }
}

fn screen(status: Option<i32>) -> SCStreamCallback {
    SCStreamCallback::Output { output_type: SCStreamOutputType::Screen, frame_status: status }
}

#[test]
fn window_levels_from_layers() {
    let l = levels();
    assert_eq!(get_window_level(&l, Ok(0)), Ok(MacosWindowLevel::Normal));
    assert_eq!(get_window_level(&l, Ok(3)), Ok(MacosWindowLevel::TornOffMenu));
    assert_eq!(get_window_level(&l, Ok(-30)), Ok(MacosWindowLevel::DesktopIcon));
    assert_eq!(get_window_level(&l, Ok(i32::MIN)), Ok(MacosWindowLevel::BelowDesktop));
    assert_eq!(get_window_level(&l, Ok(i32::MAX)), Ok(MacosWindowLevel::Cursor));
    assert_eq!(get_window_level(&l, Ok(24)), Ok(MacosWindowLevel::MainMenu));
    assert_eq!(get_window_level(&l, Err(())), Err(()));
    assert_eq!(MacosWindowLevel::Normal.value(), 4);
    assert_eq!(MacosWindowLevel::AssistiveTechHigh.value(), 18);
    assert_eq!(MacosWindowLevel::PopupMenu.debug_name(), "PopupMenu");
}

#[test]
fn level_filters() {
    let app = "com.example".to_string();
    let default = MacosCapturableContentFilter::DEFAULT();
    assert!(default.filter_scwindow(Err(()), &app));
    let normal = MacosCapturableContentFilter::NORMAL_WINDOWS();
    assert!(normal.filter_scwindow(Ok(MacosWindowLevel::Normal), &app));
    assert!(normal.filter_scwindow(Ok(MacosWindowLevel::TornOffMenu), &app));
    assert!(!normal.filter_scwindow(Ok(MacosWindowLevel::Dock), &app));
    assert!(!normal.filter_scwindow(Err(()), &app));
    assert!(normal.filter_scdisplay());
}

#[test]
fn window_level_range_is_checked() {
    let filter = CapturableContentFilter::NORMAL_WINDOWS()
        .with_window_level_range(Some(MacosWindowLevel::Floating), None)
        .unwrap();
    assert_eq!(filter.impl_capturable_content_filter.window_level_range, (Some(MacosWindowLevel::Floating), None));
    let app = "com.example".to_string();
    assert!(filter.impl_capturable_content_filter.filter_scwindow(Ok(MacosWindowLevel::Cursor), &app));
    assert!(!filter.impl_capturable_content_filter.filter_scwindow(Ok(MacosWindowLevel::Normal), &app));
    let error = CapturableContentFilter::DISPLAYS()
        .with_window_level_range(Some(MacosWindowLevel::Dock), Some(MacosWindowLevel::Normal))
        .err()
        .unwrap();
    assert!(matches!(error, CapturableContentError::Other(m)
        if m == "Invalid window level range: minimum level: Dock is greater than maximum level: Normal"));
}

#[test]
fn excluded_bundle_ids_accumulate() {
    let filter = CapturableContentFilter::EVERYTHING().with_exclude_bundle_ids(&["a.b"]).with_exclude_bundle_ids(&["c.d", "e.f"]);
    assert_eq!(filter.impl_capturable_content_filter.excluded_bundle_ids, Some(vec!["a.b".to_string(), "c.d".to_string(), "e.f".to_string()]));
    assert!(filter.displays);
    assert!(filter.impl_capturable_content_filter.is_excluded_bundle_id(&"c.d".to_string()));
    assert!(!filter.impl_capturable_content_filter.is_excluded_bundle_id(&"c".to_string()));
    assert!(!filter.impl_capturable_content_filter.filter_scwindow(Ok(MacosWindowLevel::Normal), &"e.f".to_string()));
    assert!(filter.impl_capturable_content_filter.filter_scwindow(Ok(MacosWindowLevel::Normal), &"g.h".to_string()));
}

#[test]
fn content_requests_follow_the_window_filter() {
    assert_eq!(shareable_content_request(&CapturableContentFilter::DISPLAYS()), (false, true));
    assert_eq!(shareable_content_request(&CapturableContentFilter::ALL_WINDOWS()), (false, false));
    assert_eq!(shareable_content_request(&CapturableContentFilter::NORMAL_WINDOWS()), (true, true));
    let mut filter = CapturableContentFilter::NORMAL_WINDOWS();
    filter.windows = Some(CapturableWindowFilter { desktop_windows: true, onscreen_only: true });
    assert_eq!(shareable_content_request(&filter), (false, true));
}

#[test]
fn listed_content_is_filtered_by_level() {
    let mut filter = CapturableContentFilter::EVERYTHING();
    filter.impl_capturable_content_filter = MacosCapturableContentFilter::NORMAL_WINDOWS();
    let listed = vec![
        MacosShareableWindow { window: window(1), level: Ok(MacosWindowLevel::Normal) },
        MacosShareableWindow { window: window(2), level: Ok(MacosWindowLevel::Dock) },
        MacosShareableWindow { window: window(3), level: Err(()) },
        MacosShareableWindow { window: window(4), level: Ok(MacosWindowLevel::Floating) },
    ];
    let content = macos_capturable_content(&filter, Ok(Ok((listed, vec![CapturableDisplay { display_id: 5 }])))).unwrap();
    let mut windows = content.windows();
    assert_eq!(windows.next().unwrap().window_id, 1);
    assert_eq!(windows.next().unwrap().window_id, 4);
    assert!(windows.next().is_none());
    assert_eq!(content.displays().len(), 1);

    let excluding = filter.with_exclude_bundle_ids(&["com.example"]);
    let listed = vec![MacosShareableWindow { window: window(1), level: Ok(MacosWindowLevel::Normal) }];
    let content = macos_capturable_content(&excluding, Ok(Ok((listed, vec![])))).unwrap();
    assert!(content.windows().next().is_none());
    let filter = CapturableContentFilter::EVERYTHING();

    let failed = macos_capturable_content(&filter, Ok(Err(-3801))).err().unwrap();
    assert!(matches!(failed, CapturableContentError::Other(m) if m == "SCShareableContent returned error code: -3801"));
    let lost = macos_capturable_content(&filter, Err("canceled".to_string())).err().unwrap();
    assert!(matches!(lost, CapturableContentError::Other(m)
        if m == "Failed to receive SCSharableContent result from completion handler future: canceled"));
}

#[test]
fn windows_are_found_by_id() {
    let content = CapturableContent::from_parts(vec![window(10), window(20), window(20)], vec![]);
    let found = <CapturableWindow as MacosCapturableWindowExt>::from_window_id(20, &content).unwrap();
    assert_eq!(found.window_id, 20);
    assert_eq!(found.get_window_id(), 20);
    let missing = <CapturableWindow as MacosCapturableWindowExt>::from_window_id(30, &content).err().unwrap();
    assert!(matches!(missing, CapturableContentError::Other(m) if m == "No capturable window with id: 30 found"));
    let w = window(10);
    assert_eq!(w.get_window_layer(Ok(8)).unwrap(), 8);
    assert!(matches!(w.get_window_layer(Err(())), Err(CapturableContentError::Other(m)) if m == "Failed to retreive window layer"));
    assert_eq!(w.get_window_level(&levels(), Ok(8)).unwrap(), MacosWindowLevel::ModalPanel);
    assert!(matches!(w.get_window_level(&levels(), Err(())), Err(CapturableContentError::Other(m)) if m == "Failed to retreive window level"));
}

#[test]
fn screen_capture_callbacks() {
    let mut state = MacosStreamState::new();
    assert!(matches!(state.on_sc_stream_callback(screen(Some(0))), Some(StreamDelivery::Video { frame_id: 0 })));
    assert!(matches!(state.on_sc_stream_callback(screen(Some(0))), Some(StreamDelivery::Video { frame_id: 1 })));
    assert!(matches!(state.on_sc_stream_callback(screen(Some(1))), Some(StreamDelivery::Idle)));
    assert!(matches!(state.on_sc_stream_callback(screen(Some(3))), Some(StreamDelivery::Idle)));
    assert!(state.on_sc_stream_callback(screen(Some(2))).is_none());
    assert!(state.on_sc_stream_callback(screen(Some(4))).is_none());
    assert!(state.on_sc_stream_callback(screen(Some(99))).is_none());
    assert!(state.on_sc_stream_callback(screen(None)).is_none());
    let audio = SCStreamCallback::Output { output_type: SCStreamOutputType::Audio, frame_status: None };
    assert!(state.on_sc_stream_callback(audio).is_none());
    assert_eq!(state.audio_frame_id_counter, 1);
    let copy_failed = state.on_sc_stream_callback(SCStreamCallback::Failure(SCStreamCallbackError::SampleBufferCopyFailed));
    assert!(matches!(copy_failed, Some(StreamDelivery::Error(StreamError::Other(m))) if m == "Failed to copy sample buffer"));
    let other = state.on_sc_stream_callback(SCStreamCallback::Failure(SCStreamCallbackError::Other {
        description: "d".to_string(),
        reason: "r".to_string(),
        code: -5,
        domain: "dom".to_string(),
    }));
    assert!(matches!(other, Some(StreamDelivery::Error(StreamError::Other(m)))
        if m == "Internal stream failure: [description: d, reason: r, code: -5, domain: dom]"));
}

#[test]
fn end_is_delivered_once_on_macos() {
    let mut state = MacosStreamState::new();
    assert!(matches!(state.on_sc_stream_callback(screen(Some(5))), Some(StreamDelivery::End)));
    assert!(state.stopped);
    assert!(state.on_sc_stream_callback(screen(Some(5))).is_none());
    assert!(state.on_sc_stream_callback(SCStreamCallback::Failure(SCStreamCallbackError::StreamStopped)).is_none());
    assert!(state.on_sc_stream_callback(screen(Some(0))).is_none());
    assert!(state.on_sc_stream_callback(screen(Some(1))).is_none());
    assert!(state.on_display_stream_frame(CGDisplayStreamFrameStatus::Stopped).is_none());
    let (delivery, stop_backend) = state.stop();
    assert!(delivery.is_none());
    assert!(!stop_backend);

    let mut other = MacosStreamState::new();
    assert!(matches!(other.on_sc_stream_callback(SCStreamCallback::Failure(SCStreamCallbackError::StreamStopped)), Some(StreamDelivery::End)));
    assert!(other.on_sc_stream_callback(SCStreamCallback::Failure(SCStreamCallbackError::StreamStopped)).is_none());
}

#[test]
fn display_stream_frames() {
    let mut state = MacosStreamState::new();
    assert!(matches!(state.on_display_stream_frame(CGDisplayStreamFrameStatus::Complete), Some(StreamDelivery::Video { frame_id: 0 })));
    assert!(matches!(state.on_display_stream_frame(CGDisplayStreamFrameStatus::Idle), Some(StreamDelivery::Idle)));
    assert!(state.on_display_stream_frame(CGDisplayStreamFrameStatus::Blank).is_none());
    let (delivery, stop_backend) = state.stop();
    assert!(matches!(delivery, Some(StreamDelivery::End)));
    assert!(stop_backend);
    // a frame completing after the stop still takes an id, but is not delivered
    assert!(state.on_display_stream_frame(CGDisplayStreamFrameStatus::Complete).is_none());
    assert_eq!(state.video_frame_id_counter, 2);
}

#[test]
fn stream_settings_of_configs() {
    assert_eq!(stream_pixel_format(CapturePixelFormat::Bgra8888), (SCStreamPixelFormat::BGRA8888, false));
    assert_eq!(stream_pixel_format(CapturePixelFormat::Argb2101010), (SCStreamPixelFormat::L10R, false));
    assert_eq!(stream_pixel_format(CapturePixelFormat::V420), (SCStreamPixelFormat::V420, true));
    assert_eq!(stream_pixel_format(CapturePixelFormat::F420), (SCStreamPixelFormat::F420, true));
    assert_eq!(SCStreamPixelFormat::try_from_capture_pixel_format(CapturePixelFormat::Argb2101010).unwrap(), SCStreamPixelFormat::L10R);

    let mut config = CaptureConfig::with_display(CapturableDisplay { display_id: 1 }, CapturePixelFormat::F420)
        .with_buffer_count(5)
        .with_show_cursor(true)
        .with_scale_to_fit(false);
    let mut audio = AudioCaptureConfig::new().set_exclude_current_process_audio(true);
    audio.channel_count = AudioChannelCount::Stereo;
    audio.sample_rate = AudioSampleRate::Hz48000;
    config.capture_audio = Some(audio);
    let settings = sc_stream_settings(&config);
    assert_eq!(settings.pixel_format, SCStreamPixelFormat::F420);
    assert_eq!(settings.color_matrix, Some(SCStreamColorMatrix::ItuR709_2));
    assert!(!settings.scales_to_fit);
    assert_eq!(settings.queue_depth, 5);
    assert!(settings.show_cursor);
    let audio_settings = settings.audio.unwrap();
    assert_eq!(audio_settings.channel_count, 2);
    assert!(audio_settings.exclude_current_process_audio);
    assert_eq!(audio_settings.sample_rate, SCStreamSampleRate::R48000);
    assert_eq!(audio_settings.sample_rate.to_isize(), 48000);

    let plain = sc_stream_settings(&CaptureConfig::with_display(CapturableDisplay { display_id: 1 }, CapturePixelFormat::Bgra8888));
    assert_eq!(plain.color_matrix, None);
    assert!(plain.audio.is_none());
    assert_eq!(plain.queue_depth, 3);
}

#[test]
fn display_streams_queue_buffers_and_show_the_cursor_as_asked() {
    let config = CaptureConfig::with_display(CapturableDisplay { display_id: 1 }, CapturePixelFormat::V420)
        .with_buffer_count(7)
        .with_show_cursor(true);
    assert_eq!(display_stream_settings(&config),
        DisplayStreamSettings { pixel_format: SCStreamPixelFormat::V420, queue_depth: 7, show_cursor: true });
    let plain = CaptureConfig::with_display(CapturableDisplay { display_id: 1 }, CapturePixelFormat::Argb2101010);
    assert_eq!(display_stream_settings(&plain),
        DisplayStreamSettings { pixel_format: SCStreamPixelFormat::L10R, queue_depth: 3, show_cursor: false });
}

#[test]
fn display_stream_clock_measures_from_the_first_frame() {
    let mut clock = DisplayStreamClock::new();
    assert_eq!(clock.frame_time_nanos(1000, 125, 3), 0);
    assert_eq!(clock.start, Some(1000));
    assert_eq!(clock.frame_time_nanos(1024, 125, 3), 1000);
    assert_eq!(clock.frame_time_nanos(500, 125, 3), 0);
    assert_eq!(clock.frame_time_nanos(u64::MAX, 1, 1), u64::MAX - 1000);
}

#[test]
fn system_encodings() {
    assert_eq!(SCStreamOutputType::from_encoded(1), Some(SCStreamOutputType::Audio));
    assert_eq!(SCStreamOutputType::from_encoded(2), None);
    assert_eq!(SCStreamOutputType::Screen.to_encoded(), 0);
    assert_eq!(SCFrameStatus::from_i32(3), Some(SCFrameStatus::Suspended));
    assert_eq!(SCFrameStatus::from_i32(6), None);
    assert_eq!(CGDisplayStreamFrameStatus::from_i32(2), Some(CGDisplayStreamFrameStatus::Blank));
    assert_eq!(CGDisplayStreamFrameStatus::from_i32(-1), None);
    let bgra = SCStreamPixelFormat::BGRA8888.to_ostype();
    assert_eq!(bgra.0, *b"ARGB");
    assert_eq!(bgra.as_u32(), 0x42475241);
    assert_eq!(CVPixelFormat::from_ostype(&bgra), Some(CVPixelFormat::BGRA8888));
    assert_eq!(CVPixelFormat::from_ostype(&SCStreamPixelFormat::V420.to_ostype()), Some(CVPixelFormat::V420));
    assert_eq!(CVPixelFormat::from_ostype(&SCStreamPixelFormat::F420.to_ostype()), Some(CVPixelFormat::F420));
    assert_eq!(CVPixelFormat::from_ostype(&SCStreamPixelFormat::L10R.to_ostype()), None);
    assert_eq!(OSType([0xff, 0xff, 0xff, 0xff]).as_i32(), -1);
    assert_eq!(CMMediaType::from_ostype(OSType(*b"vide")), Some(CMMediaType::Video));
    assert_eq!(CMMediaType::from_ostype(OSType(*b"soun")), Some(CMMediaType::Audio));
    assert_eq!(CMMediaType::from_ostype(OSType(*b"text")), None);
    assert_eq!(CFNumberType::from_i32(CFNumberType::I32.to_isize() as i32), Some(CFNumberType::I32));
    assert_eq!(SCShareableContentStyle::Display.value(), 2);
    assert_eq!(SCShareableContentStyle::NoStyle.value(), 0);
}

#[test]
fn cmtime_flags_read_bit_zero() {
    let valid = CMTime { value: 1, scale: 60, flags: 1, epoch: 0 };
    assert!(valid.is_valid());
    assert!(!valid.is_invalid());
    assert!(valid.is_indefinite());
    assert!(valid.is_positive_infinity());
    assert!(!valid.is_numeric());
    let zero = CMTime { value: 1, scale: 60, flags: 0, epoch: 0 };
    assert!(zero.is_invalid());
    assert!(!zero.is_numeric());
}

#[test]
fn bitmap_info_words() {
    let info = CGBitmapInfo::from_raw(0x2002);
    assert_eq!(info.alpha, Some(CGBitmapAlphaInfo::PremultipliedFirst));
    assert_eq!(info.byte_order, CGBitmapByteOrder::B32Little);
    assert!(!info.float);
    let info = CGBitmapInfo::from_raw(0x0107);
    assert_eq!(info.alpha, None);
    assert!(info.float);
    assert_eq!(CGImagePixelFormat::from_raw(0x30000), CGImagePixelFormat::Rgb101010);
    assert_eq!(CGImagePixelFormat::from_raw(0x40000), CGImagePixelFormat::Packed);
}

#[test]
fn macos_frame_layouts() {
    let sc = MacosFrameSurface::SCStream { has_image_buffer: true, has_iosurface: true };
    assert!(matches!(macos_bitmap_layout(sc, true, Some(CVPixelFormat::BGRA8888), true), Ok(FrameLayout::Bgra8888)));
    assert!(matches!(macos_bitmap_layout(MacosFrameSurface::CGDisplayStream, true, Some(CVPixelFormat::V420), true), Ok(FrameLayout::V420)));
    assert!(matches!(macos_bitmap_layout(sc, true, Some(CVPixelFormat::F420), true), Ok(FrameLayout::F420)));
    let no_surface = MacosFrameSurface::SCStream { has_image_buffer: true, has_iosurface: false };
    assert!(matches!(macos_bitmap_layout(no_surface, true, None, true), Err(VideoFrameBitmapError::Other(m)) if m == "Failed to get iosurface"));
    assert!(matches!(macos_bitmap_layout(sc, false, None, true), Err(VideoFrameBitmapError::Other(m)) if m == "Failed to lock iosurface"));
    assert!(matches!(macos_bitmap_layout(sc, true, Some(CVPixelFormat::RGBA8888), false), Err(VideoFrameBitmapError::Other(m)) if m == "Unknown pixel format on iosurface"));
    assert!(matches!(macos_bitmap_layout(sc, true, Some(CVPixelFormat::V420), false), Err(VideoFrameBitmapError::Other(m)) if m == "Failed to get base address of iosurface"));
}

#[test]
fn macos_audio_steps() {
    assert_eq!(macos_audio_channel_count(1), AudioChannelCount::Mono);
    assert_eq!(macos_audio_channel_count(2), AudioChannelCount::Stereo);
    assert_eq!(macos_audio_channel_count(0), AudioChannelCount::Stereo);
    assert!(matches!(macos_audio_buffer_source(true, 0), Ok(MacosAudioBufferSource::Existing)));
    assert!(matches!(macos_audio_buffer_source(false, K_AUDIO_FORMAT_FLAGS_CANONICAL), Ok(MacosAudioBufferSource::Build)));
    assert!(matches!(macos_audio_buffer_source(false, 12), Err(AudioBufferError::UnsupportedFormat)));
    assert!(matches!(macos_built_pcm_buffer(false, true), Err(AudioBufferError::Other(m)) if m == "CMSampleBuffer::get_audio_buffer_list_with_block_buffer() failed"));
    assert!(matches!(macos_built_pcm_buffer(true, false), Err(AudioBufferError::Other(m)) if m == "Failed to build PCM audio buffer"));
    assert!(macos_built_pcm_buffer(true, true).is_ok());
    assert!(matches!(macos_audio_channel_check(2, 2, true), Err(AudioBufferError::InvalidChannel)));
    assert!(macos_audio_channel_check(1, 2, true).is_ok());
    assert!(matches!(macos_audio_channel_check(0, 2, false), Err(AudioBufferError::Other(m)) if m == "Failed to get audio buffer"));
}

#[test]
fn window_ids_and_time_order() {
    assert_eq!(CGWindowID(77).raw(), 77);
    assert_eq!(cmtime_order(-1), Some(Ordering::Less));
    assert_eq!(cmtime_order(0), Some(Ordering::Equal));
    assert_eq!(cmtime_order(1), Some(Ordering::Greater));
    assert_eq!(cmtime_order(2), None);
}
