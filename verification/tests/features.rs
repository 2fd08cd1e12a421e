use crabgrab::capturable_content::{CapturableApplication, CapturableDisplay};
use crabgrab::capture_stream::{CaptureConfig, CapturePixelFormat};
use crabgrab::feature::bitmap::VideoFrameBitmapError;
use crabgrab::capture_stream::{StreamCreateError, StreamError, StreamEvent};
use crabgrab::feature::ash::{AshVideoFrameError, AshVideoFramePlaneTexture};
use crabgrab::feature::content_picker::{
    macos_picker_check, macos_picker_modes, macos_picker_outcome, windows_picker_check, PickerEvent, SharableContentPickerConfig,
    SharableContentPickerError,
};
use crabgrab::feature::diagnostic::{FrameDiagnosticExt, StreamDiagnostic};
use crabgrab::feature::dx11::{dx11_texture_error, Dx11TextureStep, WindowsDx11VideoFrame, WindowsDx11VideoFrameError};
use crabgrab::feature::dxgi::{
    dxgi_surface_error, DxgiSurfaceStep, WindowsDx11CaptureStream, WindowsDxgiCaptureStream, WindowsDxgiCaptureStreamError, WindowsDxgiVideoFrame,
    WindowsDxgiVideoFrameError, WindowsStreamDevices,
};
use crabgrab::feature::iosurface::{
    frame_iosurface, iosurface_lock_options, iosurface_lock_result, GetIoSurfaceError, IOSurfaceLockError,
    KIO_RETURN_CANNOT_LOCK,
};
use crabgrab::feature::metal::{
    metal_plane_texture, metal_texture_made, MacosVideoFrameError, MetalPlaneTexture, MetalTextureFormat,
    MetalVideoFramePlaneTexture,
};
use crabgrab::feature::screenshot::{
    macos_screenshot_build_error, macos_screenshot_capture_result, macos_screenshot_result, screenshot_create_error,
    windows_screenshot_result, MacosScreenshotWaiter, ScreenshotError, WindowsScreenshotWaiter,
};
use crabgrab::feature::wgpu::{
    macos_wgpu_metal_plane, metal_plane, shared_texture_dimension, wgpu_error_of_metal, wgpu_format_of_directx, wgpu_format_of_metal,
    wgpu_usages_of_metal, windows_texture_usages, windows_wgpu_texture_check, MetalPixelFormat, MetalStorageMode,
    MetalTextureType, MetalTextureUsage, TextureUsages, WgpuCaptureConfigExt, WgpuDeviceFailure, WgpuTextureFormat,
    WgpuVideoFrameError, WgpuVideoFramePlaneTexture,
};
use crabgrab::frame::VideoFrame;
use crabgrab::platform::macos::capture_stream::SCStreamCallback;
use crabgrab::platform::macos::frame::MacosFrameSurface;
use crabgrab::platform::macos::objc_wrap::{CVPixelFormat, SCStreamCallbackError, SCStreamOutputType};
use crabgrab::platform::windows::capture_stream::DirectXPixelFormat;
use crabgrab::platform::windows::frame::WindowsVideoFrame;
use std::time::{Duration, Instant};

fn video_frame(frame_id: u64) -> VideoFrame {
    VideoFrame { frame_id, capture_time: Instant::now(), origin_time: Duration::from_millis(1), duration: Duration::from_millis(2) }
}

const SURFACE: (usize, usize) = (64, 32);
const PLANE_HEIGHTS: (usize, usize) = (30, 15);

#[test]
fn metal_planes() {
    let sc = MacosFrameSurface::SCStream { has_image_buffer: true, has_iosurface: true };
    assert_eq!(metal_plane_texture(sc, Some(CVPixelFormat::BGRA8888), MetalVideoFramePlaneTexture::Rgba, SURFACE, PLANE_HEIGHTS).unwrap(),
        MetalPlaneTexture { plane: 0, format: MetalTextureFormat::BGRA8Unorm, width: 64, height: 32 });
    assert!(matches!(metal_plane_texture(sc, Some(CVPixelFormat::BGRA8888), MetalVideoFramePlaneTexture::Chroma, SURFACE, PLANE_HEIGHTS), Err(MacosVideoFrameError::InvalidVideoPlaneTexture)));
    assert_eq!(metal_plane_texture(MacosFrameSurface::CGDisplayStream, Some(CVPixelFormat::V420), MetalVideoFramePlaneTexture::Luminance, SURFACE, PLANE_HEIGHTS).unwrap(),
        MetalPlaneTexture { plane: 0, format: MetalTextureFormat::R8Uint, width: 64, height: 30 });
    assert_eq!(metal_plane_texture(sc, Some(CVPixelFormat::F420), MetalVideoFramePlaneTexture::Chroma, SURFACE, PLANE_HEIGHTS).unwrap(),
        MetalPlaneTexture { plane: 1, format: MetalTextureFormat::RG8Uint, width: 64, height: 15 });
    assert!(matches!(metal_plane_texture(sc, Some(CVPixelFormat::V420), MetalVideoFramePlaneTexture::Rgba, SURFACE, PLANE_HEIGHTS), Err(MacosVideoFrameError::InvalidVideoPlaneTexture)));
    assert!(matches!(metal_plane_texture(MacosFrameSurface::SCStream { has_image_buffer: false, has_iosurface: true }, None, MetalVideoFramePlaneTexture::Rgba, SURFACE, PLANE_HEIGHTS), Err(MacosVideoFrameError::NoImageBuffer)));
    assert!(matches!(metal_plane_texture(MacosFrameSurface::SCStream { has_image_buffer: true, has_iosurface: false }, None, MetalVideoFramePlaneTexture::Rgba, SURFACE, PLANE_HEIGHTS), Err(MacosVideoFrameError::NoIoSurface)));
    assert!(matches!(metal_plane_texture(sc, None, MetalVideoFramePlaneTexture::Rgba, SURFACE, PLANE_HEIGHTS), Err(MacosVideoFrameError::Other(m)) if m == "Unable to get pixel format from iosurface"));
    assert!(matches!(metal_plane_texture(sc, Some(CVPixelFormat::RGB888), MetalVideoFramePlaneTexture::Rgba, SURFACE, PLANE_HEIGHTS), Err(MacosVideoFrameError::Other(m)) if m == "Unknown pixel format on iosurface"));
    assert!(metal_texture_made(true).is_ok());
    assert!(matches!(metal_texture_made(false), Err(MacosVideoFrameError::Other(m)) if m == "Failed to create metal texture"));
    assert_eq!(MacosVideoFrameError::NoIoSurface.to_display_string(), "MacosVideoFrameError::NoIoSurface");
    assert_eq!(MacosVideoFrameError::Other("e".to_string()).to_display_string(), "MacosVideoFrameError::Other(\"e\")");
}

#[test]
fn wgpu_mappings() {
    assert_eq!(metal_plane(WgpuVideoFramePlaneTexture::Chroma), MetalVideoFramePlaneTexture::Chroma);
    assert!(matches!(macos_wgpu_metal_plane(WgpuVideoFramePlaneTexture::Luminance, false), Err(WgpuVideoFrameError::NoWgpuDevice)));
    assert!(matches!(macos_wgpu_metal_plane(WgpuVideoFramePlaneTexture::Rgba, false), Err(WgpuVideoFrameError::NoWgpuDevice)));
    assert_eq!(macos_wgpu_metal_plane(WgpuVideoFramePlaneTexture::Luminance, true).ok(), Some(MetalVideoFramePlaneTexture::Luminance));
    assert_eq!(macos_wgpu_metal_plane(WgpuVideoFramePlaneTexture::Rgba, true).ok(), Some(MetalVideoFramePlaneTexture::Rgba));
    assert!(matches!(wgpu_error_of_metal(MacosVideoFrameError::NoImageBuffer), WgpuVideoFrameError::NoBackendTexture));
    assert!(matches!(wgpu_error_of_metal(MacosVideoFrameError::NoIoSurface), WgpuVideoFrameError::NoBackendTexture));
    assert!(matches!(wgpu_error_of_metal(MacosVideoFrameError::InvalidVideoPlaneTexture), WgpuVideoFrameError::InvalidVideoPlaneTexture));
    assert!(matches!(wgpu_error_of_metal(MacosVideoFrameError::Other("x".to_string())), WgpuVideoFrameError::Other(m) if m == "x"));
    assert_eq!(wgpu_format_of_metal(MetalPixelFormat::BGRA8Unorm), Some(WgpuTextureFormat::Bgra8Unorm));
    // an unsigned two-channel texture is shared as signed-normalized
    assert_eq!(wgpu_format_of_metal(MetalPixelFormat::RG8Uint), Some(WgpuTextureFormat::Rg8Snorm));
    assert_eq!(wgpu_format_of_metal(MetalPixelFormat::Unsupported), None);
    assert!(shared_texture_dimension(MetalTextureType::D2Multisample).is_ok());
    assert!(matches!(shared_texture_dimension(MetalTextureType::D3), Err(WgpuVideoFrameError::Other(m)) if m == "Unsupported metal texture type"));
    let usages = wgpu_usages_of_metal(MetalTextureUsage { shader_read: true, shader_write: false, render_target: false }, MetalStorageMode::Memoryless);
    assert_eq!(usages, TextureUsages { copy_src: false, copy_dst: false, texture_binding: true, storage_binding: true, render_attachment: false });
    let usages = wgpu_usages_of_metal(MetalTextureUsage { shader_read: false, shader_write: false, render_target: true }, MetalStorageMode::Shared);
    assert_eq!(usages, TextureUsages { copy_src: true, copy_dst: true, texture_binding: false, storage_binding: false, render_attachment: true });
    assert_eq!(wgpu_format_of_directx(DirectXPixelFormat::R10G10B10A2Typeless).unwrap(), WgpuTextureFormat::Rgb10a2Uint);
    assert_eq!(wgpu_format_of_directx(DirectXPixelFormat::B8G8R8A8UIntNormalizedSrgb).unwrap(), WgpuTextureFormat::Bgra8UnormSrgb);
    assert!(matches!(wgpu_format_of_directx(DirectXPixelFormat::Unknown), Err(WgpuVideoFrameError::Other(m)) if m == "Unsupported DirectXPixelFormat"));
    assert!(matches!(windows_wgpu_texture_check(WgpuVideoFramePlaneTexture::Luminance, true), Err(WgpuVideoFrameError::InvalidVideoPlaneTexture)));
    assert!(matches!(windows_wgpu_texture_check(WgpuVideoFramePlaneTexture::Rgba, false), Err(WgpuVideoFrameError::NoWgpuDevice)));
    assert!(windows_wgpu_texture_check(WgpuVideoFramePlaneTexture::Rgba, true).is_ok());
    assert_eq!(windows_texture_usages(true, false), TextureUsages { copy_src: true, copy_dst: false, texture_binding: true, storage_binding: false, render_attachment: true });
    assert_eq!(WgpuVideoFrameError::NoWgpuDevice.to_display_string(), "WgpuVideoFrameError::NoWgpuDevice");
    assert_eq!(WgpuVideoFrameError::Other("o".to_string()).to_display_string(), "WgpuVideoFrameError::Other(\"o\")");
}

#[test]
fn iosurfaces() {
    assert_eq!(frame_iosurface(MacosFrameSurface::CGDisplayStream), Ok(()));
    assert_eq!(frame_iosurface(MacosFrameSurface::SCStream { has_image_buffer: false, has_iosurface: false }), Err(GetIoSurfaceError::NoImageBuffer));
    assert_eq!(frame_iosurface(MacosFrameSurface::SCStream { has_image_buffer: true, has_iosurface: false }), Err(GetIoSurfaceError::NoIoSurface));
    assert_eq!(GetIoSurfaceError::NoIoSurface.to_display_string(), "GetIoSurfaceError::NoIoSurface");
    assert_eq!(iosurface_lock_options(true, false), 1);
    assert_eq!(iosurface_lock_options(true, true), 3);
    assert_eq!(iosurface_lock_options(false, false), 0);
    assert_eq!(KIO_RETURN_CANNOT_LOCK, ((0x38 << 26) | 0x2cc) as i32);
    assert_eq!(iosurface_lock_result(0), Ok(()));
    assert_eq!(iosurface_lock_result(KIO_RETURN_CANNOT_LOCK), Err(IOSurfaceLockError::CannotLock));
    assert_eq!(iosurface_lock_result(-1), Err(IOSurfaceLockError::Other));
}

#[test]
fn windows_surface_errors() {
    assert!(matches!(dxgi_surface_error(DxgiSurfaceStep::FrameSurface, "e"), WindowsDxgiVideoFrameError::Other(m) if m == "Failed to get frame surface: e"));
    assert!(matches!(dxgi_surface_error(DxgiSurfaceStep::DxgiSurface, "e"), WindowsDxgiVideoFrameError::Other(m) if m == "Failed to cast ID3D11Texture2D to IDXGISurface: e"));
    assert_eq!(WindowsDxgiVideoFrameError::Other("q".to_string()).to_display_string(), "WindowsDxgiVideoFrameError::Other(\"q\")");
    let devices = WindowsStreamDevices::with_adapter(5, 6, 7);
    assert_eq!(devices.get_dxgi_adapter().unwrap(), 5);
    assert_eq!(devices.get_dxgi_device(), 6);
    assert_eq!(devices.get_dx11_device(), 7);
    assert_eq!(WindowsStreamDevices::with_device(Ok(8), 6, 7).get_dxgi_adapter().unwrap(), 8);
    let no_adapter = WindowsStreamDevices::with_device(Err("no interface".to_string()), 6, 7);
    assert!(matches!(no_adapter.get_dxgi_adapter(), Err(WindowsDxgiCaptureStreamError::NoAdapter(m))
        if m == "Failed to create IDXGIAdapter from ID3D11Device: no interface"));
    assert_eq!(WindowsDxgiCaptureStreamError::NoAdapter("n".to_string()).to_display_string(), "WindowsDxgiCaptureStreamError::NoAdapter(\"n\")");
    assert!(matches!(dx11_texture_error(Dx11TextureStep::Texture, "e"), WindowsDx11VideoFrameError::Other(m) if m == "Failed to get ID3D11Texture interface e"));
    assert_eq!(WindowsDx11VideoFrameError::Other("d".to_string()).to_display_string(), "WindowsDx11VideoFrameError::Other(\"d\")");
    assert_eq!(AshVideoFrameError::Other("a".to_string()).to_display_string(), "AshVideoFrameError::Other(\"a\")");
    assert_ne!(AshVideoFramePlaneTexture::Rgba, AshVideoFramePlaneTexture::Chroma);
}

#[test]
fn windows_screenshots_take_the_first_frame_or_error() {
    let mut waiter = WindowsScreenshotWaiter::new();
    assert!(waiter.on_event(Ok(StreamEvent::Idle)).is_none());
    let first = waiter.on_event(Ok(StreamEvent::Video(video_frame(4)))).unwrap().unwrap();
    assert_eq!(first.frame_id(), 4);
    assert!(waiter.on_event(Ok(StreamEvent::Video(video_frame(5)))).is_none());
    assert!(waiter.on_event(Err(StreamError::Other("late".to_string()))).is_none());

    let mut failing = WindowsScreenshotWaiter::new();
    assert!(matches!(failing.on_event(Err(StreamError::Other("bad".to_string()))), Some(Err(StreamError::Other(m))) if m == "bad"));

    assert_eq!(windows_screenshot_result(Some(Ok(video_frame(9)))).unwrap().frame_id(), 9);
    assert!(matches!(windows_screenshot_result(None), Err(ScreenshotError::Other(m)) if m == "Failed to wait for result from callback"));
    assert!(matches!(windows_screenshot_result(Some(Err(StreamError::Other("x".to_string())))),
        Err(ScreenshotError::Other(m)) if m == "Capture failed: StreamError::Other(\"x\")"));
    assert!(matches!(screenshot_create_error(&StreamCreateError::UnsupportedPixelFormat),
        ScreenshotError::Other(m) if m == "Failed to create capture stream: StreamCreateError::UnsupportedPixelFormat"));
    assert_eq!(ScreenshotError::Other("m".to_string()).to_display_string(), "ScreenshotError::Other(m)");
}

#[test]
fn macos_screenshots_take_the_first_sample_or_failure() {
    let mut waiter = MacosScreenshotWaiter::new();
    let audio = SCStreamCallback::Output { output_type: SCStreamOutputType::Audio, frame_status: None };
    assert!(waiter.on_stream_callback(audio).is_none());
    assert!(!waiter.sent);
    let stopped = waiter.on_stream_callback(SCStreamCallback::Failure(SCStreamCallbackError::StreamStopped));
    assert!(matches!(stopped, Some(Err(ScreenshotError::Other(m))) if m == "Failed to capture screenshot: Stream stopped early"));
    let screen = SCStreamCallback::Output { output_type: SCStreamOutputType::Screen, frame_status: Some(0) };
    assert!(waiter.on_stream_callback(screen).is_none());

    let mut other = MacosScreenshotWaiter::new();
    let screen = SCStreamCallback::Output { output_type: SCStreamOutputType::Screen, frame_status: None };
    assert!(matches!(other.on_stream_callback(screen), Some(Ok(()))));

    let mut failing = MacosScreenshotWaiter::new();
    let failure = SCStreamCallback::Failure(SCStreamCallbackError::Other { description: "denied".to_string(), reason: String::new(), code: 1, domain: String::new() });
    assert!(matches!(failing.on_stream_callback(failure), Some(Err(ScreenshotError::Other(m))) if m == "Failed to capture screenshot: denied"));

    assert!(macos_screenshot_capture_result(Ok(())).is_ok());
    assert!(matches!(macos_screenshot_capture_result(Err("nope".to_string())), Err(ScreenshotError::Other(m)) if m == "Failed to capture screenshot: nope"));
    assert!(matches!(macos_screenshot_build_error("oops"), ScreenshotError::Other(m) if m == "Failed to build SCStream: oops"));
    assert!(matches!(macos_screenshot_result(None), Err(ScreenshotError::Other(m)) if m == "Failed to await callback future"));
    assert_eq!(macos_screenshot_result(Some(Ok(video_frame(1)))).unwrap().frame_id(), 1);
}

#[test]
fn windows_frame_diagnostics() {
    let frame = WindowsVideoFrame {
        frame_size: (640, 480),
        pixel_format: DirectXPixelFormat::R10G10B10A2UIntNormalized,
        frame_id: 1,
        dpi: 96,
        dx_feature_level: 0xc100,
        t_capture: Instant::now(),
        t_origin: Duration::from_millis(5),
        duration: Duration::from_millis(6),
    };
    let diagnostic = frame.diagnostic();
    let info = diagnostic.dx11_surface_info.unwrap();
    assert_eq!(info.pixel_format, "R10G10B10A2UIntNormalized");
    assert_eq!((info.width, info.height), (640, 480));
    assert_eq!(diagnostic.dx_feature_level.unwrap(), "12_1");
    assert!(diagnostic.iosurface_info.is_none());
    let other = WindowsVideoFrame { pixel_format: DirectXPixelFormat::R16G16B16A16Float, dx_feature_level: 0x9100, ..frame };
    let diagnostic = other.diagnostic();
    assert_eq!(diagnostic.dx11_surface_info.unwrap().pixel_format, "unknown");
    assert_eq!(diagnostic.dx_feature_level.unwrap(), "unknown");
    assert_eq!(other.frame_id(), 1);
    assert_eq!(other.origin_time(), Duration::from_millis(5));
    let _ = StreamDiagnostic {};
}

#[test]
fn content_picker_decisions() {
    let config = SharableContentPickerConfig::default();
    assert!(config.display && config.window && config.excluded_apps.is_empty());
    assert_eq!(macos_picker_modes(&config), 17);
    assert_eq!(macos_picker_modes(&SharableContentPickerConfig { display: false, window: true, excluded_apps: vec![] }), 1);
    assert_eq!(macos_picker_modes(&SharableContentPickerConfig { display: true, window: false, excluded_apps: vec![] }), 16);
    assert!(windows_picker_check(&config).is_ok());
    let excluding = SharableContentPickerConfig {
        display: true,
        window: true,
        excluded_apps: vec![CapturableApplication { identifier: "a".to_string(), name: "A".to_string(), pid: 1 }],
    };
    assert!(matches!(windows_picker_check(&excluding), Err(SharableContentPickerError::ConfigFilteringUnsupported)));
    let empty = SharableContentPickerConfig { display: false, window: false, excluded_apps: vec![] };
    assert!(matches!(windows_picker_check(&empty), Err(SharableContentPickerError::EmptyConfig)));
    assert!(matches!(macos_picker_check(&empty), Err(SharableContentPickerError::EmptyConfig)));
    assert!(macos_picker_check(&SharableContentPickerConfig { display: false, window: true, excluded_apps: vec![] }).is_ok());
    assert!(matches!(windows_picker_check(&SharableContentPickerConfig { display: false, window: true, excluded_apps: vec![] }),
        Err(SharableContentPickerError::ConfigFilteringUnsupported)));
    assert!(matches!(macos_picker_outcome(Some(Ok(PickerEvent::Cancelled))), Ok(None)));
    assert!(matches!(macos_picker_outcome(None), Err(SharableContentPickerError::Other(m)) if m == "Failed to receive event from future"));
    assert!(matches!(macos_picker_outcome(Some(Err("denied".to_string()))),
        Err(SharableContentPickerError::Other(m)) if m == "Failed to receive sharable content from picker: denied"));
}

#[test]
fn windows_frame_surfaces() {
    let frame = WindowsVideoFrame {
        frame_size: (4, 4),
        pixel_format: DirectXPixelFormat::B8G8R8A8UIntNormalized,
        frame_id: 2,
        dpi: 96,
        dx_feature_level: 0xb000,
        t_capture: Instant::now(),
        t_origin: Duration::from_millis(0),
        duration: Duration::from_millis(0),
    };
    assert_eq!(frame.get_dx11_surface(Ok(77)).unwrap(), (77, DirectXPixelFormat::B8G8R8A8UIntNormalized));
    assert!(matches!(frame.get_dx11_surface(Err("closed".to_string())),
        Err(WindowsDx11VideoFrameError::Other(m)) if m == "Failed to get frame surface: closed"));
    assert_eq!(frame.get_dx11_texture(Ok(78)).unwrap().0, 78);
    assert!(matches!(frame.get_dx11_texture(Err((Dx11TextureStep::InterfaceAccess, "E".to_string()))),
        Err(WindowsDx11VideoFrameError::Other(m)) if m == "Failed to cast surface to dxgi interface access: E"));
    assert_eq!(frame.get_dxgi_surface(Ok(79)).unwrap(), (79, DirectXPixelFormat::B8G8R8A8UIntNormalized));
    assert!(matches!(frame.get_dxgi_surface(Err((DxgiSurfaceStep::Texture, "E".to_string()))),
        Err(WindowsDxgiVideoFrameError::Other(m))
            if m == "Failed to get ID3D11Texture2D interface from to IDirect3DSurface(IDirect3DDxgiInterfaceAccess): E"));
}

#[test]
fn wgpu_devices_in_configs() {
    let config = CaptureConfig::with_display(CapturableDisplay { display_id: 3 }, CapturePixelFormat::Bgra8888).with_buffer_count(4);
    let with_devices = config.with_wgpu_device(Ok((11, 12))).unwrap();
    assert_eq!(with_devices.impl_capture_config.windows.dxgi_adapter, Some(11));
    assert_eq!(with_devices.impl_capture_config.windows.d3d11_device, Some(12));
    assert_eq!(with_devices.buffer_count, 4);
    let config = CaptureConfig::with_display(CapturableDisplay { display_id: 3 }, CapturePixelFormat::Bgra8888);
    assert_eq!(config.clone().with_wgpu_device(Err(WgpuDeviceFailure::NotDx12)).err().unwrap(), "Unimplemented for this wgpu backend");
    assert_eq!(config.clone().with_wgpu_device(Err(WgpuDeviceFailure::DxgiFactory("E1".to_string()))).err().unwrap(), "Failed to create dxgi factory: E1");
    assert_eq!(config.clone().with_wgpu_device(Err(WgpuDeviceFailure::AdapterLookup("E2".to_string()))).err().unwrap(),
        "Failed to find matching dxgi adapter for wgpu device: E2");
    assert_eq!(config.with_wgpu_device(Err(WgpuDeviceFailure::D3d11Device("E3".to_string()))).err().unwrap(),
        "Failed to create d3d11 device from dxgi adapter: E3");
}

#[test]
fn bitmap_error_display() {
    assert_eq!(VideoFrameBitmapError::Other("x".to_string()).to_display_string(), "VideoFrameBitmapError::Other(\"x\")");
}
