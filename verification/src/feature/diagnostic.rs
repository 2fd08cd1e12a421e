use vstd::prelude::*;
use vstd::string::*;

use crate::platform::windows::capture_stream::DirectXPixelFormat;
use crate::platform::windows::frame::WindowsVideoFrame;

verus! {

/// A component of a plane of an IOSurface
#[derive(Debug, Clone)]
pub struct FrameIOSurfaceComponentInfo {
    pub name: String,
    pub data_type: String,
    pub bit_depth: usize,
    pub bit_offset: usize,
}

/// A plane of an IOSurface
#[derive(Debug, Clone)]
pub struct FrameIOSurfacePlaneInfo {
    pub width: usize,
    pub height: usize,
    pub bytes_per_row: usize,
    pub components: Vec<FrameIOSurfaceComponentInfo>,
}

/// An IOSurface and its planes
#[derive(Debug, Clone)]
pub struct FrameIOSurfaceInfo {
    pub pixel_format: String,
    pub width: usize,
    pub height: usize,
    pub bytes_per_row: usize,
    pub planes: Vec<FrameIOSurfacePlaneInfo>,
}

/// The DX11 surface of a Windows frame
#[derive(Debug, Clone)]
pub struct FrameDx11SurfaceInfo {
    pub pixel_format: String,
    pub width: usize,
    pub height: usize,
}

/// Diagnostic information about a capture frame: on Mac OS its IOSurface
/// and the entries of its info dictionary, on Windows its DX11 surface and
/// the feature level of its device
#[derive(Debug, Clone)]
pub struct FrameDiagnostic {
    pub iosurface_info: Option<FrameIOSurfaceInfo>,
    pub info_dictionary: Vec<(String, String)>,
    pub dx11_surface_info: Option<FrameDx11SurfaceInfo>,
    pub dx_feature_level: Option<String>,
}

/// Diagnostic information about a capture stream
#[derive(Debug, Clone)]
pub struct StreamDiagnostic {}

/// The name diagnostics give a DirectX pixel format
pub open spec fn directx_format_name(f: DirectXPixelFormat) -> Seq<char> {
    match f {
        DirectXPixelFormat::B8G8R8A8UIntNormalized => "B8G8R8A8UIntNormalized"@,
        DirectXPixelFormat::R10G10B10A2UIntNormalized => "R10G10B10A2UIntNormalized"@,
        _ => "unknown"@,
    }
}

/// The name diagnostics give a Direct3D feature level
pub open spec fn feature_level_name(level: u32) -> Seq<char> {
    if level == 0xb000 {
        "11_0"@
    } else if level == 0xb100 {
        "11_1"@
    } else if level == 0xc000 {
        "12_0"@
    } else if level == 0xc100 {
        "12_1"@
    } else if level == 0xc200 {
        "12_2"@
    } else if level == 0x1000 {
        "1_0_CORE"@
    } else {
        "unknown"@
    }
}

/// The name of a DirectX pixel format
pub fn directx_format_name_string(f: DirectXPixelFormat) -> (r: String)
    ensures
        r@ == directx_format_name(f),
{
    proof {
        reveal_strlit("B8G8R8A8UIntNormalized");
        reveal_strlit("R10G10B10A2UIntNormalized");
        reveal_strlit("unknown");
    }
    match f {
        DirectXPixelFormat::B8G8R8A8UIntNormalized => String::from_str("B8G8R8A8UIntNormalized"),
        DirectXPixelFormat::R10G10B10A2UIntNormalized => String::from_str("R10G10B10A2UIntNormalized"),
        _ => String::from_str("unknown"),
    }
}

/// The name of a Direct3D feature level
pub fn feature_level_name_string(level: u32) -> (r: String)
    ensures
        r@ == feature_level_name(level),
{
    proof {
        reveal_strlit("11_0");
        reveal_strlit("11_1");
        reveal_strlit("12_0");
        reveal_strlit("12_1");
        reveal_strlit("12_2");
        reveal_strlit("1_0_CORE");
        reveal_strlit("unknown");
    }
    if level == 0xb000 {
        String::from_str("11_0")
    } else if level == 0xb100 {
        String::from_str("11_1")
    } else if level == 0xc000 {
        String::from_str("12_0")
    } else if level == 0xc100 {
        String::from_str("12_1")
    } else if level == 0xc200 {
        String::from_str("12_2")
    } else if level == 0x1000 {
        String::from_str("1_0_CORE")
    } else {
        String::from_str("unknown")
    }
}

/// A frame that supports gathering diagnostic information
pub trait FrameDiagnosticExt {
    fn diagnostic(&self) -> FrameDiagnostic;
}

impl FrameDiagnosticExt for WindowsVideoFrame {
    /// The frame's surface format and size, and its device's feature level
    fn diagnostic(&self) -> (r: FrameDiagnostic)
        ensures
            r.iosurface_info is None,
            r.info_dictionary@.len() == 0,
            r.dx11_surface_info matches Some(info) && {
                &&& info.pixel_format@ == directx_format_name(self.pixel_format)
                &&& info.width == self.frame_size.0
                &&& info.height == self.frame_size.1
            },
            r.dx_feature_level matches Some(level) && level@ == feature_level_name(self.dx_feature_level),
    {
        let (width, height) = self.frame_size;
        FrameDiagnostic {
            iosurface_info: None,
            info_dictionary: Vec::new(),
            dx11_surface_info: Some(FrameDx11SurfaceInfo {
                pixel_format: directx_format_name_string(self.pixel_format),
                width,
                height,
            }),
            dx_feature_level: Some(feature_level_name_string(self.dx_feature_level)),
        }
    }
}

} // verus!
