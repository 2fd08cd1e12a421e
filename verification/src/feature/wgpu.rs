use vstd::prelude::*;
use vstd::string::*;

use crate::feature::metal::{MacosVideoFrameError, MetalVideoFramePlaneTexture};
use crate::platform::windows::capture_stream::DirectXPixelFormat;

verus! {

/// Identifies planes of a video frame
#[derive(Copy, Clone, Debug, PartialEq, Eq, Structural)]
pub enum WgpuVideoFramePlaneTexture {
    /// The single RGBA plane for an RGBA format frame
    Rgba,
    /// The Luminance (Y, brightness) plane for a YCbCr format frame
    Luminance,
    /// The Chrominance (CbCr, Blue/Red) plane for a YCbCr format frame
    Chroma,
}

/// Represents an error getting the texture from a video frame
#[derive(Clone, Debug)]
pub enum WgpuVideoFrameError {
    /// the backend texture couldn't be fetched
    NoBackendTexture,
    /// The requested plane isn't valid for this frame
    InvalidVideoPlaneTexture,
    /// No Wgpu device was supplied to the capture stream
    NoWgpuDevice,
    Other(String),
}

impl WgpuVideoFrameError {
    /// The display text of the error
    pub fn to_display_string(&self) -> (r: String)
        ensures
            match self {
                WgpuVideoFrameError::NoBackendTexture => r@ == "WgpuVideoFrameError::NoBackendTexture"@,
                WgpuVideoFrameError::InvalidVideoPlaneTexture => r@ == "WgpuVideoFrameError::InvalidVideoPlaneTexture"@,
                WgpuVideoFrameError::NoWgpuDevice => r@ == "WgpuVideoFrameError::NoWgpuDevice"@,
                WgpuVideoFrameError::Other(m) => r@ == "WgpuVideoFrameError::Other(\""@ + m@ + "\")"@,
            },
    {
        match self {
            WgpuVideoFrameError::NoBackendTexture => String::from_str("WgpuVideoFrameError::NoBackendTexture"),
            WgpuVideoFrameError::InvalidVideoPlaneTexture => String::from_str("WgpuVideoFrameError::InvalidVideoPlaneTexture"),
            WgpuVideoFrameError::NoWgpuDevice => String::from_str("WgpuVideoFrameError::NoWgpuDevice"),
            WgpuVideoFrameError::Other(m) => String::from_str("WgpuVideoFrameError::Other(\"").concat(m.as_str()).concat("\")"),
        }
    }
}

/// The Metal plane of a Wgpu plane
pub fn metal_plane(plane: WgpuVideoFramePlaneTexture) -> (r: MetalVideoFramePlaneTexture)
    ensures
        plane == WgpuVideoFramePlaneTexture::Rgba ==> r == MetalVideoFramePlaneTexture::Rgba,
        plane == WgpuVideoFramePlaneTexture::Luminance ==> r == MetalVideoFramePlaneTexture::Luminance,
        plane == WgpuVideoFramePlaneTexture::Chroma ==> r == MetalVideoFramePlaneTexture::Chroma,
{
    match plane {
        WgpuVideoFramePlaneTexture::Rgba => MetalVideoFramePlaneTexture::Rgba,
        WgpuVideoFramePlaneTexture::Chroma => MetalVideoFramePlaneTexture::Chroma,
        WgpuVideoFramePlaneTexture::Luminance => MetalVideoFramePlaneTexture::Luminance,
    }
}

/// The first step of making a Wgpu texture of a Mac OS frame: a frame of a
/// stream without a Wgpu device has none, whatever the plane; otherwise the
/// texture is made from the Metal texture of the matching plane.
pub fn macos_wgpu_metal_plane(plane: WgpuVideoFramePlaneTexture, has_wgpu_device: bool) -> (r: Result<MetalVideoFramePlaneTexture, WgpuVideoFrameError>)
    ensures
        !has_wgpu_device ==> r matches Err(WgpuVideoFrameError::NoWgpuDevice),
        has_wgpu_device ==> (r matches Ok(p) && p == metal_plane_spec(plane)),
{
    if !has_wgpu_device {
        return Err(WgpuVideoFrameError::NoWgpuDevice);
    }
    Ok(metal_plane(plane))
}

/// The Metal plane that stands for a Wgpu plane
pub open spec fn metal_plane_spec(plane: WgpuVideoFramePlaneTexture) -> MetalVideoFramePlaneTexture {
    match plane {
        WgpuVideoFramePlaneTexture::Rgba => MetalVideoFramePlaneTexture::Rgba,
        WgpuVideoFramePlaneTexture::Chroma => MetalVideoFramePlaneTexture::Chroma,
        WgpuVideoFramePlaneTexture::Luminance => MetalVideoFramePlaneTexture::Luminance,
    }
}

/// The Wgpu error of a Metal texture error: a missing image buffer or
/// IOSurface means there is no backend texture.
pub fn wgpu_error_of_metal(error: MacosVideoFrameError) -> (r: WgpuVideoFrameError)
    ensures
        match error {
            MacosVideoFrameError::InvalidVideoPlaneTexture => r matches WgpuVideoFrameError::InvalidVideoPlaneTexture,
            MacosVideoFrameError::NoImageBuffer | MacosVideoFrameError::NoIoSurface => r matches WgpuVideoFrameError::NoBackendTexture,
            MacosVideoFrameError::Other(e) => r matches WgpuVideoFrameError::Other(m) && m@ == e@,
        },
{
    match error {
        MacosVideoFrameError::InvalidVideoPlaneTexture => WgpuVideoFrameError::InvalidVideoPlaneTexture,
        MacosVideoFrameError::NoImageBuffer | MacosVideoFrameError::NoIoSurface => WgpuVideoFrameError::NoBackendTexture,
        MacosVideoFrameError::Other(e) => WgpuVideoFrameError::Other(e),
    }
}

/// The Wgpu texture formats frames are shared in
#[derive(Copy, Clone, Debug, PartialEq, Eq, Structural)]
pub enum WgpuTextureFormat {
    Bgra8Unorm,
    Bgra8UnormSrgb,
    Rgba8Sint,
    Rgba8Uint,
    Rgba8Unorm,
    Rgba8UnormSrgb,
    Rgba8Snorm,
    Rgb10a2Uint,
    Rgb10a2Unorm,
    Rg8Sint,
    Rg8Snorm,
    Rg8Unorm,
    R8Sint,
    R8Snorm,
    R8Uint,
    R8Unorm,
    Rgba16Float,
}

/// The Metal pixel formats of textures that can be shared with Wgpu; any
/// other format is `Unsupported`.
#[derive(Copy, Clone, Debug, PartialEq, Eq, Structural)]
pub enum MetalPixelFormat {
    BGRA8Unorm,
    BGRA8UnormSrgb,
    RGBA8Sint,
    RGBA8Uint,
    RGBA8Unorm,
    RGBA8UnormSrgb,
    RGBA8Snorm,
    RGB10A2Uint,
    RGB10A2Unorm,
    RG8Sint,
    RG8Snorm,
    RG8Uint,
    RG8Unorm,
    R8Sint,
    R8Snorm,
    R8Uint,
    R8Unorm,
    Unsupported,
}

/// The Wgpu format of a Metal format, as the texture sharing maps it; an
/// unsigned two-channel texture is shared as a signed-normalized one.
pub open spec fn spec_wgpu_format_of_metal(f: MetalPixelFormat) -> Option<WgpuTextureFormat> {
    match f {
        MetalPixelFormat::BGRA8Unorm => Some(WgpuTextureFormat::Bgra8Unorm),
        MetalPixelFormat::BGRA8UnormSrgb => Some(WgpuTextureFormat::Bgra8UnormSrgb),
        MetalPixelFormat::RGBA8Sint => Some(WgpuTextureFormat::Rgba8Sint),
        MetalPixelFormat::RGBA8Uint => Some(WgpuTextureFormat::Rgba8Uint),
        MetalPixelFormat::RGBA8Unorm => Some(WgpuTextureFormat::Rgba8Unorm),
        MetalPixelFormat::RGBA8UnormSrgb => Some(WgpuTextureFormat::Rgba8UnormSrgb),
        MetalPixelFormat::RGBA8Snorm => Some(WgpuTextureFormat::Rgba8Snorm),
        MetalPixelFormat::RGB10A2Uint => Some(WgpuTextureFormat::Rgb10a2Uint),
        MetalPixelFormat::RGB10A2Unorm => Some(WgpuTextureFormat::Rgb10a2Unorm),
        MetalPixelFormat::RG8Sint => Some(WgpuTextureFormat::Rg8Sint),
        MetalPixelFormat::RG8Snorm => Some(WgpuTextureFormat::Rg8Snorm),
        MetalPixelFormat::RG8Uint => Some(WgpuTextureFormat::Rg8Snorm),
        MetalPixelFormat::RG8Unorm => Some(WgpuTextureFormat::Rg8Unorm),
        MetalPixelFormat::R8Sint => Some(WgpuTextureFormat::R8Sint),
        MetalPixelFormat::R8Snorm => Some(WgpuTextureFormat::R8Snorm),
        MetalPixelFormat::R8Uint => Some(WgpuTextureFormat::R8Uint),
        MetalPixelFormat::R8Unorm => Some(WgpuTextureFormat::R8Unorm),
        MetalPixelFormat::Unsupported => None,
    }
}

/// The channel count, channel order (0 blue first, 1 red first), bits per
/// channel and encoding (0 normalized, 1 unsigned integer, 2 normalized
/// sRGB, 3 float, 4 signed normalized, 5 signed integer) of a Wgpu format
pub open spec fn wgpu_format_layout(w: WgpuTextureFormat) -> (int, int, int, int) {
    match w {
        WgpuTextureFormat::Bgra8Unorm => (4, 0, 8, 0),
        WgpuTextureFormat::Bgra8UnormSrgb => (4, 0, 8, 2),
        WgpuTextureFormat::Rgba8Sint => (4, 1, 8, 5),
        WgpuTextureFormat::Rgba8Uint => (4, 1, 8, 1),
        WgpuTextureFormat::Rgba8Unorm => (4, 1, 8, 0),
        WgpuTextureFormat::Rgba8UnormSrgb => (4, 1, 8, 2),
        WgpuTextureFormat::Rgba8Snorm => (4, 1, 8, 4),
        WgpuTextureFormat::Rgb10a2Uint => (4, 1, 10, 1),
        WgpuTextureFormat::Rgb10a2Unorm => (4, 1, 10, 0),
        WgpuTextureFormat::Rg8Sint => (2, 1, 8, 5),
        WgpuTextureFormat::Rg8Snorm => (2, 1, 8, 4),
        WgpuTextureFormat::Rg8Unorm => (2, 1, 8, 0),
        WgpuTextureFormat::R8Sint => (1, 1, 8, 5),
        WgpuTextureFormat::R8Snorm => (1, 1, 8, 4),
        WgpuTextureFormat::R8Uint => (1, 1, 8, 1),
        WgpuTextureFormat::R8Unorm => (1, 1, 8, 0),
        WgpuTextureFormat::Rgba16Float => (4, 1, 16, 3),
    }
}

/// The same description of a Metal format, as for [`wgpu_format_layout`];
/// `None` for an unsupported one
pub open spec fn metal_format_layout(f: MetalPixelFormat) -> Option<(int, int, int, int)> {
    match f {
        MetalPixelFormat::BGRA8Unorm => Some((4, 0, 8, 0)),
        MetalPixelFormat::BGRA8UnormSrgb => Some((4, 0, 8, 2)),
        MetalPixelFormat::RGBA8Sint => Some((4, 1, 8, 5)),
        MetalPixelFormat::RGBA8Uint => Some((4, 1, 8, 1)),
        MetalPixelFormat::RGBA8Unorm => Some((4, 1, 8, 0)),
        MetalPixelFormat::RGBA8UnormSrgb => Some((4, 1, 8, 2)),
        MetalPixelFormat::RGBA8Snorm => Some((4, 1, 8, 4)),
        MetalPixelFormat::RGB10A2Uint => Some((4, 1, 10, 1)),
        MetalPixelFormat::RGB10A2Unorm => Some((4, 1, 10, 0)),
        MetalPixelFormat::RG8Sint => Some((2, 1, 8, 5)),
        MetalPixelFormat::RG8Snorm => Some((2, 1, 8, 4)),
        MetalPixelFormat::RG8Uint => Some((2, 1, 8, 1)),
        MetalPixelFormat::RG8Unorm => Some((2, 1, 8, 0)),
        MetalPixelFormat::R8Sint => Some((1, 1, 8, 5)),
        MetalPixelFormat::R8Snorm => Some((1, 1, 8, 4)),
        MetalPixelFormat::R8Uint => Some((1, 1, 8, 1)),
        MetalPixelFormat::R8Unorm => Some((1, 1, 8, 0)),
        MetalPixelFormat::Unsupported => None,
    }
}

/// A Metal texture is shared in a Wgpu format with its channel count,
/// channel order and bits per channel, and with its encoding but for the
/// unsigned two-channel format, which is shared as signed normalized; every
/// supported Metal format is shared.
pub proof fn law_metal_format_kept(f: MetalPixelFormat)
    ensures
        spec_wgpu_format_of_metal(f) is Some <==> metal_format_layout(f) is Some,
        spec_wgpu_format_of_metal(f) matches Some(w) ==> ({
            let (channels, order, depth, encoding) = metal_format_layout(f).unwrap();
            &&& wgpu_format_layout(w).0 == channels
            &&& wgpu_format_layout(w).1 == order
            &&& wgpu_format_layout(w).2 == depth
            &&& wgpu_format_layout(w).3 == (if f == MetalPixelFormat::RG8Uint { 4 } else { encoding })
        }),
{
}

/// The Wgpu format a Metal texture is shared in; `None` for an unsupported
/// format
pub fn wgpu_format_of_metal(f: MetalPixelFormat) -> (r: Option<WgpuTextureFormat>)
    ensures
        r == spec_wgpu_format_of_metal(f),
{
    match f {
        MetalPixelFormat::BGRA8Unorm => Some(WgpuTextureFormat::Bgra8Unorm),
        MetalPixelFormat::BGRA8UnormSrgb => Some(WgpuTextureFormat::Bgra8UnormSrgb),
        MetalPixelFormat::RGBA8Sint => Some(WgpuTextureFormat::Rgba8Sint),
        MetalPixelFormat::RGBA8Uint => Some(WgpuTextureFormat::Rgba8Uint),
        MetalPixelFormat::RGBA8Unorm => Some(WgpuTextureFormat::Rgba8Unorm),
        MetalPixelFormat::RGBA8UnormSrgb => Some(WgpuTextureFormat::Rgba8UnormSrgb),
        MetalPixelFormat::RGBA8Snorm => Some(WgpuTextureFormat::Rgba8Snorm),
        MetalPixelFormat::RGB10A2Uint => Some(WgpuTextureFormat::Rgb10a2Uint),
        MetalPixelFormat::RGB10A2Unorm => Some(WgpuTextureFormat::Rgb10a2Unorm),
        MetalPixelFormat::RG8Sint => Some(WgpuTextureFormat::Rg8Sint),
        MetalPixelFormat::RG8Snorm => Some(WgpuTextureFormat::Rg8Snorm),
        MetalPixelFormat::RG8Uint => Some(WgpuTextureFormat::Rg8Snorm),
        MetalPixelFormat::RG8Unorm => Some(WgpuTextureFormat::Rg8Unorm),
        MetalPixelFormat::R8Sint => Some(WgpuTextureFormat::R8Sint),
        MetalPixelFormat::R8Snorm => Some(WgpuTextureFormat::R8Snorm),
        MetalPixelFormat::R8Uint => Some(WgpuTextureFormat::R8Uint),
        MetalPixelFormat::R8Unorm => Some(WgpuTextureFormat::R8Unorm),
        MetalPixelFormat::Unsupported => None,
    }
}

/// The Metal texture types
#[derive(Copy, Clone, Debug, PartialEq, Eq, Structural)]
pub enum MetalTextureType {
    D1,
    D1Array,
    D2,
    D2Array,
    D2Multisample,
    Cube,
    CubeArray,
    D3,
    D2MultisampleArray,
    TextureBuffer,
}

/// Only two-dimensional Metal textures, multisampled or not, can be shared.
pub fn shared_texture_dimension(texture_type: MetalTextureType) -> (r: Result<(), WgpuVideoFrameError>)
    ensures
        (texture_type == MetalTextureType::D2 || texture_type == MetalTextureType::D2Multisample) ==> r is Ok,
        !(texture_type == MetalTextureType::D2 || texture_type == MetalTextureType::D2Multisample) ==>
            (r matches Err(WgpuVideoFrameError::Other(m)) && m@ == "Unsupported metal texture type"@),
{
    match texture_type {
        MetalTextureType::D2 | MetalTextureType::D2Multisample => Ok(()),
        _ => {
            proof { reveal_strlit("Unsupported metal texture type"); }
            Err(WgpuVideoFrameError::Other(String::from_str("Unsupported metal texture type")))
        },
    }
}

/// The usages of a Wgpu texture
#[derive(Copy, Clone, Debug, PartialEq, Eq, Structural)]
pub struct TextureUsages {
    pub copy_src: bool,
    pub copy_dst: bool,
    pub texture_binding: bool,
    pub storage_binding: bool,
    pub render_attachment: bool,
}

/// The usages of a Metal texture
#[derive(Copy, Clone, Debug, PartialEq, Eq, Structural)]
pub struct MetalTextureUsage {
    pub shader_read: bool,
    pub shader_write: bool,
    pub render_target: bool,
}

/// The storage modes of a Metal texture
#[derive(Copy, Clone, Debug, PartialEq, Eq, Structural)]
pub enum MetalStorageMode {
    Shared,
    Managed,
    Private,
    Memoryless,
}

/// The usages a shared Metal texture gets: a render target is a render
/// attachment, a texture shaders read or write is bound and stored, and any
/// texture with memory can be copied from and to.
pub fn wgpu_usages_of_metal(usage: MetalTextureUsage, storage_mode: MetalStorageMode) -> (r: TextureUsages)
    ensures
        r.render_attachment == usage.render_target,
        r.texture_binding == (usage.shader_read || usage.shader_write),
        r.storage_binding == (usage.shader_read || usage.shader_write),
        r.copy_src == (storage_mode != MetalStorageMode::Memoryless),
        r.copy_dst == (storage_mode != MetalStorageMode::Memoryless),
{
    let copyable = match storage_mode {
        MetalStorageMode::Managed | MetalStorageMode::Private | MetalStorageMode::Shared => true,
        MetalStorageMode::Memoryless => false,
    };
    let bound = usage.shader_read || usage.shader_write;
    TextureUsages {
        copy_src: copyable,
        copy_dst: copyable,
        texture_binding: bound,
        storage_binding: bound,
        render_attachment: usage.render_target,
    }
}

/// The Wgpu format of a Windows frame's DirectX format
pub open spec fn spec_wgpu_format_of_directx(f: DirectXPixelFormat) -> Option<WgpuTextureFormat> {
    match f {
        DirectXPixelFormat::B8G8R8A8Typeless => Some(WgpuTextureFormat::Bgra8Unorm),
        DirectXPixelFormat::B8G8R8A8UIntNormalized => Some(WgpuTextureFormat::Bgra8Unorm),
        DirectXPixelFormat::B8G8R8A8UIntNormalizedSrgb => Some(WgpuTextureFormat::Bgra8UnormSrgb),
        DirectXPixelFormat::R10G10B10A2Typeless => Some(WgpuTextureFormat::Rgb10a2Uint),
        DirectXPixelFormat::R10G10B10A2UInt => Some(WgpuTextureFormat::Rgb10a2Uint),
        DirectXPixelFormat::R10G10B10A2UIntNormalized => Some(WgpuTextureFormat::Rgb10a2Unorm),
        DirectXPixelFormat::R16G16B16A16Float => Some(WgpuTextureFormat::Rgba16Float),
        DirectXPixelFormat::Unknown => None,
    }
}

/// The channel order of a DirectX format (0 for blue first, 1 for red
/// first), its bits per colour channel, and its encoding (0 normalized,
/// 1 unsigned integer, 2 normalized sRGB, 3 float), `None` for a typeless
/// format; `None` for an unknown format
pub open spec fn directx_layout(f: DirectXPixelFormat) -> Option<(int, int, Option<int>)> {
    match f {
        DirectXPixelFormat::B8G8R8A8Typeless => Some((0, 8, None)),
        DirectXPixelFormat::B8G8R8A8UIntNormalized => Some((0, 8, Some(0))),
        DirectXPixelFormat::B8G8R8A8UIntNormalizedSrgb => Some((0, 8, Some(2))),
        DirectXPixelFormat::R10G10B10A2Typeless => Some((1, 10, None)),
        DirectXPixelFormat::R10G10B10A2UInt => Some((1, 10, Some(1))),
        DirectXPixelFormat::R10G10B10A2UIntNormalized => Some((1, 10, Some(0))),
        DirectXPixelFormat::R16G16B16A16Float => Some((1, 16, Some(3))),
        DirectXPixelFormat::Unknown => None,
    }
}

/// The channel order, bits per colour channel and encoding of a four
/// channel Wgpu format, as for [`directx_layout`] (with 4 for signed
/// normalized and 5 for signed integer); `None` for a format with fewer
/// channels
pub open spec fn wgpu_layout(w: WgpuTextureFormat) -> Option<(int, int, int)> {
    match w {
        WgpuTextureFormat::Bgra8Unorm => Some((0, 8, 0)),
        WgpuTextureFormat::Bgra8UnormSrgb => Some((0, 8, 2)),
        WgpuTextureFormat::Rgba8Sint => Some((1, 8, 5)),
        WgpuTextureFormat::Rgba8Uint => Some((1, 8, 1)),
        WgpuTextureFormat::Rgba8Unorm => Some((1, 8, 0)),
        WgpuTextureFormat::Rgba8UnormSrgb => Some((1, 8, 2)),
        WgpuTextureFormat::Rgba8Snorm => Some((1, 8, 4)),
        WgpuTextureFormat::Rgb10a2Uint => Some((1, 10, 1)),
        WgpuTextureFormat::Rgb10a2Unorm => Some((1, 10, 0)),
        WgpuTextureFormat::Rgba16Float => Some((1, 16, 3)),
        _ => None,
    }
}

/// A Windows frame is shared in a Wgpu format with the channel order and
/// bits per channel of its DirectX format, and with its encoding where the
/// DirectX format has one; every known DirectX format is shared, an unknown
/// one is not.
pub proof fn law_directx_format_kept(f: DirectXPixelFormat)
    ensures
        spec_wgpu_format_of_directx(f) is Some <==> directx_layout(f) is Some,
        spec_wgpu_format_of_directx(f) matches Some(w) ==> ({
            let (order, depth, encoding) = directx_layout(f).unwrap();
            &&& wgpu_layout(w) is Some
            &&& wgpu_layout(w).unwrap().0 == order
            &&& wgpu_layout(w).unwrap().1 == depth
            &&& (encoding matches Some(e) ==> wgpu_layout(w).unwrap().2 == e)
        }),
{
}

/// The Wgpu format a Windows frame is shared in
pub fn wgpu_format_of_directx(f: DirectXPixelFormat) -> (r: Result<WgpuTextureFormat, WgpuVideoFrameError>)
    ensures
        match spec_wgpu_format_of_directx(f) {
            Some(w) => r == Ok::<WgpuTextureFormat, WgpuVideoFrameError>(w),
            None => r matches Err(WgpuVideoFrameError::Other(m)) && m@ == "Unsupported DirectXPixelFormat"@,
        },
{
    match f {
        DirectXPixelFormat::B8G8R8A8Typeless => Ok(WgpuTextureFormat::Bgra8Unorm),
        DirectXPixelFormat::B8G8R8A8UIntNormalized => Ok(WgpuTextureFormat::Bgra8Unorm),
        DirectXPixelFormat::B8G8R8A8UIntNormalizedSrgb => Ok(WgpuTextureFormat::Bgra8UnormSrgb),
        DirectXPixelFormat::R10G10B10A2Typeless => Ok(WgpuTextureFormat::Rgb10a2Uint),
        DirectXPixelFormat::R10G10B10A2UInt => Ok(WgpuTextureFormat::Rgb10a2Uint),
        DirectXPixelFormat::R10G10B10A2UIntNormalized => Ok(WgpuTextureFormat::Rgb10a2Unorm),
        DirectXPixelFormat::R16G16B16A16Float => Ok(WgpuTextureFormat::Rgba16Float),
        DirectXPixelFormat::Unknown => {
            proof { reveal_strlit("Unsupported DirectXPixelFormat"); }
            Err(WgpuVideoFrameError::Other(String::from_str("Unsupported DirectXPixelFormat")))
        },
    }
}

/// The first checks of sharing a Windows frame with Wgpu: a Windows frame
/// has only the RGBA plane, and the stream needs a Wgpu device.
pub fn windows_wgpu_texture_check(plane: WgpuVideoFramePlaneTexture, has_wgpu_device: bool) -> (r: Result<(), WgpuVideoFrameError>)
    ensures
        plane != WgpuVideoFramePlaneTexture::Rgba ==> r matches Err(WgpuVideoFrameError::InvalidVideoPlaneTexture),
        plane == WgpuVideoFramePlaneTexture::Rgba && !has_wgpu_device ==> r matches Err(WgpuVideoFrameError::NoWgpuDevice),
        plane == WgpuVideoFramePlaneTexture::Rgba && has_wgpu_device ==> r is Ok,
{
    if plane != WgpuVideoFramePlaneTexture::Rgba {
        return Err(WgpuVideoFrameError::InvalidVideoPlaneTexture);
    }
    if !has_wgpu_device {
        return Err(WgpuVideoFrameError::NoWgpuDevice);
    }
    Ok(())
}

/// The usages a shared Windows texture gets from its resource flags: a
/// render target is a render attachment, a resource shaders may read is
/// bound, and every shared texture can be copied from.
pub fn windows_texture_usages(allow_render_target: bool, deny_shader_resource: bool) -> (r: TextureUsages)
    ensures
        r == (TextureUsages {
            copy_src: true,
            copy_dst: false,
            texture_binding: !deny_shader_resource,
            storage_binding: false,
            render_attachment: allow_render_target,
        }),
{
    TextureUsages {
        copy_src: true,
        copy_dst: false,
        texture_binding: !deny_shader_resource,
        storage_binding: false,
        render_attachment: allow_render_target,
    }
}

} // verus!

verus! {

use crate::capture_stream::{CaptureConfig, ImplCaptureConfig};
use crate::platform::windows::capture_stream::WindowsCaptureConfig;

/// What kept a Wgpu device from yielding the DXGI adapter and D3D11 device
/// a Windows stream captures with, with the system's error text
pub enum WgpuDeviceFailure {
    /// The Wgpu device does not run on Direct3D 12
    NotDx12,
    /// The DXGI factory could not be created
    DxgiFactory(String),
    /// No DXGI adapter matches the device's adapter
    AdapterLookup(String),
    /// No D3D11 device could be created on the adapter
    D3d11Device(String),
}

/// The text of a Wgpu device failure
pub open spec fn wgpu_device_failure_text(f: WgpuDeviceFailure) -> Seq<char> {
    match f {
        WgpuDeviceFailure::NotDx12 => "Unimplemented for this wgpu backend"@,
        WgpuDeviceFailure::DxgiFactory(e) => "Failed to create dxgi factory: "@ + e@,
        WgpuDeviceFailure::AdapterLookup(e) => "Failed to find matching dxgi adapter for wgpu device: "@ + e@,
        WgpuDeviceFailure::D3d11Device(e) => "Failed to create d3d11 device from dxgi adapter: "@ + e@,
    }
}

/// A capture config which can be supplied with a Wgpu device
pub trait WgpuCaptureConfigExt: Sized {
    /// Supply the DXGI adapter and D3D11 device (raw interface pointers)
    /// found under a Wgpu device, or the failure to find them
    fn with_wgpu_device(self, devices: Result<(usize, usize), WgpuDeviceFailure>) -> Result<Self, String>;
}

impl WgpuCaptureConfigExt for CaptureConfig {
    fn with_wgpu_device(self, devices: Result<(usize, usize), WgpuDeviceFailure>) -> (r: Result<Self, String>)
        ensures
            match devices {
                Ok((adapter, device)) => r matches Ok(c) && c == (CaptureConfig {
                    impl_capture_config: ImplCaptureConfig {
                        windows: WindowsCaptureConfig { dxgi_adapter: Some(adapter), d3d11_device: Some(device) },
                        ..self.impl_capture_config
                    },
                    ..self
                }),
                Err(f) => r matches Err(m) && m@ == wgpu_device_failure_text(f),
            },
    {
        match devices {
            Ok((adapter, device)) => {
                let CaptureConfig { target, show_cursor, pixel_format, capture_audio, impl_capture_config, buffer_count } = self;
                Ok(CaptureConfig {
                    target,
                    show_cursor,
                    pixel_format,
                    capture_audio,
                    impl_capture_config: ImplCaptureConfig {
                        macos: impl_capture_config.macos,
                        windows: WindowsCaptureConfig { dxgi_adapter: Some(adapter), d3d11_device: Some(device) },
                    },
                    buffer_count,
                })
            },
            Err(WgpuDeviceFailure::NotDx12) => {
                proof { reveal_strlit("Unimplemented for this wgpu backend"); }
                Err(String::from_str("Unimplemented for this wgpu backend"))
            },
            Err(WgpuDeviceFailure::DxgiFactory(e)) => Err(String::from_str("Failed to create dxgi factory: ").concat(e.as_str())),
            Err(WgpuDeviceFailure::AdapterLookup(e)) => Err(String::from_str("Failed to find matching dxgi adapter for wgpu device: ").concat(e.as_str())),
            Err(WgpuDeviceFailure::D3d11Device(e)) => Err(String::from_str("Failed to create d3d11 device from dxgi adapter: ").concat(e.as_str())),
        }
    }
}

} // verus!
