use vstd::prelude::*;
use vstd::string::*;

use crate::platform::macos::frame::MacosFrameSurface;
use crate::platform::macos::objc_wrap::CVPixelFormat;

verus! {

/// Identifies planes of a video frame
#[derive(Copy, Clone, Debug, PartialEq, Eq, Structural)]
pub enum MetalVideoFramePlaneTexture {
    /// The single RGBA plane for an RGBA format frame
    Rgba,
    /// The Luminance (Y, Brightness) plane for a YCbCr format frame
    Luminance,
    /// The Chrominance (CbCr, Blue/Red) plane for a YCbCr format frame
    Chroma,
}

/// Represents an error getting the texture from a video frame
#[derive(Clone, Debug)]
pub enum MacosVideoFrameError {
    /// Could not retreive the IOSurface for this frame
    NoIoSurface,
    /// Could not retreive the image buffer for this frame
    NoImageBuffer,
    /// The requested plane isn't valid for this frame
    InvalidVideoPlaneTexture,
    Other(String),
}

impl MacosVideoFrameError {
    /// The display text of the error
    pub fn to_display_string(&self) -> (r: String)
        ensures
            match self {
                MacosVideoFrameError::NoIoSurface => r@ == "MacosVideoFrameError::NoIoSurface"@,
                MacosVideoFrameError::NoImageBuffer => r@ == "MacosVideoFrameError::NoImageBuffer"@,
                MacosVideoFrameError::InvalidVideoPlaneTexture => r@ == "MacosVideoFrameError::InvalidVideoPlaneTexture"@,
                MacosVideoFrameError::Other(m) => r@ == "MacosVideoFrameError::Other(\""@ + m@ + "\")"@,
            },
    {
        match self {
            MacosVideoFrameError::NoIoSurface => String::from_str("MacosVideoFrameError::NoIoSurface"),
            MacosVideoFrameError::NoImageBuffer => String::from_str("MacosVideoFrameError::NoImageBuffer"),
            MacosVideoFrameError::InvalidVideoPlaneTexture => String::from_str("MacosVideoFrameError::InvalidVideoPlaneTexture"),
            MacosVideoFrameError::Other(m) => String::from_str("MacosVideoFrameError::Other(\"").concat(m.as_str()).concat("\")"),
        }
    }
}

/// The Metal pixel formats of the textures made over a frame's planes
#[derive(Copy, Clone, Debug, PartialEq, Eq, Structural)]
pub enum MetalTextureFormat {
    BGRA8Unorm,
    R8Uint,
    RG8Uint,
}

/// The texture to make over one plane of a frame's IOSurface
#[derive(Copy, Clone, Debug, PartialEq, Eq, Structural)]
pub struct MetalPlaneTexture {
    /// The index of the surface plane
    pub plane: usize,
    pub format: MetalTextureFormat,
    /// The width of the texture: that of the whole surface
    pub width: usize,
    /// The height of the texture: that of the surface for a BGRA surface,
    /// that of the texture's plane for a 4:2:0 surface
    pub height: usize,
}

/// The texture for a plane of a Mac OS frame, from the frame's surface and
/// the surface's pixel format: a screen capture sample needs an image buffer
/// and an IOSurface; a BGRA surface has only the RGBA plane (plane 0), a
/// 4:2:0 surface the luminance (plane 0, one byte) and chroma (plane 1, two
/// bytes) planes; other formats are refused. Every texture is as wide as
/// the surface (`surface_size.0`); a BGRA texture is as high as the surface
/// (`surface_size.1`), a 4:2:0 texture as high as its plane (`plane_heights.0`
/// for plane 0, `plane_heights.1` for plane 1).
pub fn metal_plane_texture(
    surface: MacosFrameSurface,
    pixel_format: Option<CVPixelFormat>,
    plane: MetalVideoFramePlaneTexture,
    surface_size: (usize, usize),
    plane_heights: (usize, usize),
) -> (r: Result<MetalPlaneTexture, MacosVideoFrameError>)
    ensures
        surface matches MacosFrameSurface::SCStream { has_image_buffer, .. } && !has_image_buffer
            ==> r matches Err(MacosVideoFrameError::NoImageBuffer),
        surface matches MacosFrameSurface::SCStream { has_image_buffer, has_iosurface } && has_image_buffer && !has_iosurface
            ==> r matches Err(MacosVideoFrameError::NoIoSurface),
        crate::platform::macos::frame::has_surface(surface) ==> match pixel_format {
            None => r matches Err(MacosVideoFrameError::Other(m)) && m@ == "Unable to get pixel format from iosurface"@,
            Some(CVPixelFormat::BGRA8888) => if plane == MetalVideoFramePlaneTexture::Rgba {
                r == Ok::<MetalPlaneTexture, MacosVideoFrameError>(MetalPlaneTexture {
                    plane: 0, format: MetalTextureFormat::BGRA8Unorm, width: surface_size.0, height: surface_size.1,
                })
            } else {
                r matches Err(MacosVideoFrameError::InvalidVideoPlaneTexture)
            },
            Some(CVPixelFormat::V420) | Some(CVPixelFormat::F420) => match plane {
                MetalVideoFramePlaneTexture::Luminance => r == Ok::<MetalPlaneTexture, MacosVideoFrameError>(MetalPlaneTexture {
                    plane: 0, format: MetalTextureFormat::R8Uint, width: surface_size.0, height: plane_heights.0,
                }),
                MetalVideoFramePlaneTexture::Chroma => r == Ok::<MetalPlaneTexture, MacosVideoFrameError>(MetalPlaneTexture {
                    plane: 1, format: MetalTextureFormat::RG8Uint, width: surface_size.0, height: plane_heights.1,
                }),
                MetalVideoFramePlaneTexture::Rgba => r matches Err(MacosVideoFrameError::InvalidVideoPlaneTexture),
            },
            Some(_) => r matches Err(MacosVideoFrameError::Other(m)) && m@ == "Unknown pixel format on iosurface"@,
        },
{
    match surface {
        MacosFrameSurface::SCStream { has_image_buffer, has_iosurface } => {
            if !has_image_buffer {
                return Err(MacosVideoFrameError::NoImageBuffer);
            }
            if !has_iosurface {
                return Err(MacosVideoFrameError::NoIoSurface);
            }
        },
        MacosFrameSurface::CGDisplayStream => {},
    }
    match pixel_format {
        None => {
            proof { reveal_strlit("Unable to get pixel format from iosurface"); }
            Err(MacosVideoFrameError::Other(String::from_str("Unable to get pixel format from iosurface")))
        },
        Some(CVPixelFormat::BGRA8888) => match plane {
            MetalVideoFramePlaneTexture::Rgba => Ok(MetalPlaneTexture {
                plane: 0, format: MetalTextureFormat::BGRA8Unorm, width: surface_size.0, height: surface_size.1,
            }),
            _ => Err(MacosVideoFrameError::InvalidVideoPlaneTexture),
        },
        Some(CVPixelFormat::V420) | Some(CVPixelFormat::F420) => match plane {
            MetalVideoFramePlaneTexture::Luminance => Ok(MetalPlaneTexture {
                plane: 0, format: MetalTextureFormat::R8Uint, width: surface_size.0, height: plane_heights.0,
            }),
            MetalVideoFramePlaneTexture::Chroma => Ok(MetalPlaneTexture {
                plane: 1, format: MetalTextureFormat::RG8Uint, width: surface_size.0, height: plane_heights.1,
            }),
            _ => Err(MacosVideoFrameError::InvalidVideoPlaneTexture),
        },
        Some(_) => {
            proof { reveal_strlit("Unknown pixel format on iosurface"); }
            Err(MacosVideoFrameError::Other(String::from_str("Unknown pixel format on iosurface")))
        },
    }
}

/// The outcome of making a Metal texture over a surface plane, from whether
/// the device returned one
pub fn metal_texture_made(texture_made: bool) -> (r: Result<(), MacosVideoFrameError>)
    ensures
        texture_made ==> r is Ok,
        !texture_made ==> (r matches Err(MacosVideoFrameError::Other(m)) && m@ == "Failed to create metal texture"@),
{
    if texture_made {
        Ok(())
    } else {
        proof { reveal_strlit("Failed to create metal texture"); }
        Err(MacosVideoFrameError::Other(String::from_str("Failed to create metal texture")))
    }
}

} // verus!
