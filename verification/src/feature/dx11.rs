use vstd::prelude::*;
use vstd::string::*;

verus! {

/// Represents an error getting the DX11 surface or texture of a video frame
#[derive(Debug, Clone)]
pub enum WindowsDx11VideoFrameError {
    Other(String),
}

impl WindowsDx11VideoFrameError {
    /// The display text of the error
    pub fn to_display_string(&self) -> (r: String)
        ensures
            match self {
                WindowsDx11VideoFrameError::Other(m) => r@ == "WindowsDx11VideoFrameError::Other(\""@ + m@ + "\")"@,
            },
    {
        match self {
            WindowsDx11VideoFrameError::Other(m) => String::from_str("WindowsDx11VideoFrameError::Other(\"").concat(m.as_str()).concat("\")"),
        }
    }
}

/// The steps of getting the DX11 texture of a frame, each of which can fail
#[derive(Copy, Clone, Debug, PartialEq, Eq, Structural)]
pub enum Dx11TextureStep {
    /// Getting the frame's surface
    FrameSurface,
    /// Casting the surface to its DXGI interface access
    InterfaceAccess,
    /// Getting the surface's D3D11 texture
    Texture,
}

/// What a failed step of getting a frame's DX11 texture reports, with the
/// system's error text
pub open spec fn dx11_step_message(step: Dx11TextureStep) -> Seq<char> {
    match step {
        Dx11TextureStep::FrameSurface => "Failed to get frame surface: "@,
        Dx11TextureStep::InterfaceAccess => "Failed to cast surface to dxgi interface access: "@,
        Dx11TextureStep::Texture => "Failed to get ID3D11Texture interface "@,
    }
}

/// The error of a failed step of getting a frame's DX11 surface or texture
pub fn dx11_texture_error(step: Dx11TextureStep, error: &str) -> (r: WindowsDx11VideoFrameError)
    ensures
        r matches WindowsDx11VideoFrameError::Other(m) && m@ == dx11_step_message(step) + error@,
{
    let prefix = match step {
        Dx11TextureStep::FrameSurface => "Failed to get frame surface: ",
        Dx11TextureStep::InterfaceAccess => "Failed to cast surface to dxgi interface access: ",
        Dx11TextureStep::Texture => "Failed to get ID3D11Texture interface ",
    };
    WindowsDx11VideoFrameError::Other(String::from_str(prefix).concat(error))
}

} // verus!

verus! {

use crate::platform::windows::capture_stream::DirectXPixelFormat;
use crate::platform::windows::frame::WindowsVideoFrame;

/// A video frame which can yield a DX11 surface
pub trait WindowsDx11VideoFrame {
    /// The frame's surface (its raw interface pointer) and pixel format,
    /// from the outcome of getting the surface
    fn get_dx11_surface(&self, surface: Result<usize, String>) -> Result<(usize, DirectXPixelFormat), WindowsDx11VideoFrameError>;
    /// The frame's texture (its raw interface pointer) and pixel format,
    /// from the outcome of getting it: the texture, or the step that failed
    /// with the system's error text
    fn get_dx11_texture(&self, texture: Result<usize, (Dx11TextureStep, String)>) -> Result<(usize, DirectXPixelFormat), WindowsDx11VideoFrameError>;
}

impl WindowsDx11VideoFrame for WindowsVideoFrame {
    fn get_dx11_surface(&self, surface: Result<usize, String>) -> (r: Result<(usize, DirectXPixelFormat), WindowsDx11VideoFrameError>)
        ensures
            match surface {
                Ok(s) => r == Ok::<(usize, DirectXPixelFormat), WindowsDx11VideoFrameError>((s, self.pixel_format)),
                Err(e) => r matches Err(WindowsDx11VideoFrameError::Other(m)) && m@ == dx11_step_message(Dx11TextureStep::FrameSurface) + e@,
            },
    {
        match surface {
            Ok(s) => Ok((s, self.pixel_format)),
            Err(e) => Err(dx11_texture_error(Dx11TextureStep::FrameSurface, e.as_str())),
        }
    }

    fn get_dx11_texture(&self, texture: Result<usize, (Dx11TextureStep, String)>) -> (r: Result<(usize, DirectXPixelFormat), WindowsDx11VideoFrameError>)
        ensures
            match texture {
                Ok(t) => r == Ok::<(usize, DirectXPixelFormat), WindowsDx11VideoFrameError>((t, self.pixel_format)),
                Err((step, e)) => r matches Err(WindowsDx11VideoFrameError::Other(m)) && m@ == dx11_step_message(step) + e@,
            },
    {
        match texture {
            Ok(t) => Ok((t, self.pixel_format)),
            Err((step, e)) => Err(dx11_texture_error(step, e.as_str())),
        }
    }
}

} // verus!
