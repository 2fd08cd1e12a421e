use vstd::prelude::*;
use vstd::string::*;

verus! {

/// Represents an error getting the DXGI surface of a video frame
#[derive(Debug, Clone)]
pub enum WindowsDxgiVideoFrameError {
    Other(String),
}

impl WindowsDxgiVideoFrameError {
    /// The display text of the error
    pub fn to_display_string(&self) -> (r: String)
        ensures
            match self {
                WindowsDxgiVideoFrameError::Other(m) => r@ == "WindowsDxgiVideoFrameError::Other(\""@ + m@ + "\")"@,
            },
    {
        match self {
            WindowsDxgiVideoFrameError::Other(m) => String::from_str("WindowsDxgiVideoFrameError::Other(\"").concat(m.as_str()).concat("\")"),
        }
    }
}

/// The steps of getting the DXGI surface of a frame, each of which can fail
#[derive(Copy, Clone, Debug, PartialEq, Eq, Structural)]
pub enum DxgiSurfaceStep {
    /// Getting the frame's surface
    FrameSurface,
    /// Casting the surface to its DXGI interface access
    InterfaceAccess,
    /// Getting the surface's D3D11 texture
    Texture,
    /// Casting the texture to a DXGI surface
    DxgiSurface,
}

/// What a failed step of getting a frame's DXGI surface reports, with the
/// system's error text
pub open spec fn dxgi_step_message(step: DxgiSurfaceStep) -> Seq<char> {
    match step {
        DxgiSurfaceStep::FrameSurface => "Failed to get frame surface: "@,
        DxgiSurfaceStep::InterfaceAccess => "Failed to cast d3d11 surface to dxgi interface access: "@,
        DxgiSurfaceStep::Texture => "Failed to get ID3D11Texture2D interface from to IDirect3DSurface(IDirect3DDxgiInterfaceAccess): "@,
        DxgiSurfaceStep::DxgiSurface => "Failed to cast ID3D11Texture2D to IDXGISurface: "@,
    }
}

/// The error of a failed step of getting a frame's DXGI surface
pub fn dxgi_surface_error(step: DxgiSurfaceStep, error: &str) -> (r: WindowsDxgiVideoFrameError)
    ensures
        r matches WindowsDxgiVideoFrameError::Other(m) && m@ == dxgi_step_message(step) + error@,
{
    let prefix = match step {
        DxgiSurfaceStep::FrameSurface => "Failed to get frame surface: ",
        DxgiSurfaceStep::InterfaceAccess => "Failed to cast d3d11 surface to dxgi interface access: ",
        DxgiSurfaceStep::Texture => "Failed to get ID3D11Texture2D interface from to IDirect3DSurface(IDirect3DDxgiInterfaceAccess): ",
        DxgiSurfaceStep::DxgiSurface => "Failed to cast ID3D11Texture2D to IDXGISurface: ",
    };
    WindowsDxgiVideoFrameError::Other(String::from_str(prefix).concat(error))
}

/// Represents an error getting the DXGI adapter of a capture stream
#[derive(Debug)]
pub enum WindowsDxgiCaptureStreamError {
    NoAdapter(String),
}

impl WindowsDxgiCaptureStreamError {
    /// The display text of the error
    pub fn to_display_string(&self) -> (r: String)
        ensures
            match self {
                WindowsDxgiCaptureStreamError::NoAdapter(m) => r@ == "WindowsDxgiCaptureStreamError::NoAdapter(\""@ + m@ + "\")"@,
            },
    {
        match self {
            WindowsDxgiCaptureStreamError::NoAdapter(m) => String::from_str("WindowsDxgiCaptureStreamError::NoAdapter(\"").concat(m.as_str()).concat("\")"),
        }
    }
}

/// The devices a Windows stream captures with, as raw interface pointers:
/// its DXGI adapter, or the error that kept it from having one, its DXGI
/// device and its D3D11 device. A stream has an adapter or an error.
pub struct WindowsStreamDevices {
    dxgi_adapter: Option<usize>,
    dxgi_adapter_error: Option<String>,
    dxgi_device: usize,
    d3d11_device: usize,
}

impl WindowsStreamDevices {
    #[verifier::type_invariant]
    spec fn has_adapter_or_error(self) -> bool {
        self.dxgi_adapter is Some || self.dxgi_adapter_error is Some
    }

    pub closed spec fn adapter(self) -> Option<usize> {
        self.dxgi_adapter
    }

    pub closed spec fn adapter_error(self) -> Option<Seq<char>> {
        match self.dxgi_adapter_error {
            Some(e) => Some(e@),
            None => None,
        }
    }

    pub closed spec fn dxgi_device(self) -> usize {
        self.dxgi_device
    }

    pub closed spec fn d3d11_device(self) -> usize {
        self.d3d11_device
    }

    /// The devices of a stream made on a device created on a known adapter
    pub fn with_adapter(dxgi_adapter: usize, dxgi_device: usize, d3d11_device: usize) -> (r: Self)
        ensures
            r.adapter() == Some(dxgi_adapter),
            r.dxgi_device() == dxgi_device,
            r.d3d11_device() == d3d11_device,
    {
        WindowsStreamDevices { dxgi_adapter: Some(dxgi_adapter), dxgi_adapter_error: None, dxgi_device, d3d11_device }
    }

    /// The devices of a stream made on a given D3D11 device, with the
    /// outcome of querying the device for its adapter (the system's error
    /// text when that failed)
    pub fn with_device(adapter: Result<usize, String>, dxgi_device: usize, d3d11_device: usize) -> (r: Self)
        ensures
            match adapter {
                Ok(a) => r.adapter() == Some(a),
                Err(e) => r.adapter() is None
                    && r.adapter_error() == Some("Failed to create IDXGIAdapter from ID3D11Device: "@ + e@),
            },
            r.dxgi_device() == dxgi_device,
            r.d3d11_device() == d3d11_device,
    {
        match adapter {
            Ok(a) => WindowsStreamDevices { dxgi_adapter: Some(a), dxgi_adapter_error: None, dxgi_device, d3d11_device },
            Err(e) => WindowsStreamDevices {
                dxgi_adapter: None,
                dxgi_adapter_error: Some(String::from_str("Failed to create IDXGIAdapter from ID3D11Device: ").concat(e.as_str())),
                dxgi_device,
                d3d11_device,
            },
        }
    }
}

/// A capture stream which can inter-operate with DXGI
pub trait WindowsDxgiCaptureStream {
    /// Get the DXGI adapter used by the capture stream for frame generation
    fn get_dxgi_adapter(&self) -> Result<usize, WindowsDxgiCaptureStreamError>;
    /// Get the DXGI device used by the capture stream for frame generation
    fn get_dxgi_device(&self) -> usize;
}

impl WindowsDxgiCaptureStream for WindowsStreamDevices {
    /// The adapter if the stream has one, else the error that kept it from
    /// having one
    fn get_dxgi_adapter(&self) -> (r: Result<usize, WindowsDxgiCaptureStreamError>)
        ensures
            self.adapter() matches Some(a) ==> r == Ok::<usize, WindowsDxgiCaptureStreamError>(a),
            self.adapter() is None ==> (r matches Err(WindowsDxgiCaptureStreamError::NoAdapter(m))
                && self.adapter_error() == Some(m@)),
    {
        proof { use_type_invariant(self); }
        match self.dxgi_adapter {
            Some(adapter) => Ok(adapter),
            None => match &self.dxgi_adapter_error {
                Some(error) => Err(WindowsDxgiCaptureStreamError::NoAdapter(error.clone())),
                None => Err(WindowsDxgiCaptureStreamError::NoAdapter(String::new())),
            },
        }
    }

    fn get_dxgi_device(&self) -> (r: usize)
        ensures
            r == self.dxgi_device(),
    {
        self.dxgi_device
    }
}

/// A capture stream which can inter-operate with DX11
pub trait WindowsDx11CaptureStream {
    /// Get the underlying DX11 device used for frame capture
    fn get_dx11_device(&self) -> usize;
}

impl WindowsDx11CaptureStream for WindowsStreamDevices {
    fn get_dx11_device(&self) -> (r: usize)
        ensures
            r == self.d3d11_device(),
    {
        self.d3d11_device
    }
}

} // verus!

verus! {

use crate::platform::windows::capture_stream::DirectXPixelFormat;
use crate::platform::windows::frame::WindowsVideoFrame;

/// A video frame which can inter-operate with DXGI
pub trait WindowsDxgiVideoFrame {
    /// The frame's DXGI surface (its raw interface pointer) and pixel format,
    /// from the outcome of getting it: the surface, or the step that failed
    /// with the system's error text
    fn get_dxgi_surface(&self, surface: Result<usize, (DxgiSurfaceStep, String)>) -> Result<(usize, DirectXPixelFormat), WindowsDxgiVideoFrameError>;
}

impl WindowsDxgiVideoFrame for WindowsVideoFrame {
    fn get_dxgi_surface(&self, surface: Result<usize, (DxgiSurfaceStep, String)>) -> (r: Result<(usize, DirectXPixelFormat), WindowsDxgiVideoFrameError>)
        ensures
            match surface {
                Ok(s) => r == Ok::<(usize, DirectXPixelFormat), WindowsDxgiVideoFrameError>((s, self.pixel_format)),
                Err((step, e)) => r matches Err(WindowsDxgiVideoFrameError::Other(m)) && m@ == dxgi_step_message(step) + e@,
            },
    {
        match surface {
            Ok(s) => Ok((s, self.pixel_format)),
            Err((step, e)) => Err(dxgi_surface_error(step, e.as_str())),
        }
    }
}

} // verus!
