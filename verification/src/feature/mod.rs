/// Frame to bitmap conversion
pub mod bitmap;
/// Frame to Metal texture conversion (Mac OS)
pub mod metal;
/// Frame to IOSurface conversion (Mac OS)
pub mod iosurface;
/// Frame to Wgpu texture conversion
pub mod wgpu;
/// Frame to DXGI surface conversion (Windows)
pub mod dxgi;
/// Frame to DX11 surface and texture conversion (Windows)
pub mod dx11;
/// Frame to Vulkan image conversion
pub mod ash;
/// Single-frame capture
pub mod screenshot;
/// Diagnostic information about frames
pub mod diagnostic;
/// Picking content through the system's picker
pub mod content_picker;
