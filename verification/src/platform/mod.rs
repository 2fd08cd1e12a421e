/// Macos-specific extensions
pub mod macos;
/// Windows-specific extensions
pub mod windows;
