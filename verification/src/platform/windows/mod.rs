/// Windows capture streams
pub mod capture_stream;
/// Windows capturable content: windows, monitors and applications
pub mod capturable_content;
/// Windows audio capture streams
pub mod audio_capture_stream;
/// Windows video and audio frames
pub mod frame;
