/// Mac OS capturable content: window levels and content filters
pub mod capturable_content;
/// Mac OS capture streams
pub mod capture_stream;
/// Mac OS video and audio frames
pub mod frame;
/// Mac OS system encodings
pub mod objc_wrap;
