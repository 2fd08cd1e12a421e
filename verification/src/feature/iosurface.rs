use vstd::prelude::*;
use vstd::string::*;

use crate::platform::macos::frame::MacosFrameSurface;

verus! {

/// Represents an error getting the IOSurface of a video frame
#[derive(Copy, Clone, Debug, PartialEq, Eq, Structural)]
pub enum GetIoSurfaceError {
    NoImageBuffer,
    NoIoSurface,
}

impl GetIoSurfaceError {
    /// The display text of the error
    pub fn to_display_string(&self) -> (r: String)
        ensures
            *self == GetIoSurfaceError::NoImageBuffer ==> r@ == "GetIoSurfaceError::NoImageBuffer"@,
            *self == GetIoSurfaceError::NoIoSurface ==> r@ == "GetIoSurfaceError::NoIoSurface"@,
    {
        match self {
            GetIoSurfaceError::NoImageBuffer => String::from_str("GetIoSurfaceError::NoImageBuffer"),
            GetIoSurfaceError::NoIoSurface => String::from_str("GetIoSurfaceError::NoIoSurface"),
        }
    }
}

/// Whether a frame's IOSurface can be had: a screen capture sample needs an
/// image buffer with an IOSurface; a display stream frame always has one.
pub fn frame_iosurface(surface: MacosFrameSurface) -> (r: Result<(), GetIoSurfaceError>)
    ensures
        r == (match surface {
            MacosFrameSurface::SCStream { has_image_buffer, has_iosurface } => if !has_image_buffer {
                Err(GetIoSurfaceError::NoImageBuffer)
            } else if !has_iosurface {
                Err(GetIoSurfaceError::NoIoSurface)
            } else {
                Ok(())
            },
            MacosFrameSurface::CGDisplayStream => Ok(()),
        }),
{
    match surface {
        MacosFrameSurface::SCStream { has_image_buffer, has_iosurface } => {
            if !has_image_buffer {
                Err(GetIoSurfaceError::NoImageBuffer)
            } else if !has_iosurface {
                Err(GetIoSurfaceError::NoIoSurface)
            } else {
                Ok(())
            }
        },
        MacosFrameSurface::CGDisplayStream => Ok(()),
    }
}

/// The errors of locking an IOSurface
#[derive(Copy, Clone, Debug, PartialEq, Eq, Structural)]
pub enum IOSurfaceLockError {
    CannotLock,
    Other,
}

/// The lock option of a read-only lock
pub const IOSURFACE_LOCK_READ_ONLY: u32 = 1;
/// The lock option of a lock that avoids synchronisation
pub const IOSURFACE_LOCK_AVOID_SYNC: u32 = 2;
/// The kernel return code of a surface that cannot be locked
pub const KIO_RETURN_CANNOT_LOCK: i32 = -536870196;

/// The options of a surface lock
pub fn iosurface_lock_options(read_only: bool, avoid_sync: bool) -> (r: u32)
    ensures
        r == (if read_only { IOSURFACE_LOCK_READ_ONLY } else { 0 }) + (if avoid_sync { IOSURFACE_LOCK_AVOID_SYNC } else { 0 }),
{
    let read_only_bit: u32 = if read_only { IOSURFACE_LOCK_READ_ONLY } else { 0 };
    let avoid_sync_bit: u32 = if avoid_sync { IOSURFACE_LOCK_AVOID_SYNC } else { 0 };
    let options = read_only_bit | avoid_sync_bit;
    assert(options == read_only_bit + avoid_sync_bit) by (bit_vector)
        requires
            read_only_bit == 0 || read_only_bit == 1,
            avoid_sync_bit == 0 || avoid_sync_bit == 2,
            options == read_only_bit | avoid_sync_bit,
    ;
    options
}

/// The outcome of a surface lock, from the kernel's return code
pub fn iosurface_lock_result(code: i32) -> (r: Result<(), IOSurfaceLockError>)
    ensures
        r == (if code == 0 {
            Ok(())
        } else if code == KIO_RETURN_CANNOT_LOCK {
            Err(IOSurfaceLockError::CannotLock)
        } else {
            Err(IOSurfaceLockError::Other)
        }),
{
    if code == 0 {
        Ok(())
    } else if code == KIO_RETURN_CANNOT_LOCK {
        Err(IOSurfaceLockError::CannotLock)
    } else {
        Err(IOSurfaceLockError::Other)
    }
}

} // verus!
