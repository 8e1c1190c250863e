//! Decisions of the event device reader. The reader itself (opening the
//! device, waiting on the kernel event queue, reading 16 bytes) is I/O; what it
//! makes of each outcome is decided here.

use vstd::prelude::*;
use crate::error::{ErrorKind, ErrorLayer, ErrorSeverity, VtrError};
use crate::event::record::{checksum_invalid_error, wire_checksum_ok, EventRecord};

verus! {

/// The size of one event on the device.
pub const EVENT_SIZE: usize = 16;

/// The error number of an I/O error: the driver's answer to an event whose
/// checksum it rejected.
pub const EIO: i32 = 5;

/// What a wait on the kernel event queue means. `ready` is what the wait
/// returned (negative on failure) and `os_code` the error number that came with it.
/// `Ok(true)` when an event is ready to read, `Ok(false)` when the wait timed out.
pub fn wait_outcome(ready: i32, os_code: i32) -> (res: Result<bool, VtrError>)
    ensures
        ready < 0 ==> res == Err::<bool, VtrError>(
            VtrError {
                kind: ErrorKind::KqueueEvent,
                layer: ErrorLayer::Hardware,
                severity: ErrorSeverity::DaemonFatal,
                os_code,
            },
        ),
        ready == 0 ==> res == Ok::<bool, VtrError>(false),
        ready > 0 ==> res == Ok::<bool, VtrError>(true),
{
    if ready < 0 {
        return Err(
            VtrError::new(ErrorKind::KqueueEvent, ErrorLayer::Hardware, ErrorSeverity::DaemonFatal, os_code),
        );
    }
    Ok(ready != 0)
}

/// What a read of the device means. `bytes_read` is what the read returned,
/// `os_code` the error number that came with a failed read (negative count),
/// and `buf` the buffer it read into.
/// - Nothing read gives `Ok(None)`.
/// - A read the driver failed with `EIO` is a checksum the driver rejected:
///   the checksum error, carrying the error number.
/// - Any other failed read, and a short read, is refused as an overflow
///   carrying the count.
/// - A whole event is parsed and checked.
pub fn read_outcome(bytes_read: isize, os_code: i32, buf: &[u8; 16]) -> (res: Result<
    Option<EventRecord>,
    VtrError,
>)
    ensures
        bytes_read == 0 ==> res == Ok::<Option<EventRecord>, VtrError>(None),
        bytes_read < 0 && os_code == EIO ==> res == Err::<Option<EventRecord>, VtrError>(
            VtrError {
                kind: ErrorKind::ChecksumInvalid,
                layer: ErrorLayer::Protocol,
                severity: ErrorSeverity::DaemonFatal,
                os_code,
            },
        ),
        (bytes_read < 0 && os_code != EIO) || (bytes_read > 0 && bytes_read != 16) ==> res == Err::<
            Option<EventRecord>,
            VtrError,
        >(
            VtrError {
                kind: ErrorKind::PayloadOverflow,
                layer: ErrorLayer::Protocol,
                severity: ErrorSeverity::DaemonFatal,
                os_code: bytes_read as i32,
            },
        ),
        bytes_read == 16 ==> {
            &&& res is Ok <==> wire_checksum_ok(buf@)
            &&& res matches Ok(r) ==> r matches Some(rec) && rec.spec_bytes() == buf@
            &&& res matches Err(e) ==> e == checksum_invalid_error()
        },
{
    if bytes_read == 0 {
        return Ok(None);
    }
    if bytes_read < 0 && os_code == EIO {
        return Err(
            VtrError::new(ErrorKind::ChecksumInvalid, ErrorLayer::Protocol, ErrorSeverity::DaemonFatal, os_code),
        );
    }
    if bytes_read != 16 {
        return Err(
            VtrError::new(
                ErrorKind::PayloadOverflow,
                ErrorLayer::Protocol,
                ErrorSeverity::DaemonFatal,
                bytes_read as i32,
            ),
        );
    }
    match EventRecord::from_bytes(buf) {
        Ok(r) => Ok(Some(r)),
        Err(e) => Err(e),
    }
}

} // verus!
