//! The error taxonomy that crosses the boundary, and the mapping into it.

use vstd::prelude::*;
use embedded_hal::spi::ErrorKind;

verus! {

/// Declares `embedded_hal::spi::ErrorKind`, the kinds of error that a bus
/// driver reports. The type is an enum without fields; its variants are
/// read from the crate, so the mapping below is proved for each of them.
#[verifier::external_type_specification]
pub struct ExErrorKind(ErrorKind);

/// The closed set of error codes that a guest can observe.
#[derive(Clone, Copy, Debug, PartialEq, Eq, Structural)]
pub enum ErrorCode {
    Overrun,
    ModeFault,
    FrameFormat,
    ChipSelectFault,
    Busy,
    Other,
}

/// The code under which a driver error kind crosses the boundary: the four
/// kinds that have a code of their own keep it, every other kind is `Other`.
pub open spec fn error_code_of(kind: ErrorKind) -> ErrorCode {
    match kind {
        ErrorKind::Overrun => ErrorCode::Overrun,
        ErrorKind::ModeFault => ErrorCode::ModeFault,
        ErrorKind::FrameFormat => ErrorCode::FrameFormat,
        ErrorKind::ChipSelectFault => ErrorCode::ChipSelectFault,
        _ => ErrorCode::Other,
    }
}

/// Maps a driver error kind to the guest-facing code.
pub fn map_spi_error(kind: ErrorKind) -> (code: ErrorCode)
    ensures
        code == error_code_of(kind),
{
    match kind {
        ErrorKind::Overrun => ErrorCode::Overrun,
        ErrorKind::ModeFault => ErrorCode::ModeFault,
        ErrorKind::FrameFormat => ErrorCode::FrameFormat,
        ErrorKind::ChipSelectFault => ErrorCode::ChipSelectFault,
        _ => ErrorCode::Other,
    }
}

} // verus!
