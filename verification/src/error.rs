//! The error kinds of the device-management interface, and the total map
//! from its numeric status codes to them.

use vstd::prelude::*;

verus! {

/// What a status code of the device-management interface means.
#[derive(Debug, Clone, Copy, PartialEq, Eq, Structural)]
pub enum RocmErr {
    /// The call succeeded. No query ever returns this as its error.
    RsmiStatusSuccess,
    /// An argument of the call was not valid.
    RsmiStatusInvalidArgs,
    /// The device does not expose what was asked for.
    RsmiStatusNotSupported,
    /// A file of the subsystem could not be read or written.
    RsmiStatusFileError,
    /// The caller lacks the permission that the call needs.
    RsmiStatusPermission,
    /// Memory or another resource ran out.
    RsmiStatusOutOfResources,
    /// The subsystem caught an exception of its own.
    RsmiStatusInternalException,
    /// An index was at or beyond the bound it is checked against.
    RsmiStatusInputOutOfBounds,
    /// The subsystem was never initialized with success.
    RsmiStatusInitError,
    /// The subsystem does not implement the call yet.
    RsmiStatusNotYetImplemented,
    /// What was asked for does not exist.
    RsmiStatusNotFound,
    /// A buffer was too small for the answer.
    RsmiStatusInsufficientSize,
    /// The call was interrupted.
    RsmiStatusInterrupt,
    /// More or less data was read than expected.
    RsmiStatusUnexpectedSize,
    /// There was no data to read.
    RsmiStatusNoData,
    /// The data read was not what was expected.
    RsmiStatusUnexpectedData,
    /// A resource that the call needs is in use.
    RsmiStatusBusy,
    /// A reference counter overflowed.
    RsmiStatusRefcountOverflow,
    /// Any status that has no kind of its own, and a text payload that is
    /// not valid text.
    RsmiStatusUnknownError,
}

/// The kinds that have a status code of their own, each at the position of
/// its code.
pub open spec fn known_kinds() -> Seq<RocmErr> {
    seq![
        RocmErr::RsmiStatusSuccess,
        RocmErr::RsmiStatusInvalidArgs,
        RocmErr::RsmiStatusNotSupported,
        RocmErr::RsmiStatusFileError,
        RocmErr::RsmiStatusPermission,
        RocmErr::RsmiStatusOutOfResources,
        RocmErr::RsmiStatusInternalException,
        RocmErr::RsmiStatusInputOutOfBounds,
        RocmErr::RsmiStatusInitError,
        RocmErr::RsmiStatusNotYetImplemented,
        RocmErr::RsmiStatusNotFound,
        RocmErr::RsmiStatusInsufficientSize,
        RocmErr::RsmiStatusInterrupt,
        RocmErr::RsmiStatusUnexpectedSize,
        RocmErr::RsmiStatusNoData,
        RocmErr::RsmiStatusUnexpectedData,
        RocmErr::RsmiStatusBusy,
        RocmErr::RsmiStatusRefcountOverflow,
    ]
}

/// The kind that a status code stands for: the kind at that position among
/// the known ones, and the unknown kind for every other code.
pub open spec fn status_kind(code: u16) -> RocmErr {
    if code < known_kinds().len() {
        known_kinds()[code as int]
    } else {
        RocmErr::RsmiStatusUnknownError
    }
}

/// What a status code alone decides: nothing is wrong at zero, and every
/// other code is the error of its kind.
pub open spec fn status_outcome(status: u16) -> Result<(), RocmErr> {
    if status == 0 {
        Ok(())
    } else {
        Err(status_kind(status))
    }
}

/// The map from codes to kinds: zero alone is success, the codes beyond
/// the known ones, and they alone, are of the unknown kind, and no two
/// known codes share a kind.
pub proof fn lemma_status_kinds()
    ensures
        forall|code: u16| #[trigger] status_kind(code) == RocmErr::RsmiStatusSuccess <==> code == 0,
        forall|code: u16|
            #[trigger] status_kind(code) == RocmErr::RsmiStatusUnknownError <==> code
                >= known_kinds().len(),
        forall|a: u16, b: u16|
            a < known_kinds().len() && b < known_kinds().len() && #[trigger] status_kind(a)
                == #[trigger] status_kind(b) ==> a == b,
        known_kinds().len() == 18,
{
}

impl RocmErr {
    /// The kind of a status code. Every code has one.
    pub fn from_u16(value: u16) -> (kind: RocmErr)
        ensures
            kind == status_kind(value),
    {
        match value {
            0 => RocmErr::RsmiStatusSuccess,
            1 => RocmErr::RsmiStatusInvalidArgs,
            2 => RocmErr::RsmiStatusNotSupported,
            3 => RocmErr::RsmiStatusFileError,
            4 => RocmErr::RsmiStatusPermission,
            5 => RocmErr::RsmiStatusOutOfResources,
            6 => RocmErr::RsmiStatusInternalException,
            7 => RocmErr::RsmiStatusInputOutOfBounds,
            8 => RocmErr::RsmiStatusInitError,
            9 => RocmErr::RsmiStatusNotYetImplemented,
            10 => RocmErr::RsmiStatusNotFound,
            11 => RocmErr::RsmiStatusInsufficientSize,
            12 => RocmErr::RsmiStatusInterrupt,
            13 => RocmErr::RsmiStatusUnexpectedSize,
            14 => RocmErr::RsmiStatusNoData,
            15 => RocmErr::RsmiStatusUnexpectedData,
            16 => RocmErr::RsmiStatusBusy,
            17 => RocmErr::RsmiStatusRefcountOverflow,
            _ => RocmErr::RsmiStatusUnknownError,
        }
    }
}

/// Checks the status of one call: `Ok` at zero, else the error of its kind.
pub fn check_res(status: u16) -> (r: Result<(), RocmErr>)
    ensures
        r == status_outcome(status),
{
    if status != 0 {
        return Err(RocmErr::from_u16(status));
    }
    Ok(())
}

} // verus!
