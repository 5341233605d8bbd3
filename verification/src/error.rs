//! Translation of the integer status codes that native calls return into a
//! closed set of error kinds, and of each kind into a readable message.

use vstd::prelude::*;

verus! {

/// The status code that the runtime never returns and that this crate
/// reserves for operations it has not wired up.
pub const NOT_IMPLEMENTED_CODE: u32 = 999999;

/// The closed set of status kinds a native call can end in.
#[derive(Clone, Copy, Debug, PartialEq, Eq, Structural)]
pub enum NativeError {
    NoError,
    MustPossessCapability,
    NullPointer,
    OutOfMemory,
    NotEnabled,
    NotAvailable,
    UnexpectedInternalError,
    ThreadNotAttached,
    Disconnected,
    NotImplemented,
    UnknownError,
    ThreadNotAlive,
    InvalidMonitor,
    NotMonitorOwner,
    IllegalArgument,
}

/// The kind that stands for a numeric status code. Every code outside the
/// table falls to `UnknownError`; only zero is `NoError`.
pub open spec fn status_kind(code: u32) -> NativeError {
    if code == 0 {
        NativeError::NoError
    } else if code == 15 {
        NativeError::ThreadNotAlive
    } else if code == 50 {
        NativeError::InvalidMonitor
    } else if code == 51 {
        NativeError::NotMonitorOwner
    } else if code == 99 {
        NativeError::MustPossessCapability
    } else if code == 100 {
        NativeError::NullPointer
    } else if code == 103 {
        NativeError::IllegalArgument
    } else if code == 110 {
        NativeError::OutOfMemory
    } else if code == 111 {
        NativeError::NotEnabled
    } else if code == 112 {
        NativeError::NotAvailable
    } else if code == 113 {
        NativeError::UnexpectedInternalError
    } else if code == 115 {
        NativeError::ThreadNotAttached
    } else if code == 116 {
        NativeError::Disconnected
    } else if code == NOT_IMPLEMENTED_CODE {
        NativeError::NotImplemented
    } else {
        NativeError::UnknownError
    }
}

/// The message shown to a user for each kind.
pub open spec fn error_message(kind: NativeError) -> Seq<char> {
    match kind {
        NativeError::NoError => "No error has occurred."@,
        NativeError::MustPossessCapability => "The capability being used is false in this environment."@,
        NativeError::NullPointer => "Pointer is unexpectedly NULL."@,
        NativeError::OutOfMemory => "The function attempted to allocate memory and no more memory was available for allocation."@,
        NativeError::NotEnabled => "The desired functionality has not been enabled in this virtual machine."@,
        NativeError::NotAvailable => "The desired functionality is not available in the current phase. Always returned if the virtual machine has completed running."@,
        NativeError::UnexpectedInternalError => "An unexpected internal error has occurred."@,
        NativeError::ThreadNotAttached => "The thread being used to call this function is not attached to the virtual machine. Calls must be made from attached threads."@,
        NativeError::Disconnected => "The JVM TI environment provided is no longer connected or is not an environment."@,
        NativeError::NotImplemented => "This function is not implemented yet"@,
        NativeError::UnknownError => "Unknown error."@,
        NativeError::ThreadNotAlive => "thread is not live (has not been started or is now dead)."@,
        NativeError::InvalidMonitor => "Invalid raw monitor."@,
        NativeError::NotMonitorOwner => "This thread doesn't own the raw monitor."@,
        NativeError::IllegalArgument => "Illegal argument."@,
    }
}

/// What a native call that ended in `code` amounts to: its value when the
/// status is zero, the translated status otherwise. The value is never
/// looked at when the status is not zero.
pub open spec fn status_outcome<T>(code: u32, value: T) -> Result<T, NativeError> {
    if code == 0 {
        Ok(value)
    } else {
        Err(status_kind(code))
    }
}

/// Turn a native status code into a typed error kind.
pub fn wrap_error(code: u32) -> (kind: NativeError)
    ensures
        kind == status_kind(code),
        kind == NativeError::NoError <==> code == 0,
{
    match code {
        0 => NativeError::NoError,
        15 => NativeError::ThreadNotAlive,
        50 => NativeError::InvalidMonitor,
        51 => NativeError::NotMonitorOwner,
        99 => NativeError::MustPossessCapability,
        100 => NativeError::NullPointer,
        103 => NativeError::IllegalArgument,
        110 => NativeError::OutOfMemory,
        111 => NativeError::NotEnabled,
        112 => NativeError::NotAvailable,
        113 => NativeError::UnexpectedInternalError,
        115 => NativeError::ThreadNotAttached,
        116 => NativeError::Disconnected,
        999999 => NativeError::NotImplemented,
        _ => NativeError::UnknownError,
    }
}

/// True when `code` is not in the status table, so that `wrap_error` falls
/// back to `UnknownError` and the raw number deserves a log line.
pub fn is_unrecorded_status(code: u32) -> (unrecorded: bool)
    ensures
        unrecorded == (status_kind(code) == NativeError::UnknownError),
{
    match wrap_error(code) {
        NativeError::UnknownError => true,
        _ => false,
    }
}

/// Pair a native status with the value the call produced.
pub fn check_status<T>(code: u32, value: T) -> (outcome: Result<T, NativeError>)
    ensures
        outcome == status_outcome(code, value),
        outcome is Ok <==> code == 0,
        outcome is Err ==> outcome->Err_0 != NativeError::NoError,
{
    match wrap_error(code) {
        NativeError::NoError => Ok(value),
        kind => Err(kind),
    }
}

/// Turn an error kind into a meaningful, user-readable message.
pub fn translate_error(code: &NativeError) -> (message: String)
    ensures
        message@ == error_message(*code),
{
    match code {
        NativeError::NoError => "No error has occurred.",
        NativeError::MustPossessCapability => "The capability being used is false in this environment.",
        NativeError::NullPointer => "Pointer is unexpectedly NULL.",
        NativeError::OutOfMemory => "The function attempted to allocate memory and no more memory was available for allocation.",
        NativeError::NotEnabled => "The desired functionality has not been enabled in this virtual machine.",
        NativeError::NotAvailable => "The desired functionality is not available in the current phase. Always returned if the virtual machine has completed running.",
        NativeError::UnexpectedInternalError => "An unexpected internal error has occurred.",
        NativeError::ThreadNotAttached => "The thread being used to call this function is not attached to the virtual machine. Calls must be made from attached threads.",
        NativeError::Disconnected => "The JVM TI environment provided is no longer connected or is not an environment.",
        NativeError::NotImplemented => "This function is not implemented yet",
        NativeError::UnknownError => "Unknown error.",
        NativeError::ThreadNotAlive => "thread is not live (has not been started or is now dead).",
        NativeError::InvalidMonitor => "Invalid raw monitor.",
        NativeError::NotMonitorOwner => "This thread doesn't own the raw monitor.",
        NativeError::IllegalArgument => "Illegal argument.",
    }.to_string()
}

} // verus!
