//! Plain values that stand for what crosses the native boundary: handles,
//! which are addresses the runtime gave out, and strings it allocated.

use vstd::prelude::*;

verus! {

/// A handle to an object of the runtime. Zero is the null handle.
pub type JavaObject = u64;

/// A handle to a class object.
pub type JavaClass = u64;

/// A handle to a thread object.
pub type JavaThread = u64;

/// A handle to a string object.
pub type JavaString = u64;

/// A handle to an array object.
pub type JavaArray = u64;

/// A handle to an array of objects.
pub type JavaObjectArray = u64;

/// The identifier of a method.
pub type JavaMethod = u64;

/// The identifier of a field.
pub type JavaField = u64;

/// The identifier of a raw monitor.
pub type RawMonitor = u64;

/// The address of memory that the runtime allocated.
pub type NativeAddress = u64;

/// The handle that refers to nothing.
pub const NULL_HANDLE: u64 = 0;

/// True for the handle that refers to nothing.
pub open spec fn null_handle(handle: u64) -> bool {
    handle == NULL_HANDLE
}

/// True for the handle that refers to nothing.
pub fn is_null(handle: u64) -> (null: bool)
    ensures
        null == null_handle(handle),
{
    handle == NULL_HANDLE
}

/// A string that the runtime handed out: where it lies, and the bytes that
/// were read there up to the terminator. A null address carries no bytes
/// worth reading.
#[derive(Clone, Debug, PartialEq, Eq)]
pub struct RawString {
    pub address: NativeAddress,
    pub bytes: Vec<u8>,
}

} // verus!
