//! Thread identifiers and the description resolved for a thread.

use vstd::prelude::*;
use crate::native::JavaObject;
use crate::native::JavaThread;
use crate::native::RawString;
use crate::native::NULL_HANDLE;

verus! {

/// An opaque wrapper around a native thread handle. Two of them are equal
/// when the handles are.
#[derive(Clone, Copy, Debug, PartialEq, Eq, Structural)]
pub struct ThreadId {
    pub native_id: JavaThread,
}

impl ThreadId {
    pub fn new(native_id: JavaThread) -> (id: ThreadId)
        ensures
            id.native_id == native_id,
    {
        ThreadId { native_id }
    }

    /// The identifier that stands for a thread that could not be resolved.
    pub open spec fn spec_unknown() -> ThreadId {
        ThreadId { native_id: NULL_HANDLE }
    }

    /// The identifier that stands for a thread that could not be resolved.
    pub fn unknown() -> (id: ThreadId)
        ensures
            id == ThreadId::spec_unknown(),
    {
        ThreadId { native_id: NULL_HANDLE }
    }
}

/// What is known of a thread once its description has been resolved.
#[derive(Clone, Debug, PartialEq, Eq)]
pub struct Thread {
    pub id: ThreadId,
    pub name: String,
    pub priority: u32,
    pub is_daemon: bool,
}

impl Thread {
    /// True for the placeholder of an unresolved thread.
    pub open spec fn is_unknown(self) -> bool {
        &&& self.id == ThreadId::spec_unknown()
        &&& self.name@ == "<UNKNOWN THREAD>"@
        &&& self.priority == 0
        &&& !self.is_daemon
    }

    /// The thread that stands for one that could not be resolved.
    pub fn unknown() -> (thread: Thread)
        ensures
            thread.is_unknown(),
    {
        Thread {
            id: ThreadId::unknown(),
            name: "<UNKNOWN THREAD>".to_string(),
            priority: 0,
            is_daemon: false,
        }
    }
}

/// The description of a thread as the runtime writes it. The name and the
/// two handles are the runtime's: they are released once the description
/// has been read.
#[allow(non_camel_case_types)]
#[derive(Clone, Debug, PartialEq, Eq)]
pub struct jvmtiThreadInfo {
    pub name: RawString,
    pub priority: i32,
    pub is_daemon: u8,
    pub thread_group: JavaObject,
    pub context_class_loader: JavaObject,
}

} // verus!
