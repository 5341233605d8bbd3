//! The values that callbacks receive when an event is delivered.

use vstd::prelude::*;
use crate::class::ClassSignature;
use crate::method::MethodId;
use crate::method::MethodSignature;
use crate::native::JavaClass;
use crate::thread::Thread;

verus! {

/// Marks the values that describe an event of the runtime.
pub trait RuntimeEvent {
}

/// An object was allocated.
#[derive(Debug, PartialEq, Eq)]
pub struct ObjectAllocationEvent {
    pub class_id: JavaClass,
    pub thread: Thread,
    pub size: i64,
}

/// An object was freed.
#[derive(Debug, PartialEq, Eq)]
pub struct ObjectFreeEvent {
}

/// A method was entered or left.
#[derive(Debug, PartialEq, Eq)]
pub struct MethodInvocationEvent {
    pub method_id: MethodId,
    pub method_sig: MethodSignature,
    pub class_sig: ClassSignature,
    pub thread: Thread,
}

impl MethodInvocationEvent {
    /// True when every part is the placeholder of an unresolved value.
    pub open spec fn is_unknown(self) -> bool {
        &&& self.method_id == MethodId::spec_unknown()
        &&& self.method_sig.is_unknown()
        &&& self.class_sig.is_unknown()
        &&& self.thread.is_unknown()
    }

    /// The event whose every part is the placeholder of an unresolved
    /// value.
    pub fn unknown() -> (event: MethodInvocationEvent)
        ensures
            event.is_unknown(),
    {
        MethodInvocationEvent {
            method_id: MethodId::unknown(),
            method_sig: MethodSignature::unknown(),
            class_sig: ClassSignature::unknown(),
            thread: Thread::unknown(),
        }
    }
}

impl RuntimeEvent for ObjectAllocationEvent {
}

impl RuntimeEvent for MethodInvocationEvent {
}

/// The bytes of a class are about to be loaded.
#[derive(Debug, PartialEq, Eq)]
pub struct ClassFileLoadEvent {
    pub class_name: String,
    pub class_data: Vec<u8>,
}

impl RuntimeEvent for ClassFileLoadEvent {
}

} // verus!
