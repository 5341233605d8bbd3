//! Buffers obtained from the runtime's own allocator.

use vstd::prelude::*;
use crate::environment::jvmti::sound;
use crate::environment::jvmti::JVMTI;
use crate::error::NativeError;
use crate::native::NativeAddress;

verus! {

/// A buffer that the runtime allocated. It is released through the
/// runtime's deallocate operation only; the length is carried along and is
/// not used for bounds checks.
#[derive(Clone, Copy, Debug, PartialEq, Eq, Structural)]
pub struct MemoryAllocation {
    pub ptr: NativeAddress,
    pub len: usize,
}

impl MemoryAllocation {
    /// Releases the buffer through the deallocate operation of the provider
    /// that allocated it.
    pub fn release<T: JVMTI>(self, env: &T) -> (result: Result<(), NativeError>)
        ensures
            call_ensures(T::deallocate, (env, self.ptr), result),
            sound(result),
    {
        env.deallocate(self.ptr)
    }
}

} // verus!
