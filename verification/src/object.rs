//! References to objects of the runtime and the rules of their lifetime.

use vstd::prelude::*;
use crate::environment::jni::JNIError;
use crate::environment::jni::JNI;
use crate::native::null_handle;
use crate::native::JavaObject;
use crate::native::NULL_HANDLE;

verus! {

/// How long a reference stays valid.
#[derive(Clone, Copy, Debug, PartialEq, Eq, Structural)]
pub enum ReferenceKind {
    /// Valid for the native call or callback that produced it, and to be
    /// released before that call returns.
    Local,
    /// Promoted to outlive the call that produced it, and to be released
    /// explicitly later.
    Global,
}

/// An opaque wrapper around a native object handle, with the kind of
/// reference it is. Two of them are equal when handle and kind are.
#[derive(Clone, Copy, Debug, PartialEq, Eq, Structural)]
pub struct ObjectRef {
    pub native_id: JavaObject,
    pub kind: ReferenceKind,
}

impl ObjectRef {
    /// The local reference that the handle of a native call is.
    pub fn local(native_id: JavaObject) -> (reference: ObjectRef)
        ensures
            reference == (ObjectRef { native_id, kind: ReferenceKind::Local }),
    {
        ObjectRef { native_id, kind: ReferenceKind::Local }
    }

    /// The reference that stands for an object that could not be resolved.
    pub open spec fn spec_unknown() -> ObjectRef {
        ObjectRef { native_id: NULL_HANDLE, kind: ReferenceKind::Local }
    }

    /// The reference that stands for an object that could not be resolved.
    pub fn unknown() -> (reference: ObjectRef)
        ensures
            reference == ObjectRef::spec_unknown(),
    {
        ObjectRef { native_id: NULL_HANDLE, kind: ReferenceKind::Local }
    }

    /// Promotes the reference to a global one through the interface. A null
    /// reference is refused without a call. The reference itself stays as it
    /// is and still has to be released.
    pub fn promote<I: JNI>(&self, env: &I) -> (result: Result<ObjectRef, JNIError>)
        ensures
            null_handle(self.native_id) ==> result matches Err(JNIError::ObjectIsNull),
            !null_handle(self.native_id) ==> exists|promoted: JavaObject| #[trigger]
                call_ensures(I::new_global_ref, (env, &self.native_id), Ok::<JavaObject, JNIError>(promoted))
                    && result == Ok::<ObjectRef, JNIError>(ObjectRef { native_id: promoted, kind: ReferenceKind::Global }),
    {
        match env.new_global_ref(&self.native_id) {
            Ok(promoted) => {
                let result = Ok(ObjectRef { native_id: promoted, kind: ReferenceKind::Global });
                assert(call_ensures(I::new_global_ref, (env, &self.native_id), Ok::<JavaObject, JNIError>(promoted)));
                result
            },
            Err(error) => Err(error),
        }
    }

    /// Releases the reference through the operation that matches its kind:
    /// a local reference as a local one, a global reference as a global
    /// one. A null reference is refused without a call.
    pub fn release<I: JNI>(self, env: &I) -> (result: Result<(), JNIError>)
        ensures
            null_handle(self.native_id) ==> result matches Err(JNIError::ObjectIsNull),
            !null_handle(self.native_id) ==> result is Ok,
            self.kind == ReferenceKind::Local ==> call_ensures(I::delete_local_ref, (env, &self.native_id), result),
            self.kind == ReferenceKind::Global ==> call_ensures(I::delete_global_ref, (env, &self.native_id), result),
    {
        match self.kind {
            ReferenceKind::Local => env.delete_local_ref(&self.native_id),
            ReferenceKind::Global => env.delete_global_ref(&self.native_id),
        }
    }
}

} // verus!
