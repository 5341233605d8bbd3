//! The binding to the virtual machine itself: asking it for its tooling
//! interface, attaching the current thread, and shutting it down.

use vstd::prelude::*;
use crate::environment::jni::JNIEnvironment;
use crate::environment::jni::NativeInterop;
use crate::environment::jni::JNI;
use crate::environment::jvmti::sound;
use crate::environment::jvmti::JVMTIEnvironment;
use crate::environment::jvmti::NativeTooling;
use crate::environment::jvmti::JVMTI;
use crate::error::check_status;
use crate::error::status_outcome;
use crate::error::NativeError;
use crate::util::has_no_terminator;

verus! {

/// The version of the interop interface that an attached thread asks for.
pub const JNI_VERSION_1_6: i32 = 0x00010006;

/// The version of the tooling interface that an agent asks for.
pub const JVMTI_VERSION_1_2: i32 = 0x30010200;

/// The invocation table of the virtual machine, as plain values see it.
/// Each function makes one native call and returns its status with the
/// interface the call wrote. Nothing is promised of the results.
pub trait NativeVm {
    type Tooling: NativeTooling;

    type Interop: NativeInterop;

    fn get_env(&self, version: i32) -> (u32, Self::Tooling);

    fn destroy_java_vm(&self) -> u32;

    fn attach_current_thread(&self, version: i32, name: &str) -> (u32, Self::Interop)
        requires
            has_no_terminator(name@),
    ;
}

/// What a virtual machine offers to an agent.
pub trait JVMF {
    type Tooling: JVMTI;

    type Interop: JNI;

    /// The tooling interface, where the machine hands one out.
    fn get_environment(&self) -> (result: Result<Self::Tooling, NativeError>)
        ensures
            sound(result),
    ;

    fn destroy(&self) -> (result: Result<(), NativeError>)
        ensures
            sound(result),
    ;

    /// Attaches the current thread under the given name and returns the
    /// interop interface of that thread.
    fn attach_current_thread(&self, thread_name: &str) -> (result: Result<Self::Interop, NativeError>)
        requires
            has_no_terminator(thread_name@),
        ensures
            sound(result),
    ;
}

/// `JVMAgent` represents a binding to the virtual machine.
pub struct JVMAgent<V: NativeVm> {
    pub vm: V,
}

impl<V: NativeVm> JVMAgent<V> {
    /// Create a new `JVMAgent` instance
    pub fn new(vm: V) -> (agent: JVMAgent<V>)
        ensures
            agent.vm == vm,
    {
        JVMAgent { vm }
    }
}

impl<V: NativeVm> JVMF for JVMAgent<V> {
    type Tooling = JVMTIEnvironment<V::Tooling>;

    type Interop = JNIEnvironment<V::Interop>;

    /// Return the tooling environment if available (that is, the current
    /// thread is attached), otherwise the translated status.
    fn get_environment(&self) -> (result: Result<JVMTIEnvironment<V::Tooling>, NativeError>)
        ensures
            exists|raw: (u32, V::Tooling)|
                #[trigger] call_ensures(V::get_env, (&self.vm, JVMTI_VERSION_1_2), raw)
                    && result == status_outcome(raw.0, JVMTIEnvironment { jvmti: raw.1 }),
    {
        let raw = self.vm.get_env(JVMTI_VERSION_1_2);
        let ghost seen = raw;
        let result = check_status(raw.0, JVMTIEnvironment::new(raw.1));
        assert(call_ensures(V::get_env, (&self.vm, JVMTI_VERSION_1_2), seen)
            && result == status_outcome(seen.0, JVMTIEnvironment { jvmti: seen.1 }));
        result
    }

    fn destroy(&self) -> (result: Result<(), NativeError>)
        ensures
            exists|raw: u32|
                #[trigger] call_ensures(V::destroy_java_vm, (&self.vm,), raw)
                    && result == status_outcome::<()>(raw, ()),
    {
        let raw = self.vm.destroy_java_vm();
        let result = check_status(raw, ());
        assert(call_ensures(V::destroy_java_vm, (&self.vm,), raw) && result == status_outcome::<()>(raw, ()));
        result
    }

    fn attach_current_thread(
        &self,
        thread_name: &str,
    ) -> (result: Result<JNIEnvironment<V::Interop>, NativeError>)
        ensures
            exists|raw: (u32, V::Interop)|
                #[trigger] call_ensures(V::attach_current_thread, (&self.vm, JNI_VERSION_1_6, thread_name), raw)
                    && result == status_outcome(raw.0, JNIEnvironment { jni: raw.1 }),
    {
        let raw = self.vm.attach_current_thread(JNI_VERSION_1_6, thread_name);
        let ghost seen = raw;
        let result = check_status(raw.0, JNIEnvironment::new(raw.1));
        assert(call_ensures(V::attach_current_thread, (&self.vm, JNI_VERSION_1_6, thread_name), seen)
            && result == status_outcome(seen.0, JNIEnvironment { jni: seen.1 }));
        result
    }
}

} // verus!
