//! The emulated backend: a provider of the tooling interface that keeps
//! its state in memory, for exercising agents and the callback registry
//! without a runtime attached.

use vstd::prelude::*;
use crate::capabilities::Capabilities;
use crate::class::ClassId;
use crate::class::ClassSignature;
use crate::environment::jni::JNIEnvironment;
use crate::environment::jni::JavaValue;
use crate::environment::jni::NativeInterop;
use crate::environment::jni::FALSE;
use crate::environment::jvm::JVMF;
use crate::environment::jvmti::FrameInfo;
use crate::environment::jvmti::HeapObjectFilter;
use crate::environment::jvmti::JVMTIError;
use crate::environment::jvmti::JVMTI;
use crate::environment::Environment;
use crate::error::NativeError;
use crate::event::EventCallbacks;
use crate::event::VMEvent;
use crate::event_handler::delivery_of;
use crate::event_handler::local_cb_method_entry;
use crate::event_handler::CallbackRegistry;
use crate::event_handler::Delivery;
use crate::event_handler::Payload;
use crate::mem::MemoryAllocation;
use crate::method::MethodSignature;
use crate::native::JavaArray;
use crate::native::JavaClass;
use crate::native::JavaField;
use crate::native::JavaMethod;
use crate::native::JavaObject;
use crate::native::JavaObjectArray;
use crate::native::JavaString;
use crate::native::JavaThread;
use crate::native::NativeAddress;
use crate::native::RawMonitor;
use crate::native::RawString;
use crate::native::NULL_HANDLE;
use crate::runtime::MethodInvocationEvent;
use crate::thread::jvmtiThreadInfo;
use crate::version::VersionNumber;

verus! {

/// The one method identifier the emulator knows: it has an empty name and
/// an empty signature.
pub const SYNTHETIC_METHOD: JavaMethod = 1;

/// The interop table of a process with no runtime attached: every lookup
/// finds nothing, every read gives zero, every release does nothing.
#[derive(Clone, Copy, Debug, PartialEq, Eq, Structural)]
pub struct EmulatedInterop {
}

impl NativeInterop for EmulatedInterop {
    fn get_object_class(&self, object: JavaObject) -> (class: JavaClass)
        ensures
            class == NULL_HANDLE,
    {
        NULL_HANDLE
    }

    fn find_class(&self, name: &str) -> (class: JavaClass)
        ensures
            class == NULL_HANDLE,
    {
        NULL_HANDLE
    }

    fn get_method_id(&self, class: JavaClass, name: &str, signature: &str) -> (method: JavaMethod)
        ensures
            method == NULL_HANDLE,
    {
        NULL_HANDLE
    }

    fn get_static_method_id(&self, class: JavaClass, name: &str, signature: &str) -> (method: JavaMethod)
        ensures
            method == NULL_HANDLE,
    {
        NULL_HANDLE
    }

    fn get_field_id(&self, class: JavaClass, name: &str, signature: &str) -> (field: JavaField)
        ensures
            field == NULL_HANDLE,
    {
        NULL_HANDLE
    }

    fn get_int_field(&self, object: JavaObject, field: JavaField) -> (value: i32)
        ensures
            value == 0,
    {
        0
    }

    fn get_object_field(&self, object: JavaObject, field: JavaField) -> (value: JavaObject)
        ensures
            value == NULL_HANDLE,
    {
        NULL_HANDLE
    }

    fn new_string_utf(&self, text: &str) -> (string: JavaString)
        ensures
            string == NULL_HANDLE,
    {
        NULL_HANDLE
    }

    fn new_object(&self, class: JavaClass, method: JavaMethod, args: &[JavaValue]) -> (object: JavaObject)
        ensures
            object == NULL_HANDLE,
    {
        NULL_HANDLE
    }

    fn is_instance_of(&self, object: JavaObject, class: JavaClass) -> (answer: u8)
        ensures
            answer == FALSE,
    {
        FALSE
    }

    fn is_assignable_from(&self, sub: JavaClass, sup: JavaClass) -> (answer: u8)
        ensures
            answer == FALSE,
    {
        FALSE
    }

    fn call_static_boolean_method(
        &self,
        class: JavaClass,
        method: JavaMethod,
        args: &[JavaValue],
    ) -> (answer: u8)
        ensures
            answer == FALSE,
    {
        FALSE
    }

    fn call_static_object_method(
        &self,
        class: JavaClass,
        method: JavaMethod,
        args: &[JavaValue],
    ) -> (object: JavaObject)
        ensures
            object == NULL_HANDLE,
    {
        NULL_HANDLE
    }

    fn get_string_utf_chars(&self, string: JavaString) -> (chars: RawString)
        ensures
            chars.address == NULL_HANDLE,
            chars.bytes@.len() == 0,
    {
        RawString { address: NULL_HANDLE, bytes: Vec::new() }
    }

    fn release_string_utf_chars(&self, string: JavaString, chars: NativeAddress) {
    }

    fn call_long_method(&self, object: JavaObject, method: JavaMethod, args: &[JavaValue]) -> (value: i64)
        ensures
            value == 0,
    {
        0
    }

    fn call_object_method(
        &self,
        object: JavaObject,
        method: JavaMethod,
        args: &[JavaValue],
    ) -> (value: JavaObject)
        ensures
            value == NULL_HANDLE,
    {
        NULL_HANDLE
    }

    fn delete_local_ref(&self, object: JavaObject) {
    }

    fn new_global_ref(&self, object: JavaObject) -> (reference: JavaObject)
        ensures
            reference == object,
    {
        object
    }

    fn delete_global_ref(&self, object: JavaObject) {
    }

    fn get_array_length(&self, array: JavaArray) -> (length: i32)
        ensures
            length == 0,
    {
        0
    }

    fn get_object_array_element(&self, array: JavaObjectArray, index: i32) -> (element: JavaObject)
        ensures
            element == NULL_HANDLE,
    {
        NULL_HANDLE
    }
}

/// Allows testing of agents by emulating a virtual machine: the
/// capabilities, the callback table and the notification switch of every
/// event kind are kept in memory.
#[derive(Clone, Copy, Debug, PartialEq, Eq)]
pub struct JVMEmulator {
    pub capabilities: Capabilities,
    pub callbacks: EventCallbacks,
    /// The notification switch of each event kind, at the place of the kind.
    pub events: [bool; 19],
}

impl JVMEmulator {
    /// True when notification is switched on for `kind`.
    pub open spec fn enabled(self, kind: VMEvent) -> bool {
        self.events@[kind.spec_index()]
    }

    /// True when events of `kind` are delivered: a callback is registered
    /// for the kind and notification is switched on for it.
    pub open spec fn active(self, kind: VMEvent) -> bool {
        self.callbacks.callback(kind) is Some && self.enabled(kind)
    }

    /// The emulator that holds no capability, has no callback and has every
    /// notification switched off.
    pub fn new() -> (emulator: JVMEmulator)
        ensures
            emulator.capabilities@ == Capabilities::empty(),
            emulator.callbacks == EventCallbacks::empty(),
            forall|kind: VMEvent| !emulator.enabled(kind) && !emulator.active(kind),
    {
        JVMEmulator {
            capabilities: Capabilities::new(),
            callbacks: EventCallbacks::new(),
            events: [false; 19],
        }
    }

    /// True when notification is switched on for `kind`.
    pub fn is_enabled(&self, kind: VMEvent) -> (enabled: bool)
        ensures
            enabled == self.enabled(kind),
    {
        self.events[kind.index()]
    }

    /// True when events of `kind` are delivered.
    pub fn is_active(&self, kind: VMEvent) -> (active: bool)
        ensures
            active == self.active(kind),
    {
        self.callbacks.get(kind).is_some() && self.is_enabled(kind)
    }

    /// Raises a method-entry event that carries the given values. The
    /// callback is to be called once with them where the kind is active,
    /// and nothing is delivered otherwise.
    pub fn emit_method_entry(&self, event: MethodInvocationEvent) -> (delivery: Option<Delivery>)
        ensures
            delivery is Some <==> self.active(VMEvent::MethodEntry),
            self.active(VMEvent::MethodEntry) ==> delivery == delivery_of(self.callbacks, VMEvent::MethodEntry, Payload::MethodInvocation(event)),
    {
        if !self.is_active(VMEvent::MethodEntry) {
            return None;
        }
        match self.callbacks.get(VMEvent::MethodEntry) {
            Some(callback) => Some(
                Delivery { kind: VMEvent::MethodEntry, callback, payload: Payload::MethodInvocation(event) },
            ),
            None => None,
        }
    }

    /// Raises a method-entry event as the runtime would, for the given
    /// thread and method. Where the kind is active the adapter for method
    /// entry runs against this emulator; as the emulator can describe no
    /// thread, the callback is to be called once with the placeholder of
    /// every value. Nothing is delivered otherwise.
    pub fn raise_method_entry(&self, thread: JavaThread, method: JavaMethod) -> (delivery: Option<Delivery>)
        ensures
            delivery is Some <==> self.active(VMEvent::MethodEntry),
            delivery matches Some(made) ==> {
                &&& made.kind == VMEvent::MethodEntry
                &&& Some(made.callback) == self.callbacks.callback(VMEvent::MethodEntry)
                &&& made.payload matches Payload::MethodInvocation(event)
                &&& event.is_unknown()
            },
    {
        if !self.is_active(VMEvent::MethodEntry) {
            return None;
        }
        let registry = CallbackRegistry { callbacks: self.callbacks };
        let env = Environment::new(*self, JNIEnvironment::new(EmulatedInterop {  }));
        local_cb_method_entry(&registry, &env, thread, method)
    }
}

impl JVMF for JVMEmulator {
    type Tooling = JVMEmulator;

    type Interop = JNIEnvironment<EmulatedInterop>;

    fn get_environment(&self) -> (result: Result<JVMEmulator, NativeError>)
        ensures
            result matches Ok(emulator) && emulator.capabilities@ == Capabilities::empty() && emulator.callbacks
                == EventCallbacks::empty() && forall|kind: VMEvent| !emulator.enabled(kind),
    {
        Ok(JVMEmulator::new())
    }

    fn destroy(&self) -> (result: Result<(), NativeError>)
        ensures
            result is Ok,
    {
        Ok(())
    }

    fn attach_current_thread(
        &self,
        thread_name: &str,
    ) -> (result: Result<JNIEnvironment<EmulatedInterop>, NativeError>)
        ensures
            result matches Err(NativeError::NotImplemented),
    {
        Err(NativeError::NotImplemented)
    }
}

impl JVMTI for JVMEmulator {
    /// The capabilities held afterwards are the union of those held before
    /// and those asked for, and they are the result. Nothing else changes.
    open spec fn adds_capabilities(
        &self,
        new_capabilities: Capabilities,
        after: Self,
        result: Result<Capabilities, NativeError>,
    ) -> bool {
        &&& after.capabilities@ == self.capabilities.union(new_capabilities)
        &&& after.callbacks == self.callbacks
        &&& after.events == self.events
        &&& result == Ok::<Capabilities, NativeError>(after.capabilities)
    }

    /// The table held afterwards is the one given, whole. Nothing else
    /// changes, and the call succeeds.
    open spec fn installs_callbacks(
        &self,
        callbacks: EventCallbacks,
        after: Self,
        result: Option<NativeError>,
    ) -> bool {
        &&& after.callbacks == callbacks
        &&& after.capabilities == self.capabilities
        &&& after.events == self.events
        &&& result is None
    }

    /// The switch of the kind is set as asked. The switches of the other
    /// kinds and everything else stay, and the call succeeds.
    open spec fn switches_notification(
        &self,
        event: VMEvent,
        mode: bool,
        after: Self,
        result: Option<NativeError>,
    ) -> bool {
        &&& after.events@ == self.events@.update(event.spec_index(), mode)
        &&& after.capabilities == self.capabilities
        &&& after.callbacks == self.callbacks
        &&& result is None
    }

    fn get_version_number(&self) -> (result: VersionNumber)
        ensures
            result == VersionNumber::spec_unknown(),
    {
        VersionNumber::unknown()
    }

    fn add_capabilities(
        &mut self,
        new_capabilities: &Capabilities,
    ) -> (result: Result<Capabilities, NativeError>) {
        let merged = self.capabilities.merge(new_capabilities);
        self.capabilities = merged;
        Ok(self.capabilities)
    }

    fn get_capabilities(&self) -> (result: Capabilities)
        ensures
            result == self.capabilities,
    {
        self.capabilities
    }

    fn set_event_callbacks(&mut self, callbacks: EventCallbacks) -> (result: Option<NativeError>) {
        self.callbacks = callbacks;
        None
    }

    fn set_event_notification_mode(&mut self, event: VMEvent, mode: bool) -> (result: Option<NativeError>) {
        let index = event.index();
        self.events[index] = mode;
        None
    }

    fn get_thread_info(&self, thread_id: &JavaThread) -> (result: Result<jvmtiThreadInfo, NativeError>)
        ensures
            result == Err::<jvmtiThreadInfo, NativeError>(NativeError::NotImplemented),
    {
        Err(NativeError::NotImplemented)
    }

    fn get_method_declaring_class(&self, method_id: &JavaMethod) -> (result: Result<ClassId, NativeError>)
        ensures
            result == Err::<ClassId, NativeError>(NativeError::NotImplemented),
    {
        Err(NativeError::NotImplemented)
    }

    fn get_method_name(&self, method_id: JavaMethod) -> (result: Result<MethodSignature, NativeError>)
        ensures
            method_id == SYNTHETIC_METHOD ==> (result matches Ok(found) && found.name@ == Seq::<char>::empty() && found.signature@ == Seq::<char>::empty()),
            method_id != SYNTHETIC_METHOD ==> result == Err::<MethodSignature, NativeError>(NativeError::NotImplemented),
    {
        if method_id == SYNTHETIC_METHOD {
            Ok(MethodSignature::new(String::new(), String::new()))
        } else {
            Err(NativeError::NotImplemented)
        }
    }

    fn get_class_signature(&self, class: &JavaClass) -> (result: Result<ClassSignature, NativeError>)
        ensures
            result == Err::<ClassSignature, NativeError>(NativeError::NotImplemented),
    {
        Err(NativeError::NotImplemented)
    }

    fn allocate(&self, len: usize) -> (result: Result<MemoryAllocation, NativeError>)
        ensures
            result == Ok::<MemoryAllocation, NativeError>(MemoryAllocation { ptr: NULL_HANDLE, len }),
    {
        Ok(MemoryAllocation { ptr: NULL_HANDLE, len })
    }

    fn deallocate(&self, mem: NativeAddress) -> (result: Result<(), NativeError>)
        ensures
            result is Ok,
    {
        Ok(())
    }

    fn get_all_threads(&self) -> (result: Result<Vec<JavaThread>, NativeError>)
        ensures
            result == Err::<Vec<JavaThread>, NativeError>(NativeError::NotImplemented),
    {
        Err(NativeError::NotImplemented)
    }

    fn get_local_object(
        &self,
        thread: JavaThread,
        depth: i32,
        slot: i32,
    ) -> (result: Result<JavaObject, NativeError>)
        ensures
            result == Err::<JavaObject, NativeError>(NativeError::NotImplemented),
    {
        Err(NativeError::NotImplemented)
    }

    fn run_agent_thread(
        &self,
        thread: JavaThread,
        proc: NativeAddress,
        arg: NativeAddress,
        priority: i32,
    ) -> (result: Result<(), NativeError>)
        ensures
            result is Ok,
    {
        Ok(())
    }

    fn get_current_thread(&self) -> (result: Result<JavaThread, NativeError>)
        ensures
            result == Err::<JavaThread, NativeError>(NativeError::NotImplemented),
    {
        Err(NativeError::NotImplemented)
    }

    fn get_stack_trace(&self, thread: JavaThread) -> (result: Result<Vec<FrameInfo>, NativeError>)
        ensures
            result == Err::<Vec<FrameInfo>, NativeError>(NativeError::NotImplemented),
    {
        Err(NativeError::NotImplemented)
    }

    fn get_thread_state(&self, thread: JavaThread) -> (result: Result<u32, NativeError>)
        ensures
            result == Err::<u32, NativeError>(NativeError::NotImplemented),
    {
        Err(NativeError::NotImplemented)
    }

    fn add_to_bootstrap_classloader_search(&self, class_path: &str) -> (result: Result<(), NativeError>)
        ensures
            result == Err::<(), NativeError>(NativeError::NotImplemented),
    {
        Err(NativeError::NotImplemented)
    }

    fn raw_monitor_enter(&self, monitor: &RawMonitor) -> (result: Result<(), NativeError>)
        ensures
            result == Err::<(), NativeError>(NativeError::NotImplemented),
    {
        Err(NativeError::NotImplemented)
    }

    fn raw_monitor_exit(&self, monitor: RawMonitor) -> (result: Result<(), NativeError>)
        ensures
            result == Err::<(), NativeError>(NativeError::NotImplemented),
    {
        Err(NativeError::NotImplemented)
    }

    fn create_raw_monitor(&self, name: &str) -> (result: Result<RawMonitor, NativeError>)
        ensures
            result == Err::<RawMonitor, NativeError>(NativeError::NotImplemented),
    {
        Err(NativeError::NotImplemented)
    }

    fn destroy_raw_monitor(&self, monitor: RawMonitor) -> (result: Result<(), NativeError>)
        ensures
            result == Err::<(), NativeError>(NativeError::NotImplemented),
    {
        Err(NativeError::NotImplemented)
    }

    fn retransform_classes(&self, classes: &[JavaClass]) -> (result: Result<(), NativeError>)
        ensures
            result == Err::<(), NativeError>(NativeError::NotImplemented),
    {
        Err(NativeError::NotImplemented)
    }

    fn iterate_over_heap(
        &self,
        object_filter: HeapObjectFilter,
        heap_object_callback: NativeAddress,
        user_data: NativeAddress,
    ) -> (result: Result<(), NativeError>)
        ensures
            result == Err::<(), NativeError>(NativeError::NotImplemented),
    {
        Err(NativeError::NotImplemented)
    }

    fn iterate_over_instances_of_class(
        &self,
        klass: JavaClass,
        object_filter: HeapObjectFilter,
        heap_object_callback: NativeAddress,
        user_data: NativeAddress,
    ) -> (result: Result<(), NativeError>)
        ensures
            result == Err::<(), NativeError>(NativeError::NotImplemented),
    {
        Err(NativeError::NotImplemented)
    }

    fn get_objects_with_tags(&self, tags_list: &[i64]) -> (result: Result<Vec<JavaObject>, JVMTIError>)
        ensures
            result == Err::<Vec<JavaObject>, JVMTIError>(JVMTIError::NativeError(NativeError::NotImplemented)),
    {
        Err(JVMTIError::NativeError(NativeError::NotImplemented))
    }

    fn get_classloader(&self, klass: &JavaClass) -> (result: Result<JavaObject, NativeError>)
        ensures
            result == Err::<JavaObject, NativeError>(NativeError::NotImplemented),
    {
        Err(NativeError::NotImplemented)
    }

    fn get_object_size(&self, object: &JavaObject) -> (result: Result<i64, NativeError>)
        ensures
            result == Err::<i64, NativeError>(NativeError::NotImplemented),
    {
        Err(NativeError::NotImplemented)
    }

    fn get_object_hash_code(&self, object: &JavaObject) -> (result: Result<i32, NativeError>)
        ensures
            result == Err::<i32, NativeError>(NativeError::NotImplemented),
    {
        Err(NativeError::NotImplemented)
    }

    fn get_loaded_classes(&self) -> (result: Result<Vec<JavaClass>, NativeError>)
        ensures
            result == Err::<Vec<JavaClass>, NativeError>(NativeError::NotImplemented),
    {
        Err(NativeError::NotImplemented)
    }

    fn get_class_loader_classes(
        &self,
        initiating_loader: &JavaObject,
    ) -> (result: Result<Vec<JavaClass>, NativeError>)
        ensures
            result == Err::<Vec<JavaClass>, NativeError>(NativeError::NotImplemented),
    {
        Err(NativeError::NotImplemented)
    }

    fn is_array_class(&self, class: &JavaClass) -> (result: Result<bool, NativeError>)
        ensures
            result == Err::<bool, NativeError>(NativeError::NotImplemented),
    {
        Err(NativeError::NotImplemented)
    }

    fn force_garbage_collection(&self) -> (result: Result<(), NativeError>)
        ensures
            result == Err::<(), NativeError>(NativeError::NotImplemented),
    {
        Err(NativeError::NotImplemented)
    }

    fn iterate_over_objects_reachable_from_object(
        &self,
        object: &JavaObject,
        callbck: NativeAddress,
        user_data: NativeAddress,
    ) -> (result: Result<(), NativeError>)
        ensures
            result == Err::<(), NativeError>(NativeError::NotImplemented),
    {
        Err(NativeError::NotImplemented)
    }
}

/// Events of a kind are delivered exactly when the kind has a callback and
/// its notification is switched on, whichever of the two was done first:
/// installing a table and then switching a kind gives the same state of
/// delivery as switching the kind and then installing the table.
pub proof fn lemma_registration_commutes(
    start: JVMEmulator,
    table: EventCallbacks,
    kind: VMEvent,
    mode: bool,
    installed: JVMEmulator,
    installed_then_switched: JVMEmulator,
    switched: JVMEmulator,
    switched_then_installed: JVMEmulator,
)
    requires
        start.installs_callbacks(table, installed, None),
        installed.switches_notification(kind, mode, installed_then_switched, None),
        start.switches_notification(kind, mode, switched, None),
        switched.installs_callbacks(table, switched_then_installed, None),
    ensures
        forall|other: VMEvent| installed_then_switched.active(other) == switched_then_installed.active(other),
        installed_then_switched.active(kind) == (table.callback(kind) is Some && mode),
        forall|other: VMEvent| other != kind ==> installed_then_switched.active(other) == (table.callback(other) is Some && start.enabled(other)),
{
    assert forall|other: VMEvent| other != kind implies other.spec_index() != kind.spec_index() by {
        crate::event::lemma_code_identifies_kind(other, kind);
    }
    assert forall|other: VMEvent| 0 <= #[trigger] other.spec_index() < 19 by {
        crate::event::lemma_code_identifies_kind(other, other);
    }
}

/// Memory that the emulator allocated is released without failure, for
/// every length.
pub proof fn lemma_allocation_round_trip(
    emulator: JVMEmulator,
    len: usize,
    allocated: Result<MemoryAllocation, NativeError>,
    released: Result<(), NativeError>,
)
    requires
        call_ensures(<JVMEmulator as JVMTI>::allocate, (&emulator, len), allocated),
        allocated matches Ok(memory) ==> call_ensures(<JVMEmulator as JVMTI>::deallocate, (&emulator, memory.ptr), released),
    ensures
        allocated matches Ok(memory) && memory.len == len,
        released is Ok,
{
}

/// Adding capabilities to the emulator clears none that it held.
pub proof fn lemma_capabilities_are_retained(
    before: JVMEmulator,
    asked: Capabilities,
    after: JVMEmulator,
    result: Result<Capabilities, NativeError>,
    index: int,
)
    requires
        before.adds_capabilities(asked, after, result),
        0 <= index < 41,
    ensures
        before.capabilities@[index] ==> after.capabilities@[index],
        asked@[index] ==> after.capabilities@[index],
        after.capabilities@[index] ==> before.capabilities@[index] || asked@[index],
{
}

/// Switching notification on without a callback delivers nothing.
pub proof fn lemma_no_callback_no_delivery(emulator: JVMEmulator, kind: VMEvent)
    requires
        emulator.callbacks.callback(kind) is None,
    ensures
        !emulator.active(kind),
{
}

/// Replacing the table stops the delivery of every kind whose slot the new
/// table leaves empty, and of no other kind that is switched on.
pub proof fn lemma_replacing_table(
    before: JVMEmulator,
    table: EventCallbacks,
    after: JVMEmulator,
    kind: VMEvent,
)
    requires
        before.installs_callbacks(table, after, None),
    ensures
        after.active(kind) == (table.callback(kind) is Some && before.enabled(kind)),
{
}

} // verus!
