//! The tooling interface: capability negotiation, event subscription and
//! introspection of threads, classes, methods and the heap. Every operation
//! makes its native calls, translates each status at once, and looks at no
//! output of a call that failed.

use vstd::prelude::*;
use crate::capabilities::Capabilities;
use crate::capabilities::NativeCapabilities;
use crate::capabilities::CAPABILITY_COUNT;
use crate::class::is_descriptor;
use crate::class::ClassId;
use crate::class::ClassSignature;
use crate::class::JavaType;
use crate::environment::jni::TRUE;
use crate::error::check_status;
use crate::error::status_kind;
use crate::error::status_outcome;
use crate::error::wrap_error;
use crate::error::NativeError;
use crate::event::EventCallbacks;
use crate::event::NativeEventCallbacks;
use crate::event::VMEvent;
use crate::mem::MemoryAllocation;
use crate::method::MethodSignature;
use crate::native::is_null;
use crate::native::null_handle;
use crate::native::JavaClass;
use crate::native::JavaMethod;
use crate::native::JavaObject;
use crate::native::JavaThread;
use crate::native::NativeAddress;
use crate::native::RawMonitor;
use crate::native::RawString;
use crate::native::NULL_HANDLE;
use crate::thread::jvmtiThreadInfo;
use crate::util::has_no_terminator;
use crate::util::stringified;
use crate::util::stringify;
use crate::version::VersionNumber;

verus! {

/// The bits of a thread state that tell the state of the thread as the
/// language sees it.
pub const THREAD_STATE_MASK: u32 = 0x04B7;

/// The greatest number of frames one stack trace holds.
pub const MAX_STACK_FRAMES: i32 = 1024;

/// An error of the tooling interface.
#[derive(Clone, Copy, Debug, PartialEq, Eq, Structural)]
pub enum JVMTIError {
    NativeError(NativeError),
}

/// Which objects a walk over the heap visits.
#[derive(Clone, Copy, Debug, PartialEq, Eq, Structural)]
pub enum HeapObjectFilter {
    Tagged,
    Untagged,
    Either,
}

impl HeapObjectFilter {
    /// The number by which the runtime knows the filter.
    pub open spec fn spec_code(self) -> u32 {
        match self {
            HeapObjectFilter::Tagged => 1,
            HeapObjectFilter::Untagged => 2,
            HeapObjectFilter::Either => 3,
        }
    }

    /// The number by which the runtime knows the filter.
    pub fn code(self) -> (code: u32)
        ensures
            code == self.spec_code(),
    {
        match self {
            HeapObjectFilter::Tagged => 1,
            HeapObjectFilter::Untagged => 2,
            HeapObjectFilter::Either => 3,
        }
    }
}

/// One frame of a stack trace: the method that runs in it and the place it
/// has reached.
#[derive(Clone, Copy, Debug, PartialEq, Eq, Structural)]
pub struct FrameInfo {
    pub method: JavaMethod,
    pub location: i64,
}

/// The function table of the tooling interface, as plain values see it.
/// Each function makes one native call and returns the status of the call
/// with what the call wrote. Nothing is promised of the results: they are
/// the runtime's.
pub trait NativeTooling {
    fn get_version_number(&self) -> (u32, i32);

    fn add_capabilities(&self, capabilities: &NativeCapabilities) -> u32;

    fn get_capabilities(&self) -> (u32, NativeCapabilities);

    fn set_event_callbacks(&self, callbacks: &NativeEventCallbacks) -> u32;

    fn set_event_notification_mode(&self, mode: u32, event: u32, thread: JavaThread) -> u32;

    fn get_thread_info(&self, thread: JavaThread) -> (u32, jvmtiThreadInfo);

    fn get_thread_state(&self, thread: JavaThread) -> (u32, i32);

    fn get_method_declaring_class(&self, method: JavaMethod) -> (u32, JavaClass);

    fn get_method_name(&self, method: JavaMethod) -> (u32, RawString, RawString, RawString);

    fn get_class_signature(&self, class: JavaClass) -> (u32, RawString, RawString);

    fn allocate(&self, size: i64) -> (u32, NativeAddress);

    fn deallocate(&self, memory: NativeAddress) -> u32;

    fn get_all_threads(&self) -> (u32, Vec<JavaThread>);

    fn run_agent_thread(
        &self,
        thread: JavaThread,
        procedure: NativeAddress,
        argument: NativeAddress,
        priority: i32,
    ) -> u32;

    fn get_stack_trace(&self, thread: JavaThread, start_depth: i32, max_frames: i32) -> (u32, Vec<FrameInfo>);

    fn get_local_object(&self, thread: JavaThread, depth: i32, slot: i32) -> (u32, JavaObject);

    fn add_to_bootstrap_class_loader_search(&self, segment: &str) -> u32
        requires
            has_no_terminator(segment@),
    ;

    fn raw_monitor_enter(&self, monitor: RawMonitor) -> u32;

    fn raw_monitor_exit(&self, monitor: RawMonitor) -> u32;

    fn create_raw_monitor(&self, name: &str) -> (u32, RawMonitor)
        requires
            has_no_terminator(name@),
    ;

    fn destroy_raw_monitor(&self, monitor: RawMonitor) -> u32;

    fn retransform_classes(&self, classes: &[JavaClass]) -> u32;

    fn iterate_over_heap(&self, filter: u32, callback: NativeAddress, user_data: NativeAddress) -> u32;

    fn iterate_over_instances_of_class(
        &self,
        class: JavaClass,
        filter: u32,
        callback: NativeAddress,
        user_data: NativeAddress,
    ) -> u32;

    fn get_objects_with_tags(&self, tags: &[i64]) -> (u32, Vec<JavaObject>);

    fn get_current_thread(&self) -> (u32, JavaThread);

    fn get_class_loader(&self, class: JavaClass) -> (u32, JavaObject);

    fn get_object_size(&self, object: JavaObject) -> (u32, i64);

    fn get_object_hash_code(&self, object: JavaObject) -> (u32, i32);

    fn get_loaded_classes(&self) -> (u32, Vec<JavaClass>);

    fn get_class_loader_classes(&self, loader: JavaObject) -> (u32, Vec<JavaClass>);

    fn is_array_class(&self, class: JavaClass) -> (u32, u8);

    fn force_garbage_collection(&self) -> u32;

    fn iterate_over_objects_reachable_from_object(
        &self,
        object: JavaObject,
        callback: NativeAddress,
        user_data: NativeAddress,
    ) -> u32;
}

/// True when `result` carries no failure that claims to be a success.
pub open spec fn sound<T>(result: Result<T, NativeError>) -> bool {
    result matches Err(kind) ==> kind != NativeError::NoError
}

/// True when `result` carries no failure that claims to be a success.
pub open spec fn sound_status(result: Option<NativeError>) -> bool {
    result matches Some(kind) ==> kind != NativeError::NoError
}

/// The operations the runtime offers through its tooling interface. An
/// operation that fails says so with the translated status of the call that
/// failed; no failure is ever reported as `NoError`.
pub trait JVMTI: Sized {
    /// What `add_capabilities` did: how the provider `after` the call and
    /// the result relate to the provider before it and to the request.
    spec fn adds_capabilities(
        &self,
        new_capabilities: Capabilities,
        after: Self,
        result: Result<Capabilities, NativeError>,
    ) -> bool;

    /// What `set_event_callbacks` did: how the provider `after` the call
    /// and the result relate to the provider before it and to the table.
    spec fn installs_callbacks(
        &self,
        callbacks: EventCallbacks,
        after: Self,
        result: Option<NativeError>,
    ) -> bool;

    /// What `set_event_notification_mode` did: how the provider `after` the
    /// call and the result relate to the provider before it and to the
    /// request.
    spec fn switches_notification(
        &self,
        event: VMEvent,
        mode: bool,
        after: Self,
        result: Option<NativeError>,
    ) -> bool;

    /// Return the version number of the tooling interface, which includes
    /// major, minor and micro version numbers.
    fn get_version_number(&self) -> (result: VersionNumber);

    /// Set new capabilities by adding the capabilities whose values are set
    /// to true in `new_capabilities`. All previous capabilities are retained.
    fn add_capabilities(
        &mut self,
        new_capabilities: &Capabilities,
    ) -> (result: Result<Capabilities, NativeError>)
        ensures
            sound(result),
            old(self).adds_capabilities(*new_capabilities, *final(self), result),
    ;

    /// The capabilities held now, as a value of its own.
    fn get_capabilities(&self) -> (result: Capabilities);

    /// Set the callbacks to be called for each event, by supplying a
    /// replacement table. This is an atomic action: all callbacks are set at
    /// once. No events are sent before this is called. When an entry is None
    /// no event is sent. An event must be enabled and have a callback in
    /// order to be sent; the order in which this and
    /// `set_event_notification_mode` are called does not affect the result.
    fn set_event_callbacks(&mut self, callbacks: EventCallbacks) -> (result: Option<NativeError>)
        ensures
            sound_status(result),
            old(self).installs_callbacks(callbacks, *final(self), result),
    ;

    /// Switch the sending of one kind of event on or off.
    fn set_event_notification_mode(&mut self, event: VMEvent, mode: bool) -> (result: Option<NativeError>)
        ensures
            sound_status(result),
            old(self).switches_notification(event, mode, *final(self), result),
    ;

    fn get_thread_info(&self, thread_id: &JavaThread) -> (result: Result<jvmtiThreadInfo, NativeError>)
        ensures
            sound(result),
    ;

    fn get_method_declaring_class(&self, method_id: &JavaMethod) -> (result: Result<ClassId, NativeError>)
        ensures
            sound(result),
    ;

    fn get_method_name(&self, method_id: JavaMethod) -> (result: Result<MethodSignature, NativeError>)
        ensures
            sound(result),
    ;

    fn get_class_signature(&self, class: &JavaClass) -> (result: Result<ClassSignature, NativeError>)
        ensures
            sound(result),
    ;

    fn allocate(&self, len: usize) -> (result: Result<MemoryAllocation, NativeError>)
        ensures
            sound(result),
    ;

    fn deallocate(&self, mem: NativeAddress) -> (result: Result<(), NativeError>)
        ensures
            sound(result),
    ;

    fn get_all_threads(&self) -> (result: Result<Vec<JavaThread>, NativeError>)
        ensures
            sound(result),
    ;

    fn get_local_object(
        &self,
        thread: JavaThread,
        depth: i32,
        slot: i32,
    ) -> (result: Result<JavaObject, NativeError>)
        ensures
            sound(result),
    ;

    fn run_agent_thread(
        &self,
        thread: JavaThread,
        proc: NativeAddress,
        arg: NativeAddress,
        priority: i32,
    ) -> (result: Result<(), NativeError>)
        ensures
            sound(result),
    ;

    fn get_current_thread(&self) -> (result: Result<JavaThread, NativeError>)
        ensures
            sound(result),
    ;

    fn get_stack_trace(&self, thread: JavaThread) -> (result: Result<Vec<FrameInfo>, NativeError>)
        ensures
            sound(result),
    ;

    fn get_thread_state(&self, thread: JavaThread) -> (result: Result<u32, NativeError>)
        ensures
            sound(result),
    ;

    fn add_to_bootstrap_classloader_search(&self, class_path: &str) -> (result: Result<(), NativeError>)
        requires
            has_no_terminator(class_path@),
        ensures
            sound(result),
    ;

    fn raw_monitor_enter(&self, monitor: &RawMonitor) -> (result: Result<(), NativeError>)
        ensures
            sound(result),
    ;

    fn raw_monitor_exit(&self, monitor: RawMonitor) -> (result: Result<(), NativeError>)
        ensures
            sound(result),
    ;

    fn create_raw_monitor(&self, name: &str) -> (result: Result<RawMonitor, NativeError>)
        requires
            has_no_terminator(name@),
        ensures
            sound(result),
    ;

    fn destroy_raw_monitor(&self, monitor: RawMonitor) -> (result: Result<(), NativeError>)
        ensures
            sound(result),
    ;

    fn retransform_classes(&self, classes: &[JavaClass]) -> (result: Result<(), NativeError>)
        ensures
            sound(result),
    ;

    fn iterate_over_heap(
        &self,
        object_filter: HeapObjectFilter,
        heap_object_callback: NativeAddress,
        user_data: NativeAddress,
    ) -> (result: Result<(), NativeError>)
        ensures
            sound(result),
    ;

    fn iterate_over_instances_of_class(
        &self,
        klass: JavaClass,
        object_filter: HeapObjectFilter,
        heap_object_callback: NativeAddress,
        user_data: NativeAddress,
    ) -> (result: Result<(), NativeError>)
        ensures
            sound(result),
    ;

    fn get_objects_with_tags(&self, tags_list: &[i64]) -> (result: Result<Vec<JavaObject>, JVMTIError>)
        ensures
            result matches Err(JVMTIError::NativeError(kind)) ==> kind != NativeError::NoError,
    ;

    fn get_classloader(&self, klass: &JavaClass) -> (result: Result<JavaObject, NativeError>)
        ensures
            sound(result),
    ;

    fn get_object_size(&self, object: &JavaObject) -> (result: Result<i64, NativeError>)
        ensures
            sound(result),
    ;

    fn get_object_hash_code(&self, object: &JavaObject) -> (result: Result<i32, NativeError>)
        ensures
            sound(result),
    ;

    fn get_loaded_classes(&self) -> (result: Result<Vec<JavaClass>, NativeError>)
        ensures
            sound(result),
    ;

    fn get_class_loader_classes(
        &self,
        initiating_loader: &JavaObject,
    ) -> (result: Result<Vec<JavaClass>, NativeError>)
        ensures
            sound(result),
    ;

    fn is_array_class(&self, class: &JavaClass) -> (result: Result<bool, NativeError>)
        ensures
            sound(result),
    ;

    fn force_garbage_collection(&self) -> (result: Result<(), NativeError>)
        ensures
            sound(result),
    ;

    fn iterate_over_objects_reachable_from_object(
        &self,
        object: &JavaObject,
        callbck: NativeAddress,
        user_data: NativeAddress,
    ) -> (result: Result<(), NativeError>)
        ensures
            sound(result),
    ;
}

/// What `get_method_name` returns for a call that ended in `status` and
/// wrote `name` and `signature`, when releasing the strings ended in
/// `released`: the texts of the two strings, or the first status that is
/// not zero.
pub open spec fn method_name_outcome(
    status: u32,
    name: RawString,
    signature: RawString,
    released: u32,
    result: Result<MethodSignature, NativeError>,
) -> bool {
    if status != 0 {
        result == Err::<MethodSignature, NativeError>(status_kind(status))
    } else if released != 0 {
        result == Err::<MethodSignature, NativeError>(status_kind(released))
    } else {
        result matches Ok(found) && found.name@ == stringified(name) && found.signature@ == stringified(signature)
    }
}

/// What `get_class_signature` returns for a call that ended in `status` and
/// wrote `signature`, when releasing the strings ended in `released`: the
/// type that the text of the string names together with that text; the
/// first status that is not zero; or an internal error when the text is no
/// type descriptor.
pub open spec fn class_signature_outcome(
    status: u32,
    signature: RawString,
    released: u32,
    result: Result<ClassSignature, NativeError>,
) -> bool {
    if status != 0 {
        result == Err::<ClassSignature, NativeError>(status_kind(status))
    } else if released != 0 {
        result == Err::<ClassSignature, NativeError>(status_kind(released))
    } else if !is_descriptor(stringified(signature)) {
        result == Err::<ClassSignature, NativeError>(NativeError::UnexpectedInternalError)
    } else {
        result matches Ok(found) && found.signature@ == stringified(signature) && found.java_type.descriptor() == stringified(signature)
    }
}

/// The method signature that two native strings amount to.
pub fn method_name_result(
    status: u32,
    name: &RawString,
    signature: &RawString,
    released: u32,
) -> (result: Result<MethodSignature, NativeError>)
    ensures
        method_name_outcome(status, *name, *signature, released, result),
        sound(result),
{
    if status != 0 {
        Err(wrap_error(status))
    } else if released != 0 {
        Err(wrap_error(released))
    } else {
        Ok(MethodSignature::new(stringify(name), stringify(signature)))
    }
}

/// The class signature that a native string amounts to.
pub fn class_signature_result(
    status: u32,
    signature: &RawString,
    released: u32,
) -> (result: Result<ClassSignature, NativeError>)
    ensures
        class_signature_outcome(status, *signature, released, result),
        sound(result),
{
    if status != 0 {
        Err(wrap_error(status))
    } else if released != 0 {
        Err(wrap_error(released))
    } else {
        let text = stringify(signature);
        match JavaType::parse(text.as_str()) {
            Some(java_type) => Ok(ClassSignature::new(java_type, text)),
            None => Err(NativeError::UnexpectedInternalError),
        }
    }
}

/// The capabilities that a native answer amounts to: those the bit vector
/// carries when the call succeeded, none otherwise.
pub open spec fn capabilities_outcome(status: u32, native: NativeCapabilities, result: Capabilities) -> bool {
    if status == 0 {
        forall|index: int| 0 <= index < CAPABILITY_COUNT ==> result@[index] == native.bit(index)
    } else {
        result@ == Capabilities::empty()
    }
}

/// Reads the capabilities out of a native answer.
pub fn capabilities_result(status: u32, native: &NativeCapabilities) -> (result: Capabilities)
    ensures
        capabilities_outcome(status, *native, result),
{
    if status == 0 {
        Capabilities::from_native(native)
    } else {
        Capabilities::new()
    }
}

/// The state of a thread as the language sees it, cut out of the native
/// thread state.
pub open spec fn language_thread_state(state: i32) -> u32 {
    (state as u32) & THREAD_STATE_MASK
}

/// The number that switches the sending of an event on or off.
pub open spec fn mode_code(mode: bool) -> u32 {
    if mode {
        1
    } else {
        0
    }
}

/// What looking objects up by their tags amounts to: the objects when the
/// status is zero, the translated status otherwise.
pub open spec fn tagged_outcome(status: u32, objects: Vec<JavaObject>) -> Result<Vec<JavaObject>, JVMTIError> {
    if status == 0 {
        Ok(objects)
    } else {
        Err(JVMTIError::NativeError(status_kind(status)))
    }
}

/// The report of a call that returns nothing but its status.
pub open spec fn status_report(status: u32) -> Option<NativeError> {
    if status == 0 {
        None
    } else {
        Some(status_kind(status))
    }
}

/// The tooling interface of a running process.
pub struct JVMTIEnvironment<N: NativeTooling> {
    pub jvmti: N,
}

impl<N: NativeTooling> JVMTIEnvironment<N> {
    pub fn new(env_ptr: N) -> (environment: JVMTIEnvironment<N>)
        ensures
            environment.jvmti == env_ptr,
    {
        JVMTIEnvironment { jvmti: env_ptr }
    }

    /// Releases a string of the runtime; nothing is done for the null
    /// address. Returns the status of the release.
    fn release(&self, text: &RawString) -> (status: u32)
        ensures
            null_handle(text.address) ==> status == 0,
            !null_handle(text.address) ==> call_ensures(N::deallocate, (&self.jvmti, text.address), status),
            release_status(&self.jvmti, *text, status),
    {
        if is_null(text.address) {
            0
        } else {
            self.jvmti.deallocate(text.address)
        }
    }
}

/// True when `released` is a status that releasing `text` through `table`
/// can end in: zero, without a call, for the null address.
pub open spec fn release_status<N: NativeTooling>(table: &N, text: RawString, released: u32) -> bool {
    if null_handle(text.address) {
        released == 0
    } else {
        call_ensures(N::deallocate, (table, text.address), released)
    }
}

/// True when `released` is what releasing the strings one after the other
/// can end in: the first status that is not zero, or zero.
pub open spec fn release_outcome<N: NativeTooling>(table: &N, texts: Seq<RawString>, released: u32) -> bool {
    exists|statuses: Seq<u32>|
        {
            &&& statuses.len() == texts.len()
            &&& forall|at: int| 0 <= at < texts.len() ==> release_status(table, texts[at], #[trigger] statuses[at])
            &&& released == first_failure(statuses)
        }
}

/// The first status of the sequence that is not zero, or zero.
pub open spec fn first_failure(statuses: Seq<u32>) -> u32
    decreases statuses.len(),
{
    if statuses.len() == 0 {
        0
    } else if statuses[0] != 0 {
        statuses[0]
    } else {
        first_failure(statuses.subrange(1, statuses.len() as int))
    }
}

/// A status that is not zero is never reported as a success, and the value
/// of the call is dropped.
pub proof fn lemma_failure_is_surfaced<T>(status: u32, value: T)
    requires
        status != 0,
    ensures
        status_outcome(status, value) == Err::<T, NativeError>(status_kind(status)),
        status_kind(status) != NativeError::NoError,
        status_report(status) == Some(status_kind(status)),
{
}

impl<N: NativeTooling> JVMTI for JVMTIEnvironment<N> {
    /// The request was handed to the runtime as its bit vector. When the
    /// runtime refused it the result is the refusal; otherwise the result is
    /// what the runtime then reported as held.
    open spec fn adds_capabilities(
        &self,
        new_capabilities: Capabilities,
        after: Self,
        result: Result<Capabilities, NativeError>,
    ) -> bool {
        &&& after.jvmti == self.jvmti
        &&& exists|native: NativeCapabilities, status: u32|
            {
                &&& native.encodes(new_capabilities)
                &&& #[trigger] call_ensures(N::add_capabilities, (&self.jvmti, &native), status)
                &&& status != 0 ==> result == Err::<Capabilities, NativeError>(status_kind(status))
                &&& status == 0 ==> (result matches Ok(held) && exists|answer: (u32, NativeCapabilities)|
                    #[trigger] call_ensures(N::get_capabilities, (&self.jvmti,), answer)
                        && capabilities_outcome(answer.0, answer.1, held))
            }
    }

    /// The runtime was handed the native table in which exactly the kinds
    /// with a callback are wired; the result is the status of that call.
    open spec fn installs_callbacks(
        &self,
        callbacks: EventCallbacks,
        after: Self,
        result: Option<NativeError>,
    ) -> bool {
        &&& after.jvmti == self.jvmti
        &&& exists|native: NativeEventCallbacks, status: u32|
            {
                &&& forall|slot: int| 0 <= slot < 35 ==> native.wired@[slot] == callbacks.wires_slot(slot)
                &&& #[trigger] call_ensures(N::set_event_callbacks, (&self.jvmti, &native), status)
                &&& result == status_report(status)
            }
    }

    /// The runtime was asked to switch the kind on or off for all threads;
    /// the result is the status of that call.
    open spec fn switches_notification(
        &self,
        event: VMEvent,
        mode: bool,
        after: Self,
        result: Option<NativeError>,
    ) -> bool {
        &&& after.jvmti == self.jvmti
        &&& exists|status: u32|
            #[trigger] call_ensures(
                N::set_event_notification_mode,
                (&self.jvmti, mode_code(mode), event.spec_code(), NULL_HANDLE),
                status,
            ) && result == status_report(status)
    }

    fn get_version_number(&self) -> (result: VersionNumber)
        ensures
            exists|raw: (u32, i32)|
                #[trigger] call_ensures(N::get_version_number, (&self.jvmti,), raw)
                    && result == VersionNumber::unpacked(raw.1 as u32),
    {
        let raw = self.jvmti.get_version_number();
        let packed: u32 = raw.1 as u32;
        let result = VersionNumber::from_u32(&packed);
        assert(call_ensures(N::get_version_number, (&self.jvmti,), raw)
            && result == VersionNumber::unpacked(raw.1 as u32));
        result
    }

    fn add_capabilities(
        &mut self,
        new_capabilities: &Capabilities,
    ) -> (result: Result<Capabilities, NativeError>) {
        let native = new_capabilities.to_native();
        let status = self.jvmti.add_capabilities(&native);
        let result = match wrap_error(status) {
            NativeError::NoError => Ok(self.get_capabilities()),
            kind => Err(kind),
        };
        assert(native.encodes(*new_capabilities)
            && call_ensures(N::add_capabilities, (&self.jvmti, &native), status));
        result
    }

    fn get_capabilities(&self) -> (result: Capabilities)
        ensures
            exists|answer: (u32, NativeCapabilities)|
                #[trigger] call_ensures(N::get_capabilities, (&self.jvmti,), answer)
                    && capabilities_outcome(answer.0, answer.1, result),
    {
        let answer = self.jvmti.get_capabilities();
        let result = capabilities_result(answer.0, &answer.1);
        assert(call_ensures(N::get_capabilities, (&self.jvmti,), answer)
            && capabilities_outcome(answer.0, answer.1, result));
        result
    }

    fn set_event_callbacks(&mut self, callbacks: EventCallbacks) -> (result: Option<NativeError>) {
        let native = callbacks.to_native();
        let status = self.jvmti.set_event_callbacks(&native);
        let result = match wrap_error(status) {
            NativeError::NoError => None,
            kind => Some(kind),
        };
        assert(call_ensures(N::set_event_callbacks, (&self.jvmti, &native), status)
            && result == status_report(status));
        result
    }

    fn set_event_notification_mode(&mut self, event: VMEvent, mode: bool) -> (result: Option<NativeError>) {
        let mode_i: u32 = if mode {
            1
        } else {
            0
        };
        let status = self.jvmti.set_event_notification_mode(mode_i, event.code(), NULL_HANDLE);
        let result = match wrap_error(status) {
            NativeError::NoError => None,
            kind => Some(kind),
        };
        assert(call_ensures(N::set_event_notification_mode, (&self.jvmti, mode_code(mode), event.spec_code(), NULL_HANDLE), status)
            && result == status_report(status));
        result
    }

    fn get_thread_info(&self, thread_id: &JavaThread) -> (result: Result<jvmtiThreadInfo, NativeError>)
        ensures
            exists|raw: (u32, jvmtiThreadInfo)|
                #[trigger] call_ensures(N::get_thread_info, (&self.jvmti, *thread_id), raw)
                    && result == status_outcome::<jvmtiThreadInfo>(raw.0, raw.1),
    {
        let raw = self.jvmti.get_thread_info(*thread_id);
        let result = check_status(raw.0, raw.1);
        assert(call_ensures(N::get_thread_info, (&self.jvmti, *thread_id), raw)
            && result == status_outcome::<jvmtiThreadInfo>(raw.0, raw.1));
        result
    }

    fn get_method_declaring_class(&self, method_id: &JavaMethod) -> (result: Result<ClassId, NativeError>)
        ensures
            exists|raw: (u32, JavaClass)|
                #[trigger] call_ensures(N::get_method_declaring_class, (&self.jvmti, *method_id), raw)
                    && result == status_outcome::<ClassId>(raw.0, ClassId { native_id: raw.1 }),
    {
        let raw = self.jvmti.get_method_declaring_class(*method_id);
        let result = check_status(raw.0, ClassId { native_id: raw.1 });
        assert(call_ensures(N::get_method_declaring_class, (&self.jvmti, *method_id), raw)
            && result == status_outcome::<ClassId>(raw.0, ClassId { native_id: raw.1 }));
        result
    }

    fn get_method_name(&self, method_id: JavaMethod) -> (result: Result<MethodSignature, NativeError>)
        ensures
            exists|raw: (u32, RawString, RawString, RawString), released: u32|
                {
                    &&& #[trigger] call_ensures(N::get_method_name, (&self.jvmti, method_id), raw)
                    &&& #[trigger] method_name_outcome(raw.0, raw.1, raw.2, released, result)
                    &&& raw.0 == 0 ==> release_outcome(&self.jvmti, seq![raw.1, raw.2, raw.3], released)
                },
    {
        let raw = self.jvmti.get_method_name(method_id);
        let mut released: u32 = 0;
        if raw.0 == 0 {
            let first = self.release(&raw.1);
            let second = self.release(&raw.2);
            let third = self.release(&raw.3);
            released = if first != 0 {
                first
            } else if second != 0 {
                second
            } else {
                third
            };
            proof {
                let statuses = seq![first, second, third];
                reveal_with_fuel(first_failure, 4);
                assert(statuses.subrange(1, 3) =~= seq![second, third]);
                assert(seq![second, third].subrange(1, 2) =~= seq![third]);
                assert(seq![third].subrange(1, 1) =~= Seq::<u32>::empty());
                assert(released == first_failure(statuses));
                assert(release_outcome(&self.jvmti, seq![raw.1, raw.2, raw.3], released));
            }
        }
        let result = method_name_result(raw.0, &raw.1, &raw.2, released);
        assert(call_ensures(N::get_method_name, (&self.jvmti, method_id), raw)
            && method_name_outcome(raw.0, raw.1, raw.2, released, result)
            && (raw.0 == 0 ==> release_outcome(&self.jvmti, seq![raw.1, raw.2, raw.3], released)));
        result
    }

    fn get_class_signature(&self, class: &JavaClass) -> (result: Result<ClassSignature, NativeError>)
        ensures
            exists|raw: (u32, RawString, RawString), released: u32|
                {
                    &&& #[trigger] call_ensures(N::get_class_signature, (&self.jvmti, *class), raw)
                    &&& #[trigger] class_signature_outcome(raw.0, raw.1, released, result)
                    &&& raw.0 == 0 ==> release_outcome(&self.jvmti, seq![raw.1, raw.2], released)
                },
    {
        let raw = self.jvmti.get_class_signature(*class);
        let mut released: u32 = 0;
        if raw.0 == 0 {
            let first = self.release(&raw.1);
            let second = self.release(&raw.2);
            released = if first != 0 {
                first
            } else {
                second
            };
            proof {
                let statuses = seq![first, second];
                reveal_with_fuel(first_failure, 3);
                assert(statuses.subrange(1, 2) =~= seq![second]);
                assert(seq![second].subrange(1, 1) =~= Seq::<u32>::empty());
                assert(released == first_failure(statuses));
                assert(release_outcome(&self.jvmti, seq![raw.1, raw.2], released));
            }
        }
        let result = class_signature_result(raw.0, &raw.1, released);
        assert(call_ensures(N::get_class_signature, (&self.jvmti, *class), raw)
            && class_signature_outcome(raw.0, raw.1, released, result)
            && (raw.0 == 0 ==> release_outcome(&self.jvmti, seq![raw.1, raw.2], released)));
        result
    }

    fn allocate(&self, len: usize) -> (result: Result<MemoryAllocation, NativeError>)
        ensures
            len > i64::MAX ==> result == Err::<MemoryAllocation, NativeError>(NativeError::IllegalArgument),
            len <= i64::MAX ==> exists|raw: (u32, NativeAddress)|
                #[trigger] call_ensures(N::allocate, (&self.jvmti, len as i64), raw)
                    && result == status_outcome(raw.0, MemoryAllocation { ptr: raw.1, len }),
    {
        if len as u64 > 0x7FFF_FFFF_FFFF_FFFFu64 {
            return Err(NativeError::IllegalArgument);
        }
        let raw = self.jvmti.allocate(len as i64);
        let result = check_status(raw.0, MemoryAllocation { ptr: raw.1, len });
        assert(call_ensures(N::allocate, (&self.jvmti, len as i64), raw)
            && result == status_outcome(raw.0, MemoryAllocation { ptr: raw.1, len }));
        result
    }

    fn deallocate(&self, mem: NativeAddress) -> (result: Result<(), NativeError>)
        ensures
            exists|raw: u32|
                #[trigger] call_ensures(N::deallocate, (&self.jvmti, mem), raw)
                    && result == status_outcome::<()>(raw, ()),
    {
        let raw = self.jvmti.deallocate(mem);
        let result = check_status(raw, ());
        assert(call_ensures(N::deallocate, (&self.jvmti, mem), raw)
            && result == status_outcome::<()>(raw, ()));
        result
    }

    fn get_all_threads(&self) -> (result: Result<Vec<JavaThread>, NativeError>)
        ensures
            exists|raw: (u32, Vec<JavaThread>)|
                #[trigger] call_ensures(N::get_all_threads, (&self.jvmti,), raw)
                    && result == status_outcome::<Vec<JavaThread>>(raw.0, raw.1),
    {
        let raw = self.jvmti.get_all_threads();
        let result = check_status(raw.0, raw.1);
        assert(call_ensures(N::get_all_threads, (&self.jvmti,), raw)
            && result == status_outcome::<Vec<JavaThread>>(raw.0, raw.1));
        result
    }

    fn get_local_object(
        &self,
        thread: JavaThread,
        depth: i32,
        slot: i32,
    ) -> (result: Result<JavaObject, NativeError>)
        ensures
            exists|raw: (u32, JavaObject)|
                #[trigger] call_ensures(N::get_local_object, (&self.jvmti, thread, depth, slot), raw)
                    && result == status_outcome::<JavaObject>(raw.0, raw.1),
    {
        let raw = self.jvmti.get_local_object(thread, depth, slot);
        let result = check_status(raw.0, raw.1);
        assert(call_ensures(N::get_local_object, (&self.jvmti, thread, depth, slot), raw)
            && result == status_outcome::<JavaObject>(raw.0, raw.1));
        result
    }

    fn run_agent_thread(
        &self,
        thread: JavaThread,
        proc: NativeAddress,
        arg: NativeAddress,
        priority: i32,
    ) -> (result: Result<(), NativeError>)
        ensures
            exists|raw: u32|
                #[trigger] call_ensures(N::run_agent_thread, (&self.jvmti, thread, proc, arg, priority), raw)
                    && result == status_outcome::<()>(raw, ()),
    {
        let raw = self.jvmti.run_agent_thread(thread, proc, arg, priority);
        let result = check_status(raw, ());
        assert(call_ensures(N::run_agent_thread, (&self.jvmti, thread, proc, arg, priority), raw)
            && result == status_outcome::<()>(raw, ()));
        result
    }

    fn get_current_thread(&self) -> (result: Result<JavaThread, NativeError>)
        ensures
            exists|raw: (u32, JavaThread)|
                #[trigger] call_ensures(N::get_current_thread, (&self.jvmti,), raw)
                    && result == status_outcome::<JavaThread>(raw.0, raw.1),
    {
        let raw = self.jvmti.get_current_thread();
        let result = check_status(raw.0, raw.1);
        assert(call_ensures(N::get_current_thread, (&self.jvmti,), raw)
            && result == status_outcome::<JavaThread>(raw.0, raw.1));
        result
    }

    fn get_stack_trace(&self, thread: JavaThread) -> (result: Result<Vec<FrameInfo>, NativeError>)
        ensures
            exists|raw: (u32, Vec<FrameInfo>)|
                #[trigger] call_ensures(N::get_stack_trace, (&self.jvmti, thread, 0, MAX_STACK_FRAMES), raw)
                    && result == status_outcome::<Vec<FrameInfo>>(raw.0, raw.1),
    {
        let raw = self.jvmti.get_stack_trace(thread, 0, MAX_STACK_FRAMES);
        let result = check_status(raw.0, raw.1);
        assert(call_ensures(N::get_stack_trace, (&self.jvmti, thread, 0, MAX_STACK_FRAMES), raw)
            && result == status_outcome::<Vec<FrameInfo>>(raw.0, raw.1));
        result
    }

    fn get_thread_state(&self, thread: JavaThread) -> (result: Result<u32, NativeError>)
        ensures
            exists|raw: (u32, i32)|
                #[trigger] call_ensures(N::get_thread_state, (&self.jvmti, thread), raw)
                    && result == status_outcome(raw.0, language_thread_state(raw.1)),
    {
        let raw = self.jvmti.get_thread_state(thread);
        let state: u32 = (raw.1 as u32) & THREAD_STATE_MASK;
        let result = check_status(raw.0, state);
        assert(call_ensures(N::get_thread_state, (&self.jvmti, thread), raw)
            && result == status_outcome(raw.0, language_thread_state(raw.1)));
        result
    }

    fn add_to_bootstrap_classloader_search(&self, class_path: &str) -> (result: Result<(), NativeError>)
        ensures
            exists|raw: u32|
                #[trigger] call_ensures(N::add_to_bootstrap_class_loader_search, (&self.jvmti, class_path), raw)
                    && result == status_outcome::<()>(raw, ()),
    {
        let raw = self.jvmti.add_to_bootstrap_class_loader_search(class_path);
        let result = check_status(raw, ());
        assert(call_ensures(N::add_to_bootstrap_class_loader_search, (&self.jvmti, class_path), raw)
            && result == status_outcome::<()>(raw, ()));
        result
    }

    fn raw_monitor_enter(&self, monitor: &RawMonitor) -> (result: Result<(), NativeError>)
        ensures
            exists|raw: u32|
                #[trigger] call_ensures(N::raw_monitor_enter, (&self.jvmti, *monitor), raw)
                    && result == status_outcome::<()>(raw, ()),
    {
        let raw = self.jvmti.raw_monitor_enter(*monitor);
        let result = check_status(raw, ());
        assert(call_ensures(N::raw_monitor_enter, (&self.jvmti, *monitor), raw)
            && result == status_outcome::<()>(raw, ()));
        result
    }

    fn raw_monitor_exit(&self, monitor: RawMonitor) -> (result: Result<(), NativeError>)
        ensures
            exists|raw: u32|
                #[trigger] call_ensures(N::raw_monitor_exit, (&self.jvmti, monitor), raw)
                    && result == status_outcome::<()>(raw, ()),
    {
        let raw = self.jvmti.raw_monitor_exit(monitor);
        let result = check_status(raw, ());
        assert(call_ensures(N::raw_monitor_exit, (&self.jvmti, monitor), raw)
            && result == status_outcome::<()>(raw, ()));
        result
    }

    fn create_raw_monitor(&self, name: &str) -> (result: Result<RawMonitor, NativeError>)
        ensures
            exists|raw: (u32, RawMonitor)|
                #[trigger] call_ensures(N::create_raw_monitor, (&self.jvmti, name), raw)
                    && result == status_outcome::<RawMonitor>(raw.0, raw.1),
    {
        let raw = self.jvmti.create_raw_monitor(name);
        let result = check_status(raw.0, raw.1);
        assert(call_ensures(N::create_raw_monitor, (&self.jvmti, name), raw)
            && result == status_outcome::<RawMonitor>(raw.0, raw.1));
        result
    }

    fn destroy_raw_monitor(&self, monitor: RawMonitor) -> (result: Result<(), NativeError>)
        ensures
            exists|raw: u32|
                #[trigger] call_ensures(N::destroy_raw_monitor, (&self.jvmti, monitor), raw)
                    && result == status_outcome::<()>(raw, ()),
    {
        let raw = self.jvmti.destroy_raw_monitor(monitor);
        let result = check_status(raw, ());
        assert(call_ensures(N::destroy_raw_monitor, (&self.jvmti, monitor), raw)
            && result == status_outcome::<()>(raw, ()));
        result
    }

    fn retransform_classes(&self, classes: &[JavaClass]) -> (result: Result<(), NativeError>)
        ensures
            exists|raw: u32|
                #[trigger] call_ensures(N::retransform_classes, (&self.jvmti, classes), raw)
                    && result == status_outcome::<()>(raw, ()),
    {
        let raw = self.jvmti.retransform_classes(classes);
        let result = check_status(raw, ());
        assert(call_ensures(N::retransform_classes, (&self.jvmti, classes), raw)
            && result == status_outcome::<()>(raw, ()));
        result
    }

    fn iterate_over_heap(
        &self,
        object_filter: HeapObjectFilter,
        heap_object_callback: NativeAddress,
        user_data: NativeAddress,
    ) -> (result: Result<(), NativeError>)
        ensures
            exists|raw: u32|
                #[trigger] call_ensures(N::iterate_over_heap, (&self.jvmti, object_filter.spec_code(), heap_object_callback, user_data), raw)
                    && result == status_outcome::<()>(raw, ()),
    {
        let raw = self.jvmti.iterate_over_heap(object_filter.code(), heap_object_callback, user_data);
        let result = check_status(raw, ());
        assert(call_ensures(N::iterate_over_heap, (&self.jvmti, object_filter.spec_code(), heap_object_callback, user_data), raw)
            && result == status_outcome::<()>(raw, ()));
        result
    }

    fn iterate_over_instances_of_class(
        &self,
        klass: JavaClass,
        object_filter: HeapObjectFilter,
        heap_object_callback: NativeAddress,
        user_data: NativeAddress,
    ) -> (result: Result<(), NativeError>)
        ensures
            exists|raw: u32|
                #[trigger] call_ensures(N::iterate_over_instances_of_class, (&self.jvmti, klass, object_filter.spec_code(), heap_object_callback, user_data), raw)
                    && result == status_outcome::<()>(raw, ()),
    {
        let raw = self.jvmti.iterate_over_instances_of_class(klass, object_filter.code(), heap_object_callback, user_data);
        let result = check_status(raw, ());
        assert(call_ensures(N::iterate_over_instances_of_class, (&self.jvmti, klass, object_filter.spec_code(), heap_object_callback, user_data), raw)
            && result == status_outcome::<()>(raw, ()));
        result
    }

    fn get_objects_with_tags(&self, tags_list: &[i64]) -> (result: Result<Vec<JavaObject>, JVMTIError>)
        ensures
            exists|raw: (u32, Vec<JavaObject>)|
                #[trigger] call_ensures(N::get_objects_with_tags, (&self.jvmti, tags_list), raw)
                    && result == tagged_outcome(raw.0, raw.1),
    {
        let raw = self.jvmti.get_objects_with_tags(tags_list);
        let result = match check_status(raw.0, raw.1) {
            Ok(found) => Ok(found),
            Err(kind) => Err(JVMTIError::NativeError(kind)),
        };
        assert(call_ensures(N::get_objects_with_tags, (&self.jvmti, tags_list), raw)
            && result == tagged_outcome(raw.0, raw.1));
        result
    }

    fn get_classloader(&self, klass: &JavaClass) -> (result: Result<JavaObject, NativeError>)
        ensures
            exists|raw: (u32, JavaObject)|
                #[trigger] call_ensures(N::get_class_loader, (&self.jvmti, *klass), raw)
                    && result == status_outcome::<JavaObject>(raw.0, raw.1),
    {
        let raw = self.jvmti.get_class_loader(*klass);
        let result = check_status(raw.0, raw.1);
        assert(call_ensures(N::get_class_loader, (&self.jvmti, *klass), raw)
            && result == status_outcome::<JavaObject>(raw.0, raw.1));
        result
    }

    fn get_object_size(&self, object: &JavaObject) -> (result: Result<i64, NativeError>)
        ensures
            exists|raw: (u32, i64)|
                #[trigger] call_ensures(N::get_object_size, (&self.jvmti, *object), raw)
                    && result == status_outcome::<i64>(raw.0, raw.1),
    {
        let raw = self.jvmti.get_object_size(*object);
        let result = check_status(raw.0, raw.1);
        assert(call_ensures(N::get_object_size, (&self.jvmti, *object), raw)
            && result == status_outcome::<i64>(raw.0, raw.1));
        result
    }

    fn get_object_hash_code(&self, object: &JavaObject) -> (result: Result<i32, NativeError>)
        ensures
            exists|raw: (u32, i32)|
                #[trigger] call_ensures(N::get_object_hash_code, (&self.jvmti, *object), raw)
                    && result == status_outcome::<i32>(raw.0, raw.1),
    {
        let raw = self.jvmti.get_object_hash_code(*object);
        let result = check_status(raw.0, raw.1);
        assert(call_ensures(N::get_object_hash_code, (&self.jvmti, *object), raw)
            && result == status_outcome::<i32>(raw.0, raw.1));
        result
    }

    fn get_loaded_classes(&self) -> (result: Result<Vec<JavaClass>, NativeError>)
        ensures
            exists|raw: (u32, Vec<JavaClass>)|
                #[trigger] call_ensures(N::get_loaded_classes, (&self.jvmti,), raw)
                    && result == status_outcome::<Vec<JavaClass>>(raw.0, raw.1),
    {
        let raw = self.jvmti.get_loaded_classes();
        let result = check_status(raw.0, raw.1);
        assert(call_ensures(N::get_loaded_classes, (&self.jvmti,), raw)
            && result == status_outcome::<Vec<JavaClass>>(raw.0, raw.1));
        result
    }

    fn get_class_loader_classes(
        &self,
        initiating_loader: &JavaObject,
    ) -> (result: Result<Vec<JavaClass>, NativeError>)
        ensures
            exists|raw: (u32, Vec<JavaClass>)|
                #[trigger] call_ensures(N::get_class_loader_classes, (&self.jvmti, *initiating_loader), raw)
                    && result == status_outcome::<Vec<JavaClass>>(raw.0, raw.1),
    {
        let raw = self.jvmti.get_class_loader_classes(*initiating_loader);
        let result = check_status(raw.0, raw.1);
        assert(call_ensures(N::get_class_loader_classes, (&self.jvmti, *initiating_loader), raw)
            && result == status_outcome::<Vec<JavaClass>>(raw.0, raw.1));
        result
    }

    fn is_array_class(&self, class: &JavaClass) -> (result: Result<bool, NativeError>)
        ensures
            exists|raw: (u32, u8)|
                #[trigger] call_ensures(N::is_array_class, (&self.jvmti, *class), raw)
                    && result == status_outcome::<bool>(raw.0, raw.1 == TRUE),
    {
        let raw = self.jvmti.is_array_class(*class);
        let result = check_status(raw.0, raw.1 == TRUE);
        assert(call_ensures(N::is_array_class, (&self.jvmti, *class), raw)
            && result == status_outcome::<bool>(raw.0, raw.1 == TRUE));
        result
    }

    fn force_garbage_collection(&self) -> (result: Result<(), NativeError>)
        ensures
            exists|raw: u32|
                #[trigger] call_ensures(N::force_garbage_collection, (&self.jvmti,), raw)
                    && result == status_outcome::<()>(raw, ()),
    {
        let raw = self.jvmti.force_garbage_collection();
        let result = check_status(raw, ());
        assert(call_ensures(N::force_garbage_collection, (&self.jvmti,), raw)
            && result == status_outcome::<()>(raw, ()));
        result
    }

    fn iterate_over_objects_reachable_from_object(
        &self,
        object: &JavaObject,
        callbck: NativeAddress,
        user_data: NativeAddress,
    ) -> (result: Result<(), NativeError>)
        ensures
            exists|raw: u32|
                #[trigger] call_ensures(N::iterate_over_objects_reachable_from_object, (&self.jvmti, *object, callbck, user_data), raw)
                    && result == status_outcome::<()>(raw, ()),
    {
        let raw = self.jvmti.iterate_over_objects_reachable_from_object(*object, callbck, user_data);
        let result = check_status(raw, ());
        assert(call_ensures(N::iterate_over_objects_reachable_from_object, (&self.jvmti, *object, callbck, user_data), raw)
            && result == status_outcome::<()>(raw, ()));
        result
    }
}

} // verus!
