//! The environment: the tooling interface and the interop interface of one
//! runtime, side by side.

use vstd::prelude::*;
use crate::capabilities::Capabilities;
use crate::class::ClassId;
use crate::class::ClassSignature;
use crate::environment::jni::JNIError;
use crate::environment::jni::JavaValue;
use crate::environment::jni::JNI;
use crate::environment::jvmti::sound;
use crate::environment::jvmti::FrameInfo;
use crate::environment::jvmti::HeapObjectFilter;
use crate::environment::jvmti::JVMTIError;
use crate::environment::jvmti::JVMTI;
use crate::error::NativeError;
use crate::event::EventCallbacks;
use crate::event::VMEvent;
use crate::mem::MemoryAllocation;
use crate::method::MethodId;
use crate::method::MethodSignature;
use crate::native::is_null;
use crate::native::null_handle;
use crate::native::JavaArray;
use crate::native::JavaClass;
use crate::native::JavaField;
use crate::native::JavaMethod;
use crate::native::JavaObject;
use crate::native::JavaObjectArray;
use crate::native::JavaString;
use crate::native::JavaThread;
use crate::native::NativeAddress;
use crate::native::RawMonitor;
use crate::thread::jvmtiThreadInfo;
use crate::thread::Thread;
use crate::thread::ThreadId;
use crate::util::stringified;
use crate::util::stringify;
use crate::version::VersionNumber;

pub mod jni;
pub mod jvm;
pub mod jvmti;

verus! {

/// `Environment` combines the tooling interface and the interop interface
/// by holding a provider of each and handing every call to the provider it
/// belongs to. It holds nothing else.
pub struct Environment<T: JVMTI, I: JNI> {
    pub jvmti: T,
    pub jni: I,
}

impl<T: JVMTI, I: JNI> Environment<T, I> {
    pub fn new(jvmti: T, jni: I) -> (environment: Environment<T, I>)
        ensures
            environment.jvmti == jvmti,
            environment.jni == jni,
    {
        Environment { jvmti, jni }
    }

    pub fn with_boxed(jvmti: Box<T>, jni: Box<I>) -> (environment: Environment<T, I>)
        ensures
            environment.jvmti == *jvmti,
            environment.jni == *jni,
    {
        Environment { jvmti: *jvmti, jni: *jni }
    }
}

impl<T: JVMTI, I: JNI> JVMTI for Environment<T, I> {
    open spec fn adds_capabilities(
        &self,
        new_capabilities: Capabilities,
        after: Self,
        result: Result<Capabilities, NativeError>,
    ) -> bool {
        &&& self.jvmti.adds_capabilities(new_capabilities, after.jvmti, result)
        &&& after.jni == self.jni
    }

    open spec fn installs_callbacks(
        &self,
        callbacks: EventCallbacks,
        after: Self,
        result: Option<NativeError>,
    ) -> bool {
        &&& self.jvmti.installs_callbacks(callbacks, after.jvmti, result)
        &&& after.jni == self.jni
    }

    open spec fn switches_notification(
        &self,
        event: VMEvent,
        mode: bool,
        after: Self,
        result: Option<NativeError>,
    ) -> bool {
        &&& self.jvmti.switches_notification(event, mode, after.jvmti, result)
        &&& after.jni == self.jni
    }

    fn get_version_number(&self) -> (result: VersionNumber)
        ensures
            call_ensures(T::get_version_number, (&self.jvmti,), result),
    {
        self.jvmti.get_version_number()
    }

    fn add_capabilities(
        &mut self,
        new_capabilities: &Capabilities,
    ) -> (result: Result<Capabilities, NativeError>)
    {
        self.jvmti.add_capabilities(new_capabilities)
    }

    fn get_capabilities(&self) -> (result: Capabilities)
        ensures
            call_ensures(T::get_capabilities, (&self.jvmti,), result),
    {
        self.jvmti.get_capabilities()
    }

    fn set_event_callbacks(&mut self, callbacks: EventCallbacks) -> (result: Option<NativeError>)
    {
        self.jvmti.set_event_callbacks(callbacks)
    }

    fn set_event_notification_mode(&mut self, event: VMEvent, mode: bool) -> (result: Option<NativeError>)
    {
        self.jvmti.set_event_notification_mode(event, mode)
    }

    fn get_thread_info(&self, thread_id: &JavaThread) -> (result: Result<jvmtiThreadInfo, NativeError>)
        ensures
            call_ensures(T::get_thread_info, (&self.jvmti, thread_id), result),
    {
        self.jvmti.get_thread_info(thread_id)
    }

    fn get_method_declaring_class(&self, method_id: &JavaMethod) -> (result: Result<ClassId, NativeError>)
        ensures
            call_ensures(T::get_method_declaring_class, (&self.jvmti, method_id), result),
    {
        self.jvmti.get_method_declaring_class(method_id)
    }

    fn get_method_name(&self, method_id: JavaMethod) -> (result: Result<MethodSignature, NativeError>)
        ensures
            call_ensures(T::get_method_name, (&self.jvmti, method_id), result),
    {
        self.jvmti.get_method_name(method_id)
    }

    fn get_class_signature(&self, class: &JavaClass) -> (result: Result<ClassSignature, NativeError>)
        ensures
            call_ensures(T::get_class_signature, (&self.jvmti, class), result),
    {
        self.jvmti.get_class_signature(class)
    }

    fn allocate(&self, len: usize) -> (result: Result<MemoryAllocation, NativeError>)
        ensures
            call_ensures(T::allocate, (&self.jvmti, len), result),
    {
        self.jvmti.allocate(len)
    }

    fn deallocate(&self, mem: NativeAddress) -> (result: Result<(), NativeError>)
        ensures
            call_ensures(T::deallocate, (&self.jvmti, mem), result),
    {
        self.jvmti.deallocate(mem)
    }

    fn get_all_threads(&self) -> (result: Result<Vec<JavaThread>, NativeError>)
        ensures
            call_ensures(T::get_all_threads, (&self.jvmti,), result),
    {
        self.jvmti.get_all_threads()
    }

    fn get_local_object(
        &self,
        thread: JavaThread,
        depth: i32,
        slot: i32,
    ) -> (result: Result<JavaObject, NativeError>)
        ensures
            call_ensures(T::get_local_object, (&self.jvmti, thread, depth, slot), result),
    {
        self.jvmti.get_local_object(thread, depth, slot)
    }

    fn run_agent_thread(
        &self,
        thread: JavaThread,
        proc: NativeAddress,
        arg: NativeAddress,
        priority: i32,
    ) -> (result: Result<(), NativeError>)
        ensures
            call_ensures(T::run_agent_thread, (&self.jvmti, thread, proc, arg, priority), result),
    {
        self.jvmti.run_agent_thread(thread, proc, arg, priority)
    }

    fn get_current_thread(&self) -> (result: Result<JavaThread, NativeError>)
        ensures
            call_ensures(T::get_current_thread, (&self.jvmti,), result),
    {
        self.jvmti.get_current_thread()
    }

    fn get_stack_trace(&self, thread: JavaThread) -> (result: Result<Vec<FrameInfo>, NativeError>)
        ensures
            call_ensures(T::get_stack_trace, (&self.jvmti, thread), result),
    {
        self.jvmti.get_stack_trace(thread)
    }

    fn get_thread_state(&self, thread: JavaThread) -> (result: Result<u32, NativeError>)
        ensures
            call_ensures(T::get_thread_state, (&self.jvmti, thread), result),
    {
        self.jvmti.get_thread_state(thread)
    }

    fn add_to_bootstrap_classloader_search(&self, class_path: &str) -> (result: Result<(), NativeError>)
        ensures
            call_ensures(T::add_to_bootstrap_classloader_search, (&self.jvmti, class_path), result),
    {
        self.jvmti.add_to_bootstrap_classloader_search(class_path)
    }

    fn raw_monitor_enter(&self, monitor: &RawMonitor) -> (result: Result<(), NativeError>)
        ensures
            call_ensures(T::raw_monitor_enter, (&self.jvmti, monitor), result),
    {
        self.jvmti.raw_monitor_enter(monitor)
    }

    fn raw_monitor_exit(&self, monitor: RawMonitor) -> (result: Result<(), NativeError>)
        ensures
            call_ensures(T::raw_monitor_exit, (&self.jvmti, monitor), result),
    {
        self.jvmti.raw_monitor_exit(monitor)
    }

    fn create_raw_monitor(&self, name: &str) -> (result: Result<RawMonitor, NativeError>)
        ensures
            call_ensures(T::create_raw_monitor, (&self.jvmti, name), result),
    {
        self.jvmti.create_raw_monitor(name)
    }

    fn destroy_raw_monitor(&self, monitor: RawMonitor) -> (result: Result<(), NativeError>)
        ensures
            call_ensures(T::destroy_raw_monitor, (&self.jvmti, monitor), result),
    {
        self.jvmti.destroy_raw_monitor(monitor)
    }

    fn retransform_classes(&self, classes: &[JavaClass]) -> (result: Result<(), NativeError>)
        ensures
            call_ensures(T::retransform_classes, (&self.jvmti, classes), result),
    {
        self.jvmti.retransform_classes(classes)
    }

    fn iterate_over_heap(
        &self,
        object_filter: HeapObjectFilter,
        heap_object_callback: NativeAddress,
        user_data: NativeAddress,
    ) -> (result: Result<(), NativeError>)
        ensures
            call_ensures(T::iterate_over_heap, (&self.jvmti, object_filter, heap_object_callback, user_data), result),
    {
        self.jvmti.iterate_over_heap(object_filter, heap_object_callback, user_data)
    }

    fn iterate_over_instances_of_class(
        &self,
        klass: JavaClass,
        object_filter: HeapObjectFilter,
        heap_object_callback: NativeAddress,
        user_data: NativeAddress,
    ) -> (result: Result<(), NativeError>)
        ensures
            call_ensures(T::iterate_over_instances_of_class, (&self.jvmti, klass, object_filter, heap_object_callback, user_data), result),
    {
        self.jvmti.iterate_over_instances_of_class(klass, object_filter, heap_object_callback, user_data)
    }

    fn get_objects_with_tags(&self, tags_list: &[i64]) -> (result: Result<Vec<JavaObject>, JVMTIError>)
        ensures
            call_ensures(T::get_objects_with_tags, (&self.jvmti, tags_list), result),
    {
        self.jvmti.get_objects_with_tags(tags_list)
    }

    fn get_classloader(&self, klass: &JavaClass) -> (result: Result<JavaObject, NativeError>)
        ensures
            call_ensures(T::get_classloader, (&self.jvmti, klass), result),
    {
        self.jvmti.get_classloader(klass)
    }

    fn get_object_size(&self, object: &JavaObject) -> (result: Result<i64, NativeError>)
        ensures
            call_ensures(T::get_object_size, (&self.jvmti, object), result),
    {
        self.jvmti.get_object_size(object)
    }

    fn get_object_hash_code(&self, object: &JavaObject) -> (result: Result<i32, NativeError>)
        ensures
            call_ensures(T::get_object_hash_code, (&self.jvmti, object), result),
    {
        self.jvmti.get_object_hash_code(object)
    }

    fn get_loaded_classes(&self) -> (result: Result<Vec<JavaClass>, NativeError>)
        ensures
            call_ensures(T::get_loaded_classes, (&self.jvmti,), result),
    {
        self.jvmti.get_loaded_classes()
    }

    fn get_class_loader_classes(
        &self,
        initiating_loader: &JavaObject,
    ) -> (result: Result<Vec<JavaClass>, NativeError>)
        ensures
            call_ensures(T::get_class_loader_classes, (&self.jvmti, initiating_loader), result),
    {
        self.jvmti.get_class_loader_classes(initiating_loader)
    }

    fn is_array_class(&self, class: &JavaClass) -> (result: Result<bool, NativeError>)
        ensures
            call_ensures(T::is_array_class, (&self.jvmti, class), result),
    {
        self.jvmti.is_array_class(class)
    }

    fn force_garbage_collection(&self) -> (result: Result<(), NativeError>)
        ensures
            call_ensures(T::force_garbage_collection, (&self.jvmti,), result),
    {
        self.jvmti.force_garbage_collection()
    }

    fn iterate_over_objects_reachable_from_object(
        &self,
        object: &JavaObject,
        callbck: NativeAddress,
        user_data: NativeAddress,
    ) -> (result: Result<(), NativeError>)
        ensures
            call_ensures(T::iterate_over_objects_reachable_from_object, (&self.jvmti, object, callbck, user_data), result),
    {
        self.jvmti.iterate_over_objects_reachable_from_object(object, callbck, user_data)
    }
}

impl<T: JVMTI, I: JNI> JNI for Environment<T, I> {
    fn get_object_class(&self, object: &JavaObject) -> (result: Result<JavaClass, JNIError>)
        ensures
            call_ensures(I::get_object_class, (&self.jni, object), result),
    {
        self.jni.get_object_class(object)
    }

    fn find_class(&self, clazz: &str) -> (result: Result<ClassId, JNIError>)
        ensures
            call_ensures(I::find_class, (&self.jni, clazz), result),
    {
        self.jni.find_class(clazz)
    }

    fn get_method(&self, class: &JavaClass, name: &str, sig: &str) -> (result: Result<MethodId, JNIError>)
        ensures
            call_ensures(I::get_method, (&self.jni, class, name, sig), result),
    {
        self.jni.get_method(class, name, sig)
    }

    fn get_static_method(
        &self,
        class: &JavaClass,
        name: &str,
        sig: &str,
    ) -> (result: Result<MethodId, JNIError>)
        ensures
            call_ensures(I::get_static_method, (&self.jni, class, name, sig), result),
    {
        self.jni.get_static_method(class, name, sig)
    }

    fn get_field_id(&self, class: &JavaClass, name: &str, sig: &str) -> (result: Result<JavaField, JNIError>)
        ensures
            call_ensures(I::get_field_id, (&self.jni, class, name, sig), result),
    {
        self.jni.get_field_id(class, name, sig)
    }

    fn new_string_utf(&self, str: &str) -> (result: Result<JavaString, JNIError>)
        ensures
            call_ensures(I::new_string_utf, (&self.jni, str), result),
    {
        self.jni.new_string_utf(str)
    }

    fn get_string_utf_chars(&self, string: &JavaString) -> (result: Result<String, JNIError>)
        ensures
            call_ensures(I::get_string_utf_chars, (&self.jni, string), result),
    {
        self.jni.get_string_utf_chars(string)
    }

    fn release_string_utf_chars(
        &self,
        str: &JavaString,
        chars: NativeAddress,
    ) -> (result: Result<(), JNIError>)
        ensures
            call_ensures(I::release_string_utf_chars, (&self.jni, str, chars), result),
    {
        self.jni.release_string_utf_chars(str, chars)
    }

    fn new_object(
        &self,
        class: &JavaClass,
        method: &JavaMethod,
        args: &[JavaValue],
    ) -> (result: Result<JavaObject, JNIError>)
        ensures
            call_ensures(I::new_object, (&self.jni, class, method, args), result),
    {
        self.jni.new_object(class, method, args)
    }

    fn new_global_ref(&self, object: &JavaObject) -> (result: Result<JavaObject, JNIError>)
        ensures
            call_ensures(I::new_global_ref, (&self.jni, object), result),
    {
        self.jni.new_global_ref(object)
    }

    fn delete_global_ref(&self, object: &JavaObject) -> (result: Result<(), JNIError>)
        ensures
            call_ensures(I::delete_global_ref, (&self.jni, object), result),
    {
        self.jni.delete_global_ref(object)
    }

    fn is_instance_of(&self, object: &JavaObject, class: &JavaClass) -> (result: Result<bool, JNIError>)
        ensures
            call_ensures(I::is_instance_of, (&self.jni, object, class), result),
    {
        self.jni.is_instance_of(object, class)
    }

    fn is_assignable_from(&self, sub: &JavaClass, sup: &JavaClass) -> (result: Result<bool, JNIError>)
        ensures
            call_ensures(I::is_assignable_from, (&self.jni, sub, sup), result),
    {
        self.jni.is_assignable_from(sub, sup)
    }

    fn call_static_boolean_method(
        &self,
        class: &JavaClass,
        method: &JavaMethod,
        args: &[JavaValue],
    ) -> (result: Result<bool, JNIError>)
        ensures
            call_ensures(I::call_static_boolean_method, (&self.jni, class, method, args), result),
    {
        self.jni.call_static_boolean_method(class, method, args)
    }

    fn call_static_object_method(
        &self,
        class: &JavaClass,
        method: &JavaMethod,
        args: &[JavaValue],
    ) -> (result: Result<JavaObject, JNIError>)
        ensures
            call_ensures(I::call_static_object_method, (&self.jni, class, method, args), result),
    {
        self.jni.call_static_object_method(class, method, args)
    }

    fn call_long_method(
        &self,
        object: &JavaObject,
        method: &JavaMethod,
        args: &[JavaValue],
    ) -> (result: Result<i64, JNIError>)
        ensures
            call_ensures(I::call_long_method, (&self.jni, object, method, args), result),
    {
        self.jni.call_long_method(object, method, args)
    }

    fn call_object_method(
        &self,
        object: &JavaObject,
        method: &JavaMethod,
        args: &[JavaValue],
    ) -> (result: Result<JavaObject, JNIError>)
        ensures
            call_ensures(I::call_object_method, (&self.jni, object, method, args), result),
    {
        self.jni.call_object_method(object, method, args)
    }

    fn delete_local_ref(&self, obj: &JavaObject) -> (result: Result<(), JNIError>)
        ensures
            call_ensures(I::delete_local_ref, (&self.jni, obj), result),
    {
        self.jni.delete_local_ref(obj)
    }

    fn get_int_field(&self, obj: &JavaObject, field: &JavaField) -> (result: Result<i32, JNIError>)
        ensures
            call_ensures(I::get_int_field, (&self.jni, obj, field), result),
    {
        self.jni.get_int_field(obj, field)
    }

    fn get_object_field(&self, obj: &JavaObject, field: &JavaField) -> (result: Result<JavaObject, JNIError>)
        ensures
            call_ensures(I::get_object_field, (&self.jni, obj, field), result),
    {
        self.jni.get_object_field(obj, field)
    }

    fn get_array_length(&self, array: &JavaArray) -> (result: Result<i32, JNIError>)
        ensures
            call_ensures(I::get_array_length, (&self.jni, array), result),
    {
        self.jni.get_array_length(array)
    }

    fn get_object_array_element(
        &self,
        array: &JavaObjectArray,
        index: i32,
    ) -> (result: Result<JavaObject, JNIError>)
        ensures
            call_ensures(I::get_object_array_element, (&self.jni, array, index), result),
    {
        self.jni.get_object_array_element(array, index)
    }
}

/// The thread that a description amounts to, once releasing its name ended
/// in `released`.
pub open spec fn thread_outcome(
    info: jvmtiThreadInfo,
    thread: JavaThread,
    released: Result<(), NativeError>,
    result: Result<Thread, NativeError>,
) -> bool {
    match released {
        Ok(_) => {
            &&& result matches Ok(described)
            &&& described.id == ThreadId { native_id: thread }
            &&& described.name@ == stringified(info.name)
            &&& described.priority == info.priority as u32
            &&& described.is_daemon == (info.is_daemon > 0)
        },
        Err(kind) => result == Err::<Thread, NativeError>(kind),
    }
}

/// True when the local reference was released through the interface, or is
/// null and needed no release.
pub open spec fn reference_released<I: JNI>(interop: &I, reference: JavaObject) -> bool {
    null_handle(reference) || exists|answer: Result<(), JNIError>|
        #[trigger] call_ensures(I::delete_local_ref, (interop, &reference), answer) && answer is Ok
}

impl jvmtiThreadInfo {
    /// Reads the description into a `Thread` and releases what the runtime
    /// allocated for it: the name, and the two handles where they are not
    /// null. A failure to release the name is returned in place of the
    /// thread.
    pub fn into_thread<T: JVMTI, I: JNI>(
        self,
        env: &Environment<T, I>,
        thread: JavaThread,
    ) -> (result: Result<Thread, NativeError>)
        ensures
            sound(result),
            exists|released: Result<(), NativeError>|
                #[trigger] call_ensures(T::deallocate, (&env.jvmti, self.name.address), released)
                    && thread_outcome(self, thread, released, result),
            reference_released(&env.jni, self.thread_group),
            reference_released(&env.jni, self.context_class_loader),
    {
        let described = Thread {
            id: ThreadId::new(thread),
            name: stringify(&self.name),
            priority: #[verifier::truncate] (self.priority as u32),
            is_daemon: self.is_daemon > 0,
        };
        let released = env.jvmti.deallocate(self.name.address);
        if !is_null(self.thread_group) {
            let group = env.jni.delete_local_ref(&self.thread_group);
            assert(call_ensures(I::delete_local_ref, (&env.jni, &self.thread_group), group) && group is Ok);
        }
        if !is_null(self.context_class_loader) {
            let loader = env.jni.delete_local_ref(&self.context_class_loader);
            assert(call_ensures(I::delete_local_ref, (&env.jni, &self.context_class_loader), loader)
                && loader is Ok);
        }
        let result = match released {
            Ok(_) => Ok(described),
            Err(kind) => Err(kind),
        };
        assert(call_ensures(T::deallocate, (&env.jvmti, self.name.address), released)
            && thread_outcome(self, thread, released, result));
        result
    }
}

} // verus!
