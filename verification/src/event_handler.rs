//! The callback registry and the adapters that turn a raised event into a
//! delivery: look up the callback, resolve the identifiers of the event,
//! and say what the callback is to be called with. The caller of an adapter
//! performs the delivery; an adapter never calls into agent code itself.

use vstd::prelude::*;
use crate::class::Class;
use crate::class::ClassId;
use crate::class::ClassSignature;
use crate::environment::jni::JNIError;
use crate::environment::jni::JNI;
use crate::environment::jvmti::JVMTI;
use crate::environment::Environment;
use crate::error::NativeError;
use crate::event::Callback;
use crate::event::EventCallbacks;
use crate::event::VMEvent;
use crate::method::MethodId;
use crate::method::MethodSignature;
use crate::native::JavaClass;
use crate::native::JavaMethod;
use crate::native::JavaObject;
use crate::native::JavaThread;
use crate::runtime::ClassFileLoadEvent;
use crate::runtime::MethodInvocationEvent;
use crate::runtime::ObjectAllocationEvent;
use crate::thread::jvmtiThreadInfo;
use crate::thread::Thread;

verus! {

/// What a callback is called with.
#[derive(Debug, PartialEq, Eq)]
pub enum Payload {
    /// The callback takes no argument.
    Nothing,
    MethodInvocation(MethodInvocationEvent),
    ObjectAllocation(ObjectAllocationEvent),
    /// The class of the exception that was thrown.
    Exception(Class),
    ClassFileLoad(ClassFileLoadEvent),
}

/// One invocation of one callback: the kind of event that was raised, the
/// callback registered for it, and what the callback is called with.
#[derive(Debug, PartialEq, Eq)]
pub struct Delivery {
    pub kind: VMEvent,
    pub callback: Callback,
    pub payload: Payload,
}

/// The process-wide table of callbacks, owned by whoever sets the agent
/// up. It starts empty, is filled by `install` before any notification is
/// enabled, and is only read from then on.
#[derive(Clone, Copy, Debug, PartialEq, Eq)]
pub struct CallbackRegistry {
    pub callbacks: EventCallbacks,
}

impl CallbackRegistry {
    /// The registry that delivers nothing.
    pub fn new() -> (registry: CallbackRegistry)
        ensures
            registry.callbacks == EventCallbacks::empty(),
            forall|kind: VMEvent| registry.callbacks.callback(kind) is None,
    {
        CallbackRegistry { callbacks: EventCallbacks::new() }
    }

    /// Replaces the whole table, here and in the provider, or nothing: the
    /// table changes exactly when the provider accepted it.
    pub fn install<T: JVMTI>(
        &mut self,
        env: &mut T,
        callbacks: EventCallbacks,
    ) -> (result: Option<NativeError>)
        ensures
            old(env).installs_callbacks(callbacks, *final(env), result),
            result is None ==> final(self).callbacks == callbacks,
            result is Some ==> final(self).callbacks == old(self).callbacks,
            result matches Some(kind) ==> kind != NativeError::NoError,
    {
        let result = env.set_event_callbacks(callbacks);
        if result.is_none() {
            self.callbacks = callbacks;
        }
        result
    }

    /// Empties the table, so that nothing is delivered any more.
    pub fn clear(&mut self)
        ensures
            final(self).callbacks == EventCallbacks::empty(),
    {
        self.callbacks = EventCallbacks::new();
    }

    /// The callback registered for `kind`, if there is one.
    pub fn registered(&self, kind: VMEvent) -> (callback: Option<Callback>)
        ensures
            callback == self.callbacks.callback(kind),
    {
        self.callbacks.get(kind)
    }

    /// The delivery for an event of `kind` whose values are already at
    /// hand: one invocation of the registered callback with them, or none
    /// where no callback is registered.
    pub fn dispatch(&self, kind: VMEvent, payload: Payload) -> (delivery: Option<Delivery>)
        ensures
            delivery == delivery_of(self.callbacks, kind, payload),
    {
        match self.registered(kind) {
            Some(callback) => Some(Delivery { kind, callback, payload }),
            None => None,
        }
    }
}

/// The delivery for an event of `kind` with the given payload: one
/// invocation of the registered callback, or none where no callback is
/// registered.
pub open spec fn delivery_of(table: EventCallbacks, kind: VMEvent, payload: Payload) -> Option<Delivery> {
    match table.callback(kind) {
        Some(callback) => Some(Delivery { kind, callback, payload }),
        None => None,
    }
}

/// True when every step of resolving a method event succeeded and `event`
/// holds what the steps gave: the description of the thread, the signature
/// of the class that declares the method, and the name of the method.
pub open spec fn invocation_resolved<T: JVMTI, I: JNI>(
    env: &Environment<T, I>,
    thread: JavaThread,
    method: JavaMethod,
    event: MethodInvocationEvent,
) -> bool {
    exists|info: jvmtiThreadInfo, class: ClassId|
        {
            &&& #[trigger] call_ensures(T::get_thread_info, (&env.jvmti, &thread), Ok::<jvmtiThreadInfo, NativeError>(info))
            &&& call_ensures(jvmtiThreadInfo::into_thread::<T, I>, (info, env, thread), Ok::<Thread, NativeError>(event.thread))
            &&& #[trigger] call_ensures(T::get_method_declaring_class, (&env.jvmti, &method), Ok::<ClassId, NativeError>(class))
            &&& call_ensures(T::get_class_signature, (&env.jvmti, &class.native_id), Ok::<ClassSignature, NativeError>(event.class_sig))
            &&& call_ensures(T::get_method_name, (&env.jvmti, method), Ok::<MethodSignature, NativeError>(event.method_sig))
            &&& event.method_id == MethodId { native_id: method }
        }
}

/// True when the description of the thread could not be had: asking for it
/// failed, or reading it failed.
pub open spec fn thread_failed<T: JVMTI, I: JNI>(env: &Environment<T, I>, thread: JavaThread) -> bool {
    ||| exists|answer: Result<jvmtiThreadInfo, NativeError>|
        #[trigger] call_ensures(T::get_thread_info, (&env.jvmti, &thread), answer) && answer is Err
    ||| exists|info: jvmtiThreadInfo, answer: Result<Thread, NativeError>|
        {
            &&& #[trigger] call_ensures(T::get_thread_info, (&env.jvmti, &thread), Ok::<jvmtiThreadInfo, NativeError>(info))
            &&& #[trigger] call_ensures(jvmtiThreadInfo::into_thread::<T, I>, (info, env, thread), answer)
            &&& answer is Err
        }
}

/// True when the signature of the class that declares the method could not
/// be had: asking for the class failed, or asking for its signature failed.
pub open spec fn declaring_class_failed<T: JVMTI, I: JNI>(env: &Environment<T, I>, method: JavaMethod) -> bool {
    ||| exists|answer: Result<ClassId, NativeError>|
        #[trigger] call_ensures(T::get_method_declaring_class, (&env.jvmti, &method), answer) && answer is Err
    ||| exists|class: ClassId, answer: Result<ClassSignature, NativeError>|
        {
            &&& #[trigger] call_ensures(T::get_method_declaring_class, (&env.jvmti, &method), Ok::<ClassId, NativeError>(class))
            &&& #[trigger] call_ensures(T::get_class_signature, (&env.jvmti, &class.native_id), answer)
            &&& answer is Err
        }
}

/// True when the name of the method could not be had.
pub open spec fn method_name_failed<T: JVMTI, I: JNI>(env: &Environment<T, I>, method: JavaMethod) -> bool {
    exists|answer: Result<MethodSignature, NativeError>|
        #[trigger] call_ensures(T::get_method_name, (&env.jvmti, method), answer) && answer is Err
}

/// True when the provider cannot describe the thread.
pub open spec fn thread_unresolvable<T: JVMTI, I: JNI>(env: &Environment<T, I>, thread: JavaThread) -> bool {
    forall|answer: Result<jvmtiThreadInfo, NativeError>| #[trigger] call_ensures(T::get_thread_info, (&env.jvmti, &thread), answer) ==> answer is Err
}

/// Resolves the values of a method event: the thread, the class that
/// declares the method, the signature of that class, the name of the
/// method. If any step fails no later step is made, and every value of the
/// event is its placeholder: a resolved value never stands beside a
/// placeholder.
pub fn resolve_method_invocation<T: JVMTI, I: JNI>(
    env: &Environment<T, I>,
    thread: JavaThread,
    method: JavaMethod,
) -> (event: MethodInvocationEvent)
    ensures
        invocation_resolved(env, thread, method, event) || (event.is_unknown() && (thread_failed(env, thread)
            || declaring_class_failed(env, method) || method_name_failed(env, method))),
        thread_unresolvable(env, thread) ==> event.is_unknown(),
{
    let answer = env.jvmti.get_thread_info(&thread);
    let ghost info_answer = answer;
    let info = match answer {
        Ok(info) => info,
        Err(_) => {
            assert(call_ensures(T::get_thread_info, (&env.jvmti, &thread), info_answer) && info_answer is Err);
            return MethodInvocationEvent::unknown();
        },
    };
    let ghost seen_info = info;
    let answer = info.into_thread(env, thread);
    let ghost thread_answer = answer;
    let described = match answer {
        Ok(described) => described,
        Err(_) => {
            assert(call_ensures(T::get_thread_info, (&env.jvmti, &thread), Ok::<jvmtiThreadInfo, NativeError>(seen_info))
                && call_ensures(jvmtiThreadInfo::into_thread::<T, I>, (seen_info, env, thread), thread_answer)
                && thread_answer is Err);
            return MethodInvocationEvent::unknown();
        },
    };
    let answer = env.jvmti.get_method_declaring_class(&method);
    let class = match answer {
        Ok(class) => class,
        Err(_) => {
            assert(call_ensures(T::get_method_declaring_class, (&env.jvmti, &method), answer) && answer is Err);
            return MethodInvocationEvent::unknown();
        },
    };
    let answer = env.jvmti.get_class_signature(&class.native_id);
    let ghost class_answer = answer;
    let class_sig = match answer {
        Ok(class_sig) => class_sig,
        Err(_) => {
            assert(call_ensures(T::get_method_declaring_class, (&env.jvmti, &method), Ok::<ClassId, NativeError>(class))
                && call_ensures(T::get_class_signature, (&env.jvmti, &class.native_id), class_answer)
                && class_answer is Err);
            return MethodInvocationEvent::unknown();
        },
    };
    let answer = env.jvmti.get_method_name(method);
    let ghost name_answer = answer;
    let method_sig = match answer {
        Ok(method_sig) => method_sig,
        Err(_) => {
            assert(call_ensures(T::get_method_name, (&env.jvmti, method), name_answer) && name_answer is Err);
            return MethodInvocationEvent::unknown();
        },
    };
    let event = MethodInvocationEvent {
        method_id: MethodId { native_id: method },
        method_sig,
        class_sig,
        thread: described,
    };
    assert(call_ensures(T::get_thread_info, (&env.jvmti, &thread), Ok::<jvmtiThreadInfo, NativeError>(seen_info))
        && call_ensures(T::get_method_declaring_class, (&env.jvmti, &method), Ok::<ClassId, NativeError>(class)));
    assert(invocation_resolved(env, thread, method, event));
    event
}

/// True when both steps of resolving the class of an object succeeded and
/// `class` holds what they gave.
pub open spec fn class_resolved<T: JVMTI, I: JNI>(
    env: &Environment<T, I>,
    object: JavaObject,
    class: Class,
) -> bool {
    &&& call_ensures(I::get_object_class, (&env.jni, &object), Ok::<JavaClass, JNIError>(class.id.native_id))
    &&& call_ensures(T::get_class_signature, (&env.jvmti, &class.id.native_id), Ok::<ClassSignature, NativeError>(class.signature))
}

/// True when the class of the object could not be had: asking for the class
/// failed, or asking for its signature failed.
pub open spec fn object_class_failed<T: JVMTI, I: JNI>(env: &Environment<T, I>, object: JavaObject) -> bool {
    ||| exists|answer: Result<JavaClass, JNIError>|
        #[trigger] call_ensures(I::get_object_class, (&env.jni, &object), answer) && answer is Err
    ||| exists|class: JavaClass, answer: Result<ClassSignature, NativeError>|
        {
            &&& #[trigger] call_ensures(I::get_object_class, (&env.jni, &object), Ok::<JavaClass, JNIError>(class))
            &&& #[trigger] call_ensures(T::get_class_signature, (&env.jvmti, &class), answer)
            &&& answer is Err
        }
}

/// Resolves the class of an object and the signature of that class. If
/// either step fails the result is the placeholder class.
pub fn resolve_object_class<T: JVMTI, I: JNI>(env: &Environment<T, I>, object: JavaObject) -> (class: Class)
    ensures
        class_resolved(env, object, class) || (class.id == ClassId::spec_unknown() && class.signature.is_unknown()
            && object_class_failed(env, object)),
{
    let answer = env.jni.get_object_class(&object);
    let ghost class_answer = answer;
    let native_id = match answer {
        Ok(native_id) => native_id,
        Err(_) => {
            assert(call_ensures(I::get_object_class, (&env.jni, &object), class_answer) && class_answer is Err);
            return Class::unknown();
        },
    };
    let answer = env.jvmti.get_class_signature(&native_id);
    let ghost signature_answer = answer;
    match answer {
        Ok(signature) => Class::new(ClassId { native_id }, signature),
        Err(_) => {
            assert(call_ensures(I::get_object_class, (&env.jni, &object), Ok::<JavaClass, JNIError>(native_id))
                && call_ensures(T::get_class_signature, (&env.jvmti, &native_id), signature_answer)
                && signature_answer is Err);
            Class::unknown()
        },
    }
}

/// True when describing the thread succeeded and `described` is what it
/// gave.
pub open spec fn thread_resolved<T: JVMTI, I: JNI>(
    env: &Environment<T, I>,
    thread: JavaThread,
    described: Thread,
) -> bool {
    exists|info: jvmtiThreadInfo|
        {
            &&& #[trigger] call_ensures(T::get_thread_info, (&env.jvmti, &thread), Ok::<jvmtiThreadInfo, NativeError>(info))
            &&& call_ensures(jvmtiThreadInfo::into_thread::<T, I>, (info, env, thread), Ok::<Thread, NativeError>(described))
        }
}

/// Resolves the description of a thread. If that fails the result is the
/// placeholder thread.
pub fn resolve_thread<T: JVMTI, I: JNI>(env: &Environment<T, I>, thread: JavaThread) -> (described: Thread)
    ensures
        thread_resolved(env, thread, described) || (described.is_unknown() && thread_failed(env, thread)),
        thread_unresolvable(env, thread) ==> described.is_unknown(),
{
    let answer = env.jvmti.get_thread_info(&thread);
    let ghost info_answer = answer;
    let info = match answer {
        Ok(info) => info,
        Err(_) => {
            assert(call_ensures(T::get_thread_info, (&env.jvmti, &thread), info_answer) && info_answer is Err);
            return Thread::unknown();
        },
    };
    let ghost seen_info = info;
    let answer = info.into_thread(env, thread);
    let ghost thread_answer = answer;
    match answer {
        Ok(described) => {
            assert(call_ensures(T::get_thread_info, (&env.jvmti, &thread), Ok::<jvmtiThreadInfo, NativeError>(seen_info)));
            described
        },
        Err(_) => {
            assert(call_ensures(T::get_thread_info, (&env.jvmti, &thread), Ok::<jvmtiThreadInfo, NativeError>(seen_info))
                && call_ensures(jvmtiThreadInfo::into_thread::<T, I>, (seen_info, env, thread), thread_answer)
                && thread_answer is Err);
            Thread::unknown()
        },
    }
}

/// The adapter for the allocation of an object. Where a callback is
/// registered the thread is resolved and the callback is to be called once,
/// with the class, the thread or its placeholder, and the size.
pub fn local_cb_vm_object_alloc<T: JVMTI, I: JNI>(
    registry: &CallbackRegistry,
    env: &Environment<T, I>,
    thread: JavaThread,
    object: JavaObject,
    object_klass: JavaClass,
    size: i64,
) -> (delivery: Option<Delivery>)
    ensures
        delivery is Some <==> registry.callbacks.callback(VMEvent::VMObjectAlloc) is Some,
        delivery matches Some(made) ==> {
            &&& made.kind == VMEvent::VMObjectAlloc
            &&& Some(made.callback) == registry.callbacks.callback(VMEvent::VMObjectAlloc)
            &&& made.payload matches Payload::ObjectAllocation(event)
            &&& event.class_id == object_klass
            &&& event.size == size
            &&& (thread_resolved(env, thread, event.thread) || (event.thread.is_unknown() && thread_failed(
                env,
                thread,
            )))
        },
{
    match registry.registered(VMEvent::VMObjectAlloc) {
        Some(callback) => {
            let described = resolve_thread(env, thread);
            let event = ObjectAllocationEvent { class_id: object_klass, thread: described, size };
            Some(Delivery { kind: VMEvent::VMObjectAlloc, callback, payload: Payload::ObjectAllocation(event) })
        },
        None => None,
    }
}

/// True when `delivery` is what a method event of `kind` amounts to: no
/// invocation where no callback is registered; otherwise one invocation of
/// the registered callback, with either the resolved values or the
/// placeholder of every value.
pub open spec fn method_delivery<T: JVMTI, I: JNI>(
    registry: CallbackRegistry,
    kind: VMEvent,
    env: &Environment<T, I>,
    thread: JavaThread,
    method: JavaMethod,
    delivery: Option<Delivery>,
) -> bool {
    &&& delivery is Some <==> registry.callbacks.callback(kind) is Some
    &&& delivery matches Some(made) ==> {
        &&& made.kind == kind
        &&& Some(made.callback) == registry.callbacks.callback(kind)
        &&& made.payload matches Payload::MethodInvocation(event)
        &&& (invocation_resolved(env, thread, method, event) || (event.is_unknown() && (thread_failed(env, thread)
            || declaring_class_failed(env, method) || method_name_failed(env, method))))
        &&& (thread_unresolvable(env, thread) ==> event.is_unknown())
    }
}

/// The adapter for the entry into a method.
pub fn local_cb_method_entry<T: JVMTI, I: JNI>(
    registry: &CallbackRegistry,
    env: &Environment<T, I>,
    thread: JavaThread,
    method: JavaMethod,
) -> (delivery: Option<Delivery>)
    ensures
        method_delivery(*registry, VMEvent::MethodEntry, env, thread, method, delivery),
{
    match registry.registered(VMEvent::MethodEntry) {
        Some(callback) => {
            let event = resolve_method_invocation(env, thread, method);
            Some(Delivery { kind: VMEvent::MethodEntry, callback, payload: Payload::MethodInvocation(event) })
        },
        None => None,
    }
}

/// The adapter for the exit from a method.
pub fn local_cb_method_exit<T: JVMTI, I: JNI>(
    registry: &CallbackRegistry,
    env: &Environment<T, I>,
    thread: JavaThread,
    method: JavaMethod,
) -> (delivery: Option<Delivery>)
    ensures
        method_delivery(*registry, VMEvent::MethodExit, env, thread, method, delivery),
{
    match registry.registered(VMEvent::MethodExit) {
        Some(callback) => {
            let event = resolve_method_invocation(env, thread, method);
            Some(Delivery { kind: VMEvent::MethodExit, callback, payload: Payload::MethodInvocation(event) })
        },
        None => None,
    }
}

/// The adapter for a thrown exception. Where a callback is registered the
/// class of the exception is resolved and the callback is to be called
/// once, with that class or its placeholder.
pub fn local_cb_exception<T: JVMTI, I: JNI>(
    registry: &CallbackRegistry,
    env: &Environment<T, I>,
    exception: JavaObject,
) -> (delivery: Option<Delivery>)
    ensures
        delivery is Some <==> registry.callbacks.callback(VMEvent::Exception) is Some,
        delivery matches Some(made) ==> {
            &&& made.kind == VMEvent::Exception
            &&& Some(made.callback) == registry.callbacks.callback(VMEvent::Exception)
            &&& made.payload matches Payload::Exception(class)
            &&& (class_resolved(env, exception, class) || (class.id == ClassId::spec_unknown()
                && class.signature.is_unknown() && object_class_failed(env, exception)))
        },
{
    match registry.registered(VMEvent::Exception) {
        Some(callback) => {
            let class = resolve_object_class(env, exception);
            Some(Delivery { kind: VMEvent::Exception, callback, payload: Payload::Exception(class) })
        },
        None => None,
    }
}

/// The adapter for a caught exception: one invocation of the registered
/// callback, without an argument.
pub fn local_cb_exception_catch(registry: &CallbackRegistry) -> (delivery: Option<Delivery>)
    ensures
        delivery == delivery_of(registry.callbacks, VMEvent::ExceptionCatch, Payload::Nothing),
{
    registry.dispatch(VMEvent::ExceptionCatch, Payload::Nothing)
}

} // verus!
