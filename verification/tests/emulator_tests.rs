use jvmti::capabilities::Capabilities;
use jvmti::capabilities::Capability;
use jvmti::class::ClassId;
use jvmti::emulator::EmulatedInterop;
use jvmti::emulator::JVMEmulator;
use jvmti::emulator::SYNTHETIC_METHOD;
use jvmti::environment::jni::JNIEnvironment;
use jvmti::environment::jni::JNIError;
use jvmti::environment::jni::JNI;
use jvmti::environment::jvm::JVMF;
use jvmti::environment::jvmti::HeapObjectFilter;
use jvmti::environment::jvmti::JVMTIError;
use jvmti::environment::jvmti::JVMTI;
use jvmti::environment::Environment;
use jvmti::error::NativeError;
use jvmti::event::Callback;
use jvmti::event::EventCallbacks;
use jvmti::event::VMEvent;
use jvmti::event_handler::local_cb_method_entry;
use jvmti::event_handler::local_cb_method_exit;
use jvmti::event_handler::CallbackRegistry;
use jvmti::event_handler::Delivery;
use jvmti::event_handler::Payload;
use jvmti::mem::MemoryAllocation;
use jvmti::method::MethodId;
use jvmti::method::MethodSignature;
use jvmti::runtime::MethodInvocationEvent;
use jvmti::thread::Thread;
use jvmti::thread::ThreadId;
use jvmti::version::VersionNumber;

fn all_kinds() -> Vec<VMEvent> {
    vec![
        VMEvent::VMInit,
        VMEvent::VMDeath,
        VMEvent::VMObjectAlloc,
        VMEvent::VMStart,
        VMEvent::MethodEntry,
        VMEvent::MethodExit,
        VMEvent::ThreadStart,
        VMEvent::ThreadEnd,
        VMEvent::Exception,
        VMEvent::ExceptionCatch,
        VMEvent::MonitorWait,
        VMEvent::MonitorWaited,
        VMEvent::MonitorContendedEnter,
        VMEvent::MonitorContendedEntered,
        VMEvent::FieldAccess,
        VMEvent::FieldModification,
        VMEvent::GarbageCollectionStart,
        VMEvent::GarbageCollectionFinish,
        VMEvent::ClassFileLoadHook,
    ]
}

fn only_method_entry(id: u64) -> EventCallbacks {
    let mut table = EventCallbacks::new();
    table.method_entry = Some(Callback { id });
    table
}

fn resolved_event() -> MethodInvocationEvent {
    MethodInvocationEvent {
        method_id: MethodId { native_id: 1 },
        method_sig: MethodSignature::new("run".to_string(), "()V".to_string()),
        class_sig: jvmti::class::ClassSignature::new(jvmti::class::JavaType::Int, "I".to_string()),
        thread: Thread { id: ThreadId { native_id: 2 }, name: "main".to_string(), priority: 5, is_daemon: false },
    }
}

#[test]
fn new_emulator_holds_nothing() {
    let emulator = JVMEmulator::new();
    assert_eq!(emulator.capabilities, Capabilities::new());
    assert_eq!(emulator.callbacks, EventCallbacks::new());
    assert_eq!(emulator.events, [false; 19]);
    for kind in all_kinds() {
        assert!(!emulator.is_enabled(kind));
        assert!(!emulator.is_active(kind));
    }
}

#[test]
fn emulator_version_is_unknown() {
    assert_eq!(JVMEmulator::new().get_version_number(), VersionNumber::unknown());
}

#[test]
fn emulator_add_capabilities_returns_the_union() {
    let mut emulator = JVMEmulator::new();
    let mut first = Capabilities::new();
    first.set(Capability::CanTagObjects, true);
    assert_eq!(emulator.add_capabilities(&first), Ok(first));
    let mut second = Capabilities::new();
    second.set(Capability::CanSuspend, true);
    let held = emulator.add_capabilities(&second).unwrap();
    assert!(held.has(Capability::CanTagObjects));
    assert!(held.has(Capability::CanSuspend));
    assert_eq!(held, first.merge(&second));
    assert_eq!(emulator.get_capabilities(), held);
}

#[test]
fn emulator_add_capabilities_never_unsets_a_flag() {
    let mut emulator = JVMEmulator::new();
    let mut first = Capabilities::new();
    first.set(Capability::CanRetransformClasses, true);
    emulator.add_capabilities(&first).unwrap();
    let held = emulator.add_capabilities(&Capabilities::new()).unwrap();
    assert_eq!(held, first);
    assert!(emulator.get_capabilities().has(Capability::CanRetransformClasses));
}

#[test]
fn emulator_get_capabilities_is_a_snapshot() {
    let mut emulator = JVMEmulator::new();
    let mut snapshot = emulator.get_capabilities();
    snapshot.set(Capability::CanPopFrame, true);
    assert_eq!(emulator.get_capabilities(), Capabilities::new());
    let mut asked = Capabilities::new();
    asked.set(Capability::CanSuspend, true);
    let before = emulator.get_capabilities();
    emulator.add_capabilities(&asked).unwrap();
    assert_eq!(before, Capabilities::new());
}

#[test]
fn notification_without_a_callback_delivers_nothing() {
    let mut emulator = JVMEmulator::new();
    assert_eq!(emulator.set_event_notification_mode(VMEvent::MethodEntry, true), None);
    assert!(emulator.is_enabled(VMEvent::MethodEntry));
    assert!(!emulator.is_active(VMEvent::MethodEntry));
    assert_eq!(emulator.raise_method_entry(2, 1), None);
    assert_eq!(emulator.emit_method_entry(resolved_event()), None);
}

#[test]
fn a_callback_without_notification_delivers_nothing() {
    let mut emulator = JVMEmulator::new();
    assert_eq!(emulator.set_event_callbacks(only_method_entry(1)), None);
    assert!(!emulator.is_active(VMEvent::MethodEntry));
    assert_eq!(emulator.raise_method_entry(2, 1), None);
    assert_eq!(emulator.emit_method_entry(resolved_event()), None);
}

#[test]
fn no_event_is_delivered_before_the_first_table() {
    let mut emulator = JVMEmulator::new();
    for kind in all_kinds() {
        assert_eq!(emulator.set_event_notification_mode(kind, true), None);
    }
    for kind in all_kinds() {
        assert!(!emulator.is_active(kind));
    }
    assert_eq!(emulator.raise_method_entry(2, 1), None);
}

#[test]
fn callback_then_notification_delivers_once() {
    let mut emulator = JVMEmulator::new();
    emulator.set_event_callbacks(only_method_entry(1));
    emulator.set_event_notification_mode(VMEvent::MethodEntry, true);
    assert!(emulator.is_active(VMEvent::MethodEntry));
    assert_eq!(
        emulator.emit_method_entry(resolved_event()),
        Some(Delivery {
            kind: VMEvent::MethodEntry,
            callback: Callback { id: 1 },
            payload: Payload::MethodInvocation(resolved_event()),
        })
    );
}

#[test]
fn notification_then_callback_delivers_once() {
    let mut emulator = JVMEmulator::new();
    emulator.set_event_notification_mode(VMEvent::MethodEntry, true);
    emulator.set_event_callbacks(only_method_entry(1));
    assert!(emulator.is_active(VMEvent::MethodEntry));
    assert_eq!(
        emulator.emit_method_entry(resolved_event()),
        Some(Delivery {
            kind: VMEvent::MethodEntry,
            callback: Callback { id: 1 },
            payload: Payload::MethodInvocation(resolved_event()),
        })
    );
}

#[test]
fn the_two_orders_give_the_same_state() {
    for kind in all_kinds() {
        for mode in [true, false] {
            let mut table = EventCallbacks::new();
            table.set(kind, Some(Callback { id: 3 }));
            let mut first = JVMEmulator::new();
            first.set_event_callbacks(table);
            first.set_event_notification_mode(kind, mode);
            let mut second = JVMEmulator::new();
            second.set_event_notification_mode(kind, mode);
            second.set_event_callbacks(table);
            assert_eq!(first, second);
            for other in all_kinds() {
                assert_eq!(first.is_active(other), other == kind && mode);
            }
        }
    }
}

#[test]
fn notification_can_be_switched_off_again() {
    let mut emulator = JVMEmulator::new();
    emulator.set_event_callbacks(only_method_entry(1));
    emulator.set_event_notification_mode(VMEvent::MethodEntry, true);
    emulator.set_event_notification_mode(VMEvent::MethodEntry, false);
    assert!(!emulator.is_active(VMEvent::MethodEntry));
    assert_eq!(emulator.raise_method_entry(2, 1), None);
}

#[test]
fn replacing_the_table_replaces_every_slot() {
    let mut emulator = JVMEmulator::new();
    emulator.set_event_notification_mode(VMEvent::MethodEntry, true);
    emulator.set_event_notification_mode(VMEvent::MethodExit, true);
    emulator.set_event_callbacks(only_method_entry(1));
    let mut table = EventCallbacks::new();
    table.method_exit = Some(Callback { id: 2 });
    emulator.set_event_callbacks(table);
    assert_eq!(emulator.callbacks, table);
    assert!(!emulator.is_active(VMEvent::MethodEntry));
    assert!(emulator.is_active(VMEvent::MethodExit));
    assert_eq!(emulator.raise_method_entry(2, 1), None);
}

#[test]
fn raised_method_entry_delivers_every_sentinel_once() {
    let mut emulator = JVMEmulator::new();
    emulator.set_event_callbacks(only_method_entry(1));
    emulator.set_event_notification_mode(VMEvent::MethodEntry, true);
    let delivery = emulator.raise_method_entry(2, SYNTHETIC_METHOD).unwrap();
    assert_eq!(
        delivery,
        Delivery {
            kind: VMEvent::MethodEntry,
            callback: Callback { id: 1 },
            payload: Payload::MethodInvocation(MethodInvocationEvent::unknown()),
        }
    );
}

#[test]
fn end_to_end_only_the_fired_kind_is_delivered() {
    let mut emulator = JVMEmulator::new();
    let mut registry = CallbackRegistry::new();
    assert_eq!(registry.install(&mut emulator, only_method_entry(1)), None);
    assert_eq!(emulator.set_event_notification_mode(VMEvent::MethodEntry, true), None);

    let mut deliveries: Vec<Delivery> = Vec::new();
    if let Some(delivery) = emulator.raise_method_entry(2, SYNTHETIC_METHOD) {
        deliveries.push(delivery);
    }
    assert_eq!(deliveries.len(), 1);
    assert_eq!(deliveries[0].kind, VMEvent::MethodEntry);
    assert_eq!(deliveries[0].callback, Callback { id: 1 });
    match &deliveries[0].payload {
        Payload::MethodInvocation(event) => {
            let sentinel = *event == MethodInvocationEvent::unknown();
            let resolved = event.method_id == MethodId { native_id: SYNTHETIC_METHOD }
                && event.thread != Thread::unknown()
                && event.method_sig != MethodSignature::unknown();
            assert!(sentinel || resolved);
            assert!(sentinel != resolved);
        },
        other => panic!("unexpected payload {:?}", other),
    }
    for kind in all_kinds() {
        assert_eq!(emulator.is_active(kind), kind == VMEvent::MethodEntry);
    }
    let env = Environment::new(emulator, JNIEnvironment::new(EmulatedInterop {}));
    assert_eq!(local_cb_method_exit(&registry, &env, 2, SYNTHETIC_METHOD), None);
}

#[test]
fn end_to_end_registered_but_unfired_kinds_are_not_called() {
    let mut emulator = JVMEmulator::new();
    let mut table = only_method_entry(1);
    table.method_exit = Some(Callback { id: 2 });
    table.exception = Some(Callback { id: 3 });
    let mut registry = CallbackRegistry::new();
    registry.install(&mut emulator, table);
    emulator.set_event_notification_mode(VMEvent::MethodEntry, true);
    let delivery = emulator.raise_method_entry(2, 9).unwrap();
    assert_eq!(delivery.callback, Callback { id: 1 });
    assert_eq!(delivery.kind, VMEvent::MethodEntry);
    assert!(!emulator.is_active(VMEvent::MethodExit));
    assert!(!emulator.is_active(VMEvent::Exception));
}

#[test]
fn adapter_over_the_emulator_downgrades_to_sentinels() {
    let emulator = JVMEmulator::new();
    let env = Environment::new(emulator, JNIEnvironment::new(EmulatedInterop {}));
    let registry = CallbackRegistry { callbacks: only_method_entry(6) };
    let delivery = local_cb_method_entry(&registry, &env, 2, SYNTHETIC_METHOD).unwrap();
    assert_eq!(delivery.payload, Payload::MethodInvocation(MethodInvocationEvent::unknown()));
}

#[test]
fn emulator_knows_the_synthetic_method_only() {
    let emulator = JVMEmulator::new();
    assert_eq!(SYNTHETIC_METHOD, 1);
    let found = emulator.get_method_name(SYNTHETIC_METHOD).unwrap();
    assert_eq!(found.name, "");
    assert_eq!(found.signature, "");
    assert_eq!(found, MethodSignature::new(String::new(), String::new()));
    for other in [0u64, 2, 3, 0xFFFF, u64::MAX] {
        assert_eq!(emulator.get_method_name(other), Err(NativeError::NotImplemented));
    }
}

#[test]
fn emulator_allocation_round_trip_succeeds() {
    let emulator = JVMEmulator::new();
    for len in [0usize, 1, 64, 4096, usize::MAX] {
        let memory = emulator.allocate(len).unwrap();
        assert_eq!(memory, MemoryAllocation { ptr: 0, len });
        assert_eq!(emulator.deallocate(memory.ptr), Ok(()));
        assert_eq!(memory.release(&emulator), Ok(()));
    }
}

#[test]
fn emulator_answers_not_implemented_for_the_rest() {
    let emulator = JVMEmulator::new();
    assert_eq!(emulator.get_thread_info(&1).err(), Some(NativeError::NotImplemented));
    assert_eq!(emulator.get_method_declaring_class(&1), Err::<ClassId, _>(NativeError::NotImplemented));
    assert_eq!(emulator.get_class_signature(&1).err(), Some(NativeError::NotImplemented));
    assert_eq!(emulator.get_all_threads(), Err(NativeError::NotImplemented));
    assert_eq!(emulator.get_stack_trace(1), Err(NativeError::NotImplemented));
    assert_eq!(emulator.get_local_object(1, 0, 0), Err(NativeError::NotImplemented));
    assert_eq!(emulator.get_thread_state(1), Err(NativeError::NotImplemented));
    assert_eq!(emulator.add_to_bootstrap_classloader_search("a.jar"), Err(NativeError::NotImplemented));
    assert_eq!(emulator.raw_monitor_enter(&1), Err(NativeError::NotImplemented));
    assert_eq!(emulator.raw_monitor_exit(1), Err(NativeError::NotImplemented));
    assert_eq!(emulator.create_raw_monitor("m"), Err(NativeError::NotImplemented));
    assert_eq!(emulator.destroy_raw_monitor(1), Err(NativeError::NotImplemented));
    assert_eq!(emulator.retransform_classes(&[1]), Err(NativeError::NotImplemented));
    assert_eq!(emulator.iterate_over_heap(HeapObjectFilter::Either, 1, 2), Err(NativeError::NotImplemented));
    assert_eq!(
        emulator.iterate_over_instances_of_class(1, HeapObjectFilter::Either, 1, 2),
        Err(NativeError::NotImplemented)
    );
    assert_eq!(
        emulator.get_objects_with_tags(&[1]),
        Err(JVMTIError::NativeError(NativeError::NotImplemented))
    );
    assert_eq!(emulator.get_current_thread(), Err(NativeError::NotImplemented));
    assert_eq!(emulator.get_classloader(&1), Err(NativeError::NotImplemented));
    assert_eq!(emulator.get_object_size(&1), Err(NativeError::NotImplemented));
    assert_eq!(emulator.get_object_hash_code(&1), Err(NativeError::NotImplemented));
    assert_eq!(emulator.get_loaded_classes(), Err(NativeError::NotImplemented));
    assert_eq!(emulator.get_class_loader_classes(&1), Err(NativeError::NotImplemented));
    assert_eq!(emulator.is_array_class(&1), Err(NativeError::NotImplemented));
    assert_eq!(emulator.force_garbage_collection(), Err(NativeError::NotImplemented));
    assert_eq!(
        emulator.iterate_over_objects_reachable_from_object(&1, 1, 2),
        Err(NativeError::NotImplemented)
    );
    assert_eq!(emulator.run_agent_thread(1, 2, 3, 4), Ok(()));
}

#[test]
fn emulator_as_a_machine_hands_out_a_fresh_emulator() {
    let mut emulator = JVMEmulator::new();
    emulator.set_event_notification_mode(VMEvent::VMInit, true);
    let fresh = emulator.get_environment().unwrap();
    assert_eq!(fresh, JVMEmulator::new());
    assert_eq!(emulator.destroy(), Ok(()));
    assert_eq!(emulator.attach_current_thread("agent").err(), Some(NativeError::NotImplemented));
}

#[test]
fn emulated_interop_finds_nothing() {
    let env = JNIEnvironment::new(EmulatedInterop {});
    assert_eq!(env.find_class("java/lang/String"), Err(JNIError::ClassNotFound("java/lang/String".to_string())));
    assert_eq!(
        env.get_method(&5, "run", "()V"),
        Err(JNIError::MethodNotFound("run".to_string(), "()V".to_string()))
    );
    assert_eq!(env.get_object_class(&5), Ok(0));
    assert_eq!(env.get_object_class(&0), Err(JNIError::ObjectIsNull));
    assert_eq!(env.get_string_utf_chars(&5), Ok("(NULL)".to_string()));
    assert_eq!(env.is_instance_of(&5, &6), Ok(false));
    assert_eq!(env.new_global_ref(&5), Ok(5));
}

#[test]
fn environment_over_the_emulator_behaves_as_the_emulator() {
    let mut env = Environment::new(JVMEmulator::new(), JNIEnvironment::new(EmulatedInterop {}));
    let mut asked = Capabilities::new();
    asked.set(Capability::CanGenerateMethodEntryEvents, true);
    assert_eq!(env.add_capabilities(&asked), Ok(asked));
    assert_eq!(env.get_capabilities(), asked);
    assert_eq!(env.set_event_callbacks(only_method_entry(1)), None);
    assert_eq!(env.set_event_notification_mode(VMEvent::MethodEntry, true), None);
    assert!(env.jvmti.is_active(VMEvent::MethodEntry));
    assert_eq!(env.get_method_name(2), Err(NativeError::NotImplemented));
    assert_eq!(env.allocate(8), Ok(MemoryAllocation { ptr: 0, len: 8 }));
    assert_eq!(env.deallocate(0), Ok(()));
    assert_eq!(env.delete_local_ref(&0), Err(JNIError::ObjectIsNull));
}
