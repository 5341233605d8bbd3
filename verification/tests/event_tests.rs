use jvmti::event::Callback;
use jvmti::event::EventCallbacks;
use jvmti::event::VMEvent;
use jvmti::event::EVENT_KIND_COUNT;
use jvmti::event::NATIVE_SLOT_COUNT;

fn all_kinds() -> Vec<VMEvent> {
    vec![
        VMEvent::VMInit,
        VMEvent::VMDeath,
        VMEvent::VMObjectAlloc,
        VMEvent::VMStart,
        VMEvent::MethodEntry,
        VMEvent::MethodExit,
        VMEvent::ThreadStart,
        VMEvent::ThreadEnd,
        VMEvent::Exception,
        VMEvent::ExceptionCatch,
        VMEvent::MonitorWait,
        VMEvent::MonitorWaited,
        VMEvent::MonitorContendedEnter,
        VMEvent::MonitorContendedEntered,
        VMEvent::FieldAccess,
        VMEvent::FieldModification,
        VMEvent::GarbageCollectionStart,
        VMEvent::GarbageCollectionFinish,
        VMEvent::ClassFileLoadHook,
    ]
}

#[test]
fn every_kind_has_its_native_code() {
    assert_eq!(VMEvent::VMInit.code(), 50);
    assert_eq!(VMEvent::VMDeath.code(), 51);
    assert_eq!(VMEvent::ThreadStart.code(), 52);
    assert_eq!(VMEvent::ThreadEnd.code(), 53);
    assert_eq!(VMEvent::ClassFileLoadHook.code(), 54);
    assert_eq!(VMEvent::VMStart.code(), 57);
    assert_eq!(VMEvent::Exception.code(), 58);
    assert_eq!(VMEvent::ExceptionCatch.code(), 59);
    assert_eq!(VMEvent::FieldAccess.code(), 63);
    assert_eq!(VMEvent::FieldModification.code(), 64);
    assert_eq!(VMEvent::MethodEntry.code(), 65);
    assert_eq!(VMEvent::MethodExit.code(), 66);
    assert_eq!(VMEvent::MonitorWait.code(), 73);
    assert_eq!(VMEvent::MonitorWaited.code(), 74);
    assert_eq!(VMEvent::MonitorContendedEnter.code(), 75);
    assert_eq!(VMEvent::MonitorContendedEntered.code(), 76);
    assert_eq!(VMEvent::GarbageCollectionStart.code(), 81);
    assert_eq!(VMEvent::GarbageCollectionFinish.code(), 82);
    assert_eq!(VMEvent::VMObjectAlloc.code(), 84);
}

#[test]
fn codes_and_places_identify_the_kind() {
    let kinds = all_kinds();
    assert_eq!(kinds.len(), EVENT_KIND_COUNT);
    for (place, kind) in kinds.iter().enumerate() {
        assert_eq!(kind.index(), place);
        assert_eq!(VMEvent::from_code(kind.code()), Some(*kind));
        for other in kinds.iter() {
            if other != kind {
                assert_ne!(other.code(), kind.code());
            }
        }
    }
}

#[test]
fn from_code_refuses_codes_of_no_kind() {
    for code in [0u32, 49, 55, 56, 60, 61, 62, 67, 68, 69, 70, 71, 72, 77, 78, 79, 80, 83, 85, u32::MAX] {
        assert_eq!(VMEvent::from_code(code), None, "code {}", code);
    }
}

#[test]
fn new_table_has_no_callback() {
    let table = EventCallbacks::new();
    for kind in all_kinds() {
        assert_eq!(table.get(kind), None);
    }
    assert_eq!(table, EventCallbacks::default());
    assert_eq!(table.method_entry, None);
}

#[test]
fn set_fills_one_slot_only() {
    let mut table = EventCallbacks::new();
    table.set(VMEvent::MethodExit, Some(Callback { id: 4 }));
    for kind in all_kinds() {
        if kind == VMEvent::MethodExit {
            assert_eq!(table.get(kind), Some(Callback { id: 4 }));
        } else {
            assert_eq!(table.get(kind), None);
        }
    }
    assert_eq!(table.method_exit, Some(Callback { id: 4 }));
    table.set(VMEvent::MethodExit, None);
    assert_eq!(table, EventCallbacks::new());
}

#[test]
fn get_reads_the_field_of_the_kind() {
    let mut table = EventCallbacks::new();
    table.vm_init = Some(Callback { id: 1 });
    table.class_file_load_hook = Some(Callback { id: 2 });
    table.garbage_collection_finish = Some(Callback { id: 3 });
    assert_eq!(table.get(VMEvent::VMInit), Some(Callback { id: 1 }));
    assert_eq!(table.get(VMEvent::ClassFileLoadHook), Some(Callback { id: 2 }));
    assert_eq!(table.get(VMEvent::GarbageCollectionFinish), Some(Callback { id: 3 }));
    assert_eq!(table.get(VMEvent::VMDeath), None);
}

#[test]
fn to_native_of_an_empty_table_wires_nothing() {
    let native = EventCallbacks::new().to_native();
    assert_eq!(native.wired, [false; 35]);
    assert_eq!(native.wired.len(), NATIVE_SLOT_COUNT);
}

#[test]
fn to_native_wires_exactly_the_registered_kinds() {
    let mut table = EventCallbacks::new();
    table.method_entry = Some(Callback { id: 1 });
    let native = table.to_native();
    let mut expected = [false; 35];
    expected[15] = true;
    assert_eq!(native.wired, expected);
    assert!(native.is_wired(VMEvent::MethodEntry));
    assert!(!native.is_wired(VMEvent::MethodExit));

    table.vm_object_alloc = Some(Callback { id: 2 });
    table.vm_init = Some(Callback { id: 3 });
    table.exception = Some(Callback { id: 4 });
    let native = table.to_native();
    expected[34] = true;
    expected[0] = true;
    expected[8] = true;
    assert_eq!(native.wired, expected);
}

#[test]
fn to_native_of_a_full_table_leaves_the_other_slots_unwired() {
    let mut table = EventCallbacks::new();
    for kind in all_kinds() {
        table.set(kind, Some(Callback { id: 9 }));
    }
    let native = table.to_native();
    let mut wired = 0;
    for slot in 0..35 {
        let belongs = VMEvent::from_code(slot as u32 + 50).is_some();
        assert_eq!(native.wired[slot], belongs, "slot {}", slot);
        if native.wired[slot] {
            wired += 1;
        }
    }
    assert_eq!(wired, 19);
}
