//! Event kinds, the table of callbacks an agent registers for them, and
//! the native table that says which trampolines are wired.

use vstd::prelude::*;

verus! {

/// Number of event kinds the callback table has a slot for.
pub const EVENT_KIND_COUNT: usize = 19;

/// The lowest numeric code the runtime gives to an event.
pub const MIN_EVENT_CODE: u32 = 50;

/// The highest numeric code the runtime gives to an event.
pub const MAX_EVENT_CODE: u32 = 84;

/// Number of slots in the native callback table, one per numeric code from
/// the lowest to the highest.
pub const NATIVE_SLOT_COUNT: usize = 35;

/// The kinds of event an agent can subscribe to.
#[derive(Clone, Copy, Debug, PartialEq, Eq, Hash, Structural)]
pub enum VMEvent {
    VMInit,
    VMDeath,
    VMObjectAlloc,
    VMStart,
    MethodEntry,
    MethodExit,
    ThreadStart,
    ThreadEnd,
    Exception,
    ExceptionCatch,
    MonitorWait,
    MonitorWaited,
    MonitorContendedEnter,
    MonitorContendedEntered,
    FieldAccess,
    FieldModification,
    GarbageCollectionStart,
    GarbageCollectionFinish,
    ClassFileLoadHook,
}

impl VMEvent {
    /// The numeric code by which the runtime knows the kind.
    pub open spec fn spec_code(self) -> u32 {
        match self {
            VMEvent::VMInit => 50,
            VMEvent::VMDeath => 51,
            VMEvent::VMObjectAlloc => 84,
            VMEvent::VMStart => 57,
            VMEvent::MethodEntry => 65,
            VMEvent::MethodExit => 66,
            VMEvent::ThreadStart => 52,
            VMEvent::ThreadEnd => 53,
            VMEvent::Exception => 58,
            VMEvent::ExceptionCatch => 59,
            VMEvent::MonitorWait => 73,
            VMEvent::MonitorWaited => 74,
            VMEvent::MonitorContendedEnter => 75,
            VMEvent::MonitorContendedEntered => 76,
            VMEvent::FieldAccess => 63,
            VMEvent::FieldModification => 64,
            VMEvent::GarbageCollectionStart => 81,
            VMEvent::GarbageCollectionFinish => 82,
            VMEvent::ClassFileLoadHook => 54,
        }
    }

    /// The place of the kind in the order of declaration.
    pub open spec fn spec_index(self) -> int {
        match self {
            VMEvent::VMInit => 0,
            VMEvent::VMDeath => 1,
            VMEvent::VMObjectAlloc => 2,
            VMEvent::VMStart => 3,
            VMEvent::MethodEntry => 4,
            VMEvent::MethodExit => 5,
            VMEvent::ThreadStart => 6,
            VMEvent::ThreadEnd => 7,
            VMEvent::Exception => 8,
            VMEvent::ExceptionCatch => 9,
            VMEvent::MonitorWait => 10,
            VMEvent::MonitorWaited => 11,
            VMEvent::MonitorContendedEnter => 12,
            VMEvent::MonitorContendedEntered => 13,
            VMEvent::FieldAccess => 14,
            VMEvent::FieldModification => 15,
            VMEvent::GarbageCollectionStart => 16,
            VMEvent::GarbageCollectionFinish => 17,
            VMEvent::ClassFileLoadHook => 18,
        }
    }

    /// The kind that a numeric code stands for, if it stands for one.
    pub open spec fn spec_from_code(code: u32) -> Option<VMEvent> {
        if code == 50 {
            Some(VMEvent::VMInit)
        } else if code == 51 {
            Some(VMEvent::VMDeath)
        } else if code == 84 {
            Some(VMEvent::VMObjectAlloc)
        } else if code == 57 {
            Some(VMEvent::VMStart)
        } else if code == 65 {
            Some(VMEvent::MethodEntry)
        } else if code == 66 {
            Some(VMEvent::MethodExit)
        } else if code == 52 {
            Some(VMEvent::ThreadStart)
        } else if code == 53 {
            Some(VMEvent::ThreadEnd)
        } else if code == 58 {
            Some(VMEvent::Exception)
        } else if code == 59 {
            Some(VMEvent::ExceptionCatch)
        } else if code == 73 {
            Some(VMEvent::MonitorWait)
        } else if code == 74 {
            Some(VMEvent::MonitorWaited)
        } else if code == 75 {
            Some(VMEvent::MonitorContendedEnter)
        } else if code == 76 {
            Some(VMEvent::MonitorContendedEntered)
        } else if code == 63 {
            Some(VMEvent::FieldAccess)
        } else if code == 64 {
            Some(VMEvent::FieldModification)
        } else if code == 81 {
            Some(VMEvent::GarbageCollectionStart)
        } else if code == 82 {
            Some(VMEvent::GarbageCollectionFinish)
        } else if code == 54 {
            Some(VMEvent::ClassFileLoadHook)
        } else {
            None
        }
    }

    /// The numeric code by which the runtime knows the kind.
    pub fn code(self) -> (code: u32)
        ensures
            code == self.spec_code(),
            MIN_EVENT_CODE <= code <= MAX_EVENT_CODE,
    {
        match self {
            VMEvent::VMInit => 50,
            VMEvent::VMDeath => 51,
            VMEvent::VMObjectAlloc => 84,
            VMEvent::VMStart => 57,
            VMEvent::MethodEntry => 65,
            VMEvent::MethodExit => 66,
            VMEvent::ThreadStart => 52,
            VMEvent::ThreadEnd => 53,
            VMEvent::Exception => 58,
            VMEvent::ExceptionCatch => 59,
            VMEvent::MonitorWait => 73,
            VMEvent::MonitorWaited => 74,
            VMEvent::MonitorContendedEnter => 75,
            VMEvent::MonitorContendedEntered => 76,
            VMEvent::FieldAccess => 63,
            VMEvent::FieldModification => 64,
            VMEvent::GarbageCollectionStart => 81,
            VMEvent::GarbageCollectionFinish => 82,
            VMEvent::ClassFileLoadHook => 54,
        }
    }

    /// The place of the kind in the order of declaration.
    pub fn index(self) -> (index: usize)
        ensures
            index == self.spec_index(),
            index < EVENT_KIND_COUNT,
    {
        match self {
            VMEvent::VMInit => 0,
            VMEvent::VMDeath => 1,
            VMEvent::VMObjectAlloc => 2,
            VMEvent::VMStart => 3,
            VMEvent::MethodEntry => 4,
            VMEvent::MethodExit => 5,
            VMEvent::ThreadStart => 6,
            VMEvent::ThreadEnd => 7,
            VMEvent::Exception => 8,
            VMEvent::ExceptionCatch => 9,
            VMEvent::MonitorWait => 10,
            VMEvent::MonitorWaited => 11,
            VMEvent::MonitorContendedEnter => 12,
            VMEvent::MonitorContendedEntered => 13,
            VMEvent::FieldAccess => 14,
            VMEvent::FieldModification => 15,
            VMEvent::GarbageCollectionStart => 16,
            VMEvent::GarbageCollectionFinish => 17,
            VMEvent::ClassFileLoadHook => 18,
        }
    }

    /// The kind that a numeric code stands for, if it stands for one.
    pub fn from_code(code: u32) -> (kind: Option<VMEvent>)
        ensures
            kind == VMEvent::spec_from_code(code),
            kind matches Some(found) ==> found.spec_code() == code,
    {
        match code {
            50 => Some(VMEvent::VMInit),
            51 => Some(VMEvent::VMDeath),
            84 => Some(VMEvent::VMObjectAlloc),
            57 => Some(VMEvent::VMStart),
            65 => Some(VMEvent::MethodEntry),
            66 => Some(VMEvent::MethodExit),
            52 => Some(VMEvent::ThreadStart),
            53 => Some(VMEvent::ThreadEnd),
            58 => Some(VMEvent::Exception),
            59 => Some(VMEvent::ExceptionCatch),
            73 => Some(VMEvent::MonitorWait),
            74 => Some(VMEvent::MonitorWaited),
            75 => Some(VMEvent::MonitorContendedEnter),
            76 => Some(VMEvent::MonitorContendedEntered),
            63 => Some(VMEvent::FieldAccess),
            64 => Some(VMEvent::FieldModification),
            81 => Some(VMEvent::GarbageCollectionStart),
            82 => Some(VMEvent::GarbageCollectionFinish),
            54 => Some(VMEvent::ClassFileLoadHook),
            _ => None,
        }
    }
}

/// Each kind has a numeric code of its own, and the code leads back to it.
pub proof fn lemma_code_identifies_kind(kind: VMEvent, other: VMEvent)
    ensures
        VMEvent::spec_from_code(kind.spec_code()) == Some(kind),
        kind.spec_code() == other.spec_code() ==> kind == other,
        kind.spec_index() == other.spec_index() ==> kind == other,
        MIN_EVENT_CODE <= kind.spec_code() <= MAX_EVENT_CODE,
        0 <= kind.spec_index() < EVENT_KIND_COUNT,
{
}

/// What an agent registers for an event kind: a token that names one of its
/// functions. The code that performs a delivery knows which function the
/// token stands for.
#[derive(Clone, Copy, Debug, PartialEq, Eq, Structural)]
pub struct Callback {
    pub id: u64,
}

/// The table of callbacks: one optional slot per event kind. A kind whose
/// slot is empty delivers nothing.
#[derive(Clone, Copy, Debug, PartialEq, Eq, Structural)]
pub struct EventCallbacks {
    pub vm_init: Option<Callback>,
    pub vm_death: Option<Callback>,
    pub vm_object_alloc: Option<Callback>,
    pub vm_start: Option<Callback>,
    pub method_entry: Option<Callback>,
    pub method_exit: Option<Callback>,
    pub thread_start: Option<Callback>,
    pub thread_end: Option<Callback>,
    pub exception: Option<Callback>,
    pub exception_catch: Option<Callback>,
    pub monitor_wait: Option<Callback>,
    pub monitor_waited: Option<Callback>,
    pub monitor_contended_enter: Option<Callback>,
    pub monitor_contended_entered: Option<Callback>,
    pub field_access: Option<Callback>,
    pub field_modification: Option<Callback>,
    pub garbage_collection_start: Option<Callback>,
    pub garbage_collection_finish: Option<Callback>,
    pub class_file_load_hook: Option<Callback>,
}

/// The native callback table: slot `code - 50` says whether the trampoline
/// for the event with that code is wired.
#[derive(Clone, Copy, Debug, PartialEq, Eq)]
pub struct NativeEventCallbacks {
    pub wired: [bool; 35],
}

impl NativeEventCallbacks {
    /// True when the trampoline for `kind` is wired.
    pub open spec fn spec_is_wired(self, kind: VMEvent) -> bool {
        self.wired@[kind.spec_code() - MIN_EVENT_CODE]
    }

    /// True when the trampoline for `kind` is wired.
    pub fn is_wired(&self, kind: VMEvent) -> (wired: bool)
        ensures
            wired == self.spec_is_wired(kind),
    {
        let slot: usize = (kind.code() - MIN_EVENT_CODE) as usize;
        self.wired[slot]
    }
}

impl Default for EventCallbacks {
    fn default() -> (table: EventCallbacks)
        ensures
            table == EventCallbacks::empty(),
    {
        EventCallbacks::new()
    }
}

impl EventCallbacks {
    /// The callback registered for `kind`, if there is one.
    pub open spec fn callback(self, kind: VMEvent) -> Option<Callback> {
        match kind {
            VMEvent::VMInit => self.vm_init,
            VMEvent::VMDeath => self.vm_death,
            VMEvent::VMObjectAlloc => self.vm_object_alloc,
            VMEvent::VMStart => self.vm_start,
            VMEvent::MethodEntry => self.method_entry,
            VMEvent::MethodExit => self.method_exit,
            VMEvent::ThreadStart => self.thread_start,
            VMEvent::ThreadEnd => self.thread_end,
            VMEvent::Exception => self.exception,
            VMEvent::ExceptionCatch => self.exception_catch,
            VMEvent::MonitorWait => self.monitor_wait,
            VMEvent::MonitorWaited => self.monitor_waited,
            VMEvent::MonitorContendedEnter => self.monitor_contended_enter,
            VMEvent::MonitorContendedEntered => self.monitor_contended_entered,
            VMEvent::FieldAccess => self.field_access,
            VMEvent::FieldModification => self.field_modification,
            VMEvent::GarbageCollectionStart => self.garbage_collection_start,
            VMEvent::GarbageCollectionFinish => self.garbage_collection_finish,
            VMEvent::ClassFileLoadHook => self.class_file_load_hook,
        }
    }

    /// True when slot `slot` of the native table belongs to a kind that has
    /// a callback here.
    pub open spec fn wires_slot(self, slot: int) -> bool {
        match VMEvent::spec_from_code((slot + MIN_EVENT_CODE) as u32) {
            Some(kind) => self.callback(kind) is Some,
            None => false,
        }
    }

    /// The table with every slot empty.
    pub open spec fn empty() -> EventCallbacks {
        EventCallbacks {
            vm_init: None,
            vm_death: None,
            vm_object_alloc: None,
            vm_start: None,
            method_entry: None,
            method_exit: None,
            thread_start: None,
            thread_end: None,
            exception: None,
            exception_catch: None,
            monitor_wait: None,
            monitor_waited: None,
            monitor_contended_enter: None,
            monitor_contended_entered: None,
            field_access: None,
            field_modification: None,
            garbage_collection_start: None,
            garbage_collection_finish: None,
            class_file_load_hook: None,
        }
    }

    /// Creates the table with every slot empty.
    pub fn new() -> (table: EventCallbacks)
        ensures
            table == EventCallbacks::empty(),
            forall|kind: VMEvent| table.callback(kind) is None,
    {
        EventCallbacks {
            vm_init: None,
            vm_death: None,
            vm_object_alloc: None,
            vm_start: None,
            method_entry: None,
            method_exit: None,
            thread_start: None,
            thread_end: None,
            exception: None,
            exception_catch: None,
            monitor_wait: None,
            monitor_waited: None,
            monitor_contended_enter: None,
            monitor_contended_entered: None,
            field_access: None,
            field_modification: None,
            garbage_collection_start: None,
            garbage_collection_finish: None,
            class_file_load_hook: None,
        }
    }

    /// The callback registered for `kind`, if there is one.
    pub fn get(&self, kind: VMEvent) -> (callback: Option<Callback>)
        ensures
            callback == self.callback(kind),
    {
        match kind {
            VMEvent::VMInit => self.vm_init,
            VMEvent::VMDeath => self.vm_death,
            VMEvent::VMObjectAlloc => self.vm_object_alloc,
            VMEvent::VMStart => self.vm_start,
            VMEvent::MethodEntry => self.method_entry,
            VMEvent::MethodExit => self.method_exit,
            VMEvent::ThreadStart => self.thread_start,
            VMEvent::ThreadEnd => self.thread_end,
            VMEvent::Exception => self.exception,
            VMEvent::ExceptionCatch => self.exception_catch,
            VMEvent::MonitorWait => self.monitor_wait,
            VMEvent::MonitorWaited => self.monitor_waited,
            VMEvent::MonitorContendedEnter => self.monitor_contended_enter,
            VMEvent::MonitorContendedEntered => self.monitor_contended_entered,
            VMEvent::FieldAccess => self.field_access,
            VMEvent::FieldModification => self.field_modification,
            VMEvent::GarbageCollectionStart => self.garbage_collection_start,
            VMEvent::GarbageCollectionFinish => self.garbage_collection_finish,
            VMEvent::ClassFileLoadHook => self.class_file_load_hook,
        }
    }

    /// Fills or empties the slot of `kind` and leaves the others as they
    /// are.
    pub fn set(&mut self, kind: VMEvent, callback: Option<Callback>)
        ensures
            final(self).callback(kind) == callback,
            forall|other: VMEvent| other != kind ==> final(self).callback(other) == old(self).callback(other),
    {
        match kind {
            VMEvent::VMInit => {
                self.vm_init = callback;
            },
            VMEvent::VMDeath => {
                self.vm_death = callback;
            },
            VMEvent::VMObjectAlloc => {
                self.vm_object_alloc = callback;
            },
            VMEvent::VMStart => {
                self.vm_start = callback;
            },
            VMEvent::MethodEntry => {
                self.method_entry = callback;
            },
            VMEvent::MethodExit => {
                self.method_exit = callback;
            },
            VMEvent::ThreadStart => {
                self.thread_start = callback;
            },
            VMEvent::ThreadEnd => {
                self.thread_end = callback;
            },
            VMEvent::Exception => {
                self.exception = callback;
            },
            VMEvent::ExceptionCatch => {
                self.exception_catch = callback;
            },
            VMEvent::MonitorWait => {
                self.monitor_wait = callback;
            },
            VMEvent::MonitorWaited => {
                self.monitor_waited = callback;
            },
            VMEvent::MonitorContendedEnter => {
                self.monitor_contended_enter = callback;
            },
            VMEvent::MonitorContendedEntered => {
                self.monitor_contended_entered = callback;
            },
            VMEvent::FieldAccess => {
                self.field_access = callback;
            },
            VMEvent::FieldModification => {
                self.field_modification = callback;
            },
            VMEvent::GarbageCollectionStart => {
                self.garbage_collection_start = callback;
            },
            VMEvent::GarbageCollectionFinish => {
                self.garbage_collection_finish = callback;
            },
            VMEvent::ClassFileLoadHook => {
                self.class_file_load_hook = callback;
            },
        }
    }

    /// The native table for this table: the trampoline of a kind is wired
    /// exactly when the kind has a callback, and no other slot is wired.
    pub fn to_native(&self) -> (native: NativeEventCallbacks)
        ensures
            forall|kind: VMEvent| native.spec_is_wired(kind) == (self.callback(kind) is Some),
            forall|slot: int|
                0 <= slot < NATIVE_SLOT_COUNT ==> native.wired@[slot] == self.wires_slot(slot),
    {
        let mut wired: [bool; 35] = [false; 35];
        let mut slot: usize = 0;
        while slot < 35
            invariant
                slot <= 35,
                forall|done: int| 0 <= done < slot ==> wired@[done] == self.wires_slot(done),
            decreases 35 - slot,
        {
            let set = match VMEvent::from_code(slot as u32 + MIN_EVENT_CODE) {
                Some(kind) => self.get(kind).is_some(),
                None => false,
            };
            wired[slot] = set;
            slot += 1;
        }
        let native = NativeEventCallbacks { wired };
        assert forall|kind: VMEvent| native.spec_is_wired(kind) == (self.callback(kind) is Some) by {
            lemma_code_identifies_kind(kind, kind);
            assert(native.wired@[kind.spec_code() - MIN_EVENT_CODE] == self.wires_slot(kind.spec_code() - MIN_EVENT_CODE));
        }
        native
    }
}

} // verus!
