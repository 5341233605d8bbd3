use jvmti::capabilities::Capabilities;
use jvmti::capabilities::Capability;
use jvmti::capabilities::NativeCapabilities;
use jvmti::capabilities::CAPABILITY_COUNT;

fn sample_a() -> Capabilities {
    let mut caps = Capabilities::new();
    caps.set(Capability::CanTagObjects, true);
    caps.set(Capability::CanGenerateMethodEntryEvents, true);
    caps.set(Capability::CanRetransformClasses, true);
    caps
}

fn sample_b() -> Capabilities {
    let mut caps = Capabilities::new();
    caps.set(Capability::CanGenerateMethodEntryEvents, true);
    caps.set(Capability::CanGenerateMethodExitEvents, true);
    caps.set(Capability::CanGenerateResourceExhaustionThreadsEvents, true);
    caps
}

#[test]
fn new_capabilities_are_all_false() {
    let caps = Capabilities::new();
    assert_eq!(caps.flags, [false; 41]);
    assert_eq!(caps, Capabilities::default());
    assert!(!caps.has(Capability::CanTagObjects));
    assert!(!caps.has(Capability::CanGenerateResourceExhaustionThreadsEvents));
}

#[test]
fn capability_count_is_forty_one() {
    assert_eq!(CAPABILITY_COUNT, 41);
    assert_eq!(Capabilities::new().flags.len(), 41);
}

#[test]
fn capabilities_stand_in_the_wire_order() {
    assert_eq!(Capability::CanTagObjects.index(), 0);
    assert_eq!(Capability::CanGenerateFieldModificationEvents.index(), 1);
    assert_eq!(Capability::CanGenerateFieldAccessEvents.index(), 2);
    assert_eq!(Capability::CanGetBytecodes.index(), 3);
    assert_eq!(Capability::CanPopFrame.index(), 8);
    assert_eq!(Capability::CanRedefineClasses.index(), 9);
    assert_eq!(Capability::CanGenerateSingleStepEvents.index(), 16);
    assert_eq!(Capability::CanGenerateExceptionEvents.index(), 17);
    assert_eq!(Capability::CanSuspend.index(), 20);
    assert_eq!(Capability::CanGenerateMethodEntryEvents.index(), 24);
    assert_eq!(Capability::CanGenerateMethodExitEvents.index(), 25);
    assert_eq!(Capability::CanGenerateAllClassHookEvents.index(), 26);
    assert_eq!(Capability::CanGenerateVmObjectAllocEvents.index(), 29);
    assert_eq!(Capability::CanGenerateGarbageCollectionEvents.index(), 31);
    assert_eq!(Capability::CanGenerateObjectFreeEvents.index(), 32);
    assert_eq!(Capability::CanRetransformClasses.index(), 37);
    assert_eq!(Capability::CanRetransformAnyClass.index(), 38);
    assert_eq!(Capability::CanGenerateResourceExhaustionHeapEvents.index(), 39);
    assert_eq!(Capability::CanGenerateResourceExhaustionThreadsEvents.index(), 40);
}

#[test]
fn set_changes_one_flag_only() {
    let mut caps = Capabilities::new();
    caps.set(Capability::CanSuspend, true);
    let mut expected = [false; 41];
    expected[20] = true;
    assert_eq!(caps.flags, expected);
    assert!(caps.has(Capability::CanSuspend));
    caps.set(Capability::CanSuspend, false);
    assert_eq!(caps, Capabilities::new());
}

#[test]
fn merge_is_commutative() {
    assert_eq!(sample_a().merge(&sample_b()), sample_b().merge(&sample_a()));
}

#[test]
fn merge_is_idempotent() {
    assert_eq!(sample_a().merge(&sample_a()), sample_a());
    assert_eq!(sample_b().merge(&sample_b()), sample_b());
}

#[test]
fn merge_with_empty_is_identity() {
    assert_eq!(sample_a().merge(&Capabilities::new()), sample_a());
    assert_eq!(Capabilities::new().merge(&sample_a()), sample_a());
}

#[test]
fn merge_never_clears_a_flag() {
    let merged = sample_a().merge(&sample_b());
    for index in 0..41 {
        if sample_a().flags[index] || sample_b().flags[index] {
            assert!(merged.flags[index], "flag {}", index);
        } else {
            assert!(!merged.flags[index], "flag {}", index);
        }
    }
    assert!(merged.has(Capability::CanTagObjects));
    assert!(merged.has(Capability::CanGenerateMethodEntryEvents));
    assert!(merged.has(Capability::CanGenerateMethodExitEvents));
    assert!(merged.has(Capability::CanRetransformClasses));
    assert!(merged.has(Capability::CanGenerateResourceExhaustionThreadsEvents));
    assert!(!merged.has(Capability::CanSuspend));
}

#[test]
fn to_native_of_empty_is_zero() {
    assert_eq!(Capabilities::new().to_native().words, [0, 0, 0, 0]);
}

#[test]
fn to_native_puts_each_flag_at_its_bit() {
    let mut caps = Capabilities::new();
    caps.set(Capability::CanTagObjects, true);
    assert_eq!(caps.to_native().words, [1, 0, 0, 0]);

    let mut caps = Capabilities::new();
    caps.set(Capability::CanGenerateGarbageCollectionEvents, true);
    assert_eq!(caps.to_native().words, [0x8000_0000, 0, 0, 0]);

    let mut caps = Capabilities::new();
    caps.set(Capability::CanGenerateObjectFreeEvents, true);
    assert_eq!(caps.to_native().words, [0, 1, 0, 0]);

    let mut caps = Capabilities::new();
    caps.set(Capability::CanGenerateResourceExhaustionThreadsEvents, true);
    assert_eq!(caps.to_native().words, [0, 0x100, 0, 0]);

    assert_eq!(sample_a().to_native().words, [0x0100_0001, 0x20, 0, 0]);
    assert_eq!(sample_b().to_native().words, [0x0300_0000, 0x100, 0, 0]);
}

#[test]
fn to_native_of_all_flags_sets_forty_one_bits() {
    let caps = Capabilities { flags: [true; 41] };
    assert_eq!(caps.to_native().words, [0xFFFF_FFFF, 0x1FF, 0, 0]);
}

#[test]
fn to_native_of_merge_is_bitwise_or() {
    let a = sample_a().to_native();
    let b = sample_b().to_native();
    let merged = sample_a().merge(&sample_b()).to_native();
    for word in 0..4 {
        assert_eq!(merged.words[word], a.words[word] | b.words[word]);
    }
}

#[test]
fn from_native_reads_each_bit() {
    let native = NativeCapabilities { words: [0x0100_0001, 0x20, 0, 0] };
    assert_eq!(Capabilities::from_native(&native), sample_a());
    let native = NativeCapabilities { words: [0, 0, 0, 0] };
    assert_eq!(Capabilities::from_native(&native), Capabilities::new());
}

#[test]
fn from_native_ignores_the_bits_past_the_last_flag() {
    let native = NativeCapabilities { words: [0, 0xFFFF_FE00, 0xFFFF_FFFF, 0xFFFF_FFFF] };
    assert_eq!(Capabilities::from_native(&native), Capabilities::new());
    let native = NativeCapabilities { words: [0xFFFF_FFFF, 0xFFFF_FFFF, 0xFFFF_FFFF, 0xFFFF_FFFF] };
    assert_eq!(Capabilities::from_native(&native), Capabilities { flags: [true; 41] });
}

#[test]
fn native_round_trip_gives_the_same_set() {
    for caps in [sample_a(), sample_b(), Capabilities::new(), Capabilities { flags: [true; 41] }] {
        assert_eq!(Capabilities::from_native(&caps.to_native()), caps);
    }
    for index in 0..41 {
        let mut flags = [false; 41];
        flags[index] = true;
        let caps = Capabilities { flags };
        let native = caps.to_native();
        assert!(native.get(index));
        assert_eq!(Capabilities::from_native(&native), caps);
    }
}

#[test]
fn native_get_reads_across_the_words() {
    let native = NativeCapabilities { words: [2, 0, 4, 0x8000_0000] };
    assert!(native.get(1));
    assert!(!native.get(0));
    assert!(native.get(66));
    assert!(native.get(127));
    assert!(!native.get(32));
}
