//! The capability set: named boolean feature flags that an agent requests
//! from the runtime, their union, and their fixed-order bit-vector form.

use vstd::prelude::*;

verus! {

/// Number of flags a capability set holds.
pub const CAPABILITY_COUNT: usize = 41;

/// The names of the flags, in the order of their bits in the native bit
/// vector. That order is a wire contract: changing it breaks compatibility.
#[derive(Clone, Copy, Debug, PartialEq, Eq, Structural)]
pub enum Capability {
    CanTagObjects,
    CanGenerateFieldModificationEvents,
    CanGenerateFieldAccessEvents,
    CanGetBytecodes,
    CanGetSyntheticAttribute,
    CanGetOwnedMonitorInfo,
    CanGetCurrentContendedMonitor,
    CanGetMonitorInfo,
    CanPopFrame,
    CanRedefineClasses,
    CanSignalThread,
    CanGetSourceFileName,
    CanGetLineNumbers,
    CanGetSourceDebugExtension,
    CanAccessLocalVariables,
    CanMaintainOriginalMethodOrder,
    CanGenerateSingleStepEvents,
    CanGenerateExceptionEvents,
    CanGenerateFramePopEvents,
    CanGenerateBreakpointEvents,
    CanSuspend,
    CanRedefineAnyClass,
    CanGetCurrentThreadCpuTime,
    CanGetThreadCpuTime,
    CanGenerateMethodEntryEvents,
    CanGenerateMethodExitEvents,
    CanGenerateAllClassHookEvents,
    CanGenerateCompiledMethodLoadEvents,
    CanGenerateMonitorEvents,
    CanGenerateVmObjectAllocEvents,
    CanGenerateNativeMethodBindEvents,
    CanGenerateGarbageCollectionEvents,
    CanGenerateObjectFreeEvents,
    CanForceEarlyReturn,
    CanGetOwnedMonitorStackDepthInfo,
    CanGetConstantPool,
    CanSetNativeMethodPrefix,
    CanRetransformClasses,
    CanRetransformAnyClass,
    CanGenerateResourceExhaustionHeapEvents,
    CanGenerateResourceExhaustionThreadsEvents,
}

impl Capability {
    /// The place of the flag in the wire order.
    pub open spec fn position(self) -> int {
        match self {
            Capability::CanTagObjects => 0,
            Capability::CanGenerateFieldModificationEvents => 1,
            Capability::CanGenerateFieldAccessEvents => 2,
            Capability::CanGetBytecodes => 3,
            Capability::CanGetSyntheticAttribute => 4,
            Capability::CanGetOwnedMonitorInfo => 5,
            Capability::CanGetCurrentContendedMonitor => 6,
            Capability::CanGetMonitorInfo => 7,
            Capability::CanPopFrame => 8,
            Capability::CanRedefineClasses => 9,
            Capability::CanSignalThread => 10,
            Capability::CanGetSourceFileName => 11,
            Capability::CanGetLineNumbers => 12,
            Capability::CanGetSourceDebugExtension => 13,
            Capability::CanAccessLocalVariables => 14,
            Capability::CanMaintainOriginalMethodOrder => 15,
            Capability::CanGenerateSingleStepEvents => 16,
            Capability::CanGenerateExceptionEvents => 17,
            Capability::CanGenerateFramePopEvents => 18,
            Capability::CanGenerateBreakpointEvents => 19,
            Capability::CanSuspend => 20,
            Capability::CanRedefineAnyClass => 21,
            Capability::CanGetCurrentThreadCpuTime => 22,
            Capability::CanGetThreadCpuTime => 23,
            Capability::CanGenerateMethodEntryEvents => 24,
            Capability::CanGenerateMethodExitEvents => 25,
            Capability::CanGenerateAllClassHookEvents => 26,
            Capability::CanGenerateCompiledMethodLoadEvents => 27,
            Capability::CanGenerateMonitorEvents => 28,
            Capability::CanGenerateVmObjectAllocEvents => 29,
            Capability::CanGenerateNativeMethodBindEvents => 30,
            Capability::CanGenerateGarbageCollectionEvents => 31,
            Capability::CanGenerateObjectFreeEvents => 32,
            Capability::CanForceEarlyReturn => 33,
            Capability::CanGetOwnedMonitorStackDepthInfo => 34,
            Capability::CanGetConstantPool => 35,
            Capability::CanSetNativeMethodPrefix => 36,
            Capability::CanRetransformClasses => 37,
            Capability::CanRetransformAnyClass => 38,
            Capability::CanGenerateResourceExhaustionHeapEvents => 39,
            Capability::CanGenerateResourceExhaustionThreadsEvents => 40,
        }
    }

    /// The place of the flag in the wire order.
    pub fn index(self) -> (index: usize)
        ensures
            index == self.position(),
            index < CAPABILITY_COUNT,
    {
        match self {
            Capability::CanTagObjects => 0,
            Capability::CanGenerateFieldModificationEvents => 1,
            Capability::CanGenerateFieldAccessEvents => 2,
            Capability::CanGetBytecodes => 3,
            Capability::CanGetSyntheticAttribute => 4,
            Capability::CanGetOwnedMonitorInfo => 5,
            Capability::CanGetCurrentContendedMonitor => 6,
            Capability::CanGetMonitorInfo => 7,
            Capability::CanPopFrame => 8,
            Capability::CanRedefineClasses => 9,
            Capability::CanSignalThread => 10,
            Capability::CanGetSourceFileName => 11,
            Capability::CanGetLineNumbers => 12,
            Capability::CanGetSourceDebugExtension => 13,
            Capability::CanAccessLocalVariables => 14,
            Capability::CanMaintainOriginalMethodOrder => 15,
            Capability::CanGenerateSingleStepEvents => 16,
            Capability::CanGenerateExceptionEvents => 17,
            Capability::CanGenerateFramePopEvents => 18,
            Capability::CanGenerateBreakpointEvents => 19,
            Capability::CanSuspend => 20,
            Capability::CanRedefineAnyClass => 21,
            Capability::CanGetCurrentThreadCpuTime => 22,
            Capability::CanGetThreadCpuTime => 23,
            Capability::CanGenerateMethodEntryEvents => 24,
            Capability::CanGenerateMethodExitEvents => 25,
            Capability::CanGenerateAllClassHookEvents => 26,
            Capability::CanGenerateCompiledMethodLoadEvents => 27,
            Capability::CanGenerateMonitorEvents => 28,
            Capability::CanGenerateVmObjectAllocEvents => 29,
            Capability::CanGenerateNativeMethodBindEvents => 30,
            Capability::CanGenerateGarbageCollectionEvents => 31,
            Capability::CanGenerateObjectFreeEvents => 32,
            Capability::CanForceEarlyReturn => 33,
            Capability::CanGetOwnedMonitorStackDepthInfo => 34,
            Capability::CanGetConstantPool => 35,
            Capability::CanSetNativeMethodPrefix => 36,
            Capability::CanRetransformClasses => 37,
            Capability::CanRetransformAnyClass => 38,
            Capability::CanGenerateResourceExhaustionHeapEvents => 39,
            Capability::CanGenerateResourceExhaustionThreadsEvents => 40,
        }
    }
}

/// An ordered list of boolean flags, one per `Capability`, all false by
/// default.
#[derive(Clone, Copy, Debug, PartialEq, Eq)]
pub struct Capabilities {
    pub flags: [bool; 41],
}

/// The native form of a capability set: 128 bits in four words, of which
/// bit `i` of the whole vector (bit `i % 32` of word `i / 32`) carries the
/// flag at place `i`.
#[derive(Clone, Copy, Debug, PartialEq, Eq)]
pub struct NativeCapabilities {
    pub words: [u32; 4],
}

/// Bit `position` of `word`, counted from the least significant one.
pub open spec fn word_bit(word: u32, position: u32) -> bool {
    (word >> position) & 1u32 == 1u32
}

impl NativeCapabilities {
    /// Bit `index` of the whole vector.
    pub open spec fn bit(self, index: int) -> bool
        recommends
            0 <= index < 128,
    {
        if index < 32 {
            word_bit(self.words@[0], index as u32)
        } else if index < 64 {
            word_bit(self.words@[1], (index - 32) as u32)
        } else if index < 96 {
            word_bit(self.words@[2], (index - 64) as u32)
        } else {
            word_bit(self.words@[3], (index - 96) as u32)
        }
    }

    /// True when the vector carries exactly the flags of `caps`: each flag
    /// at its place, and no bit raised past the last flag.
    pub open spec fn encodes(self, caps: Capabilities) -> bool {
        &&& forall|index: int| 0 <= index < CAPABILITY_COUNT ==> self.bit(index) == caps@[index]
        &&& forall|index: int| CAPABILITY_COUNT <= index < 128 ==> !self.bit(index)
    }

    /// Reads bit `index` of the whole vector.
    pub fn get(&self, index: usize) -> (on: bool)
        requires
            index < 128,
        ensures
            on == self.bit(index as int),
    {
        if index < 32 {
            (self.words[0] >> index) & 1u32 == 1u32
        } else if index < 64 {
            (self.words[1] >> (index - 32)) & 1u32 == 1u32
        } else if index < 96 {
            (self.words[2] >> (index - 64)) & 1u32 == 1u32
        } else {
            (self.words[3] >> (index - 96)) & 1u32 == 1u32
        }
    }
}

impl Default for Capabilities {
    fn default() -> (caps: Capabilities)
        ensures
            caps@ == Capabilities::empty(),
    {
        Capabilities::new()
    }
}

impl View for Capabilities {
    type V = Seq<bool>;

    /// The flags as a sequence in wire order.
    open spec fn view(&self) -> Seq<bool> {
        self.flags@
    }
}

impl Capabilities {
    /// The flags of the set with no flag raised.
    pub open spec fn empty() -> Seq<bool> {
        Seq::new(CAPABILITY_COUNT as nat, |index: int| false)
    }

    /// The flags of the union: raised wherever `self` or `other` raises one.
    pub open spec fn union(self, other: Capabilities) -> Seq<bool> {
        Seq::new(CAPABILITY_COUNT as nat, |index: int| self@[index] || other@[index])
    }

    /// True when the named flag is raised.
    pub open spec fn spec_has(self, capability: Capability) -> bool {
        self@[capability.position()]
    }

    /// Creates the all-false set.
    pub fn new() -> (caps: Capabilities)
        ensures
            caps@ == Capabilities::empty(),
    {
        let caps = Capabilities { flags: [false; 41] };
        assert(caps@ =~= Capabilities::empty());
        caps
    }

    /// True when the named flag is raised.
    pub fn has(&self, capability: Capability) -> (on: bool)
        ensures
            on == self.spec_has(capability),
    {
        self.flags[capability.index()]
    }

    /// Raises or clears the named flag and leaves the others as they are.
    pub fn set(&mut self, capability: Capability, on: bool)
        ensures
            final(self)@ == old(self)@.update(capability.position(), on),
    {
        let index = capability.index();
        self.flags[index] = on;
    }

    /// The union of two sets. No flag of either input is cleared.
    pub fn merge(&self, other: &Capabilities) -> (merged: Capabilities)
        ensures
            merged@ == self.union(*other),
    {
        let mut flags: [bool; 41] = [false; 41];
        let mut index: usize = 0;
        while index < 41
            invariant
                index <= 41,
                forall|done: int| 0 <= done < index ==> flags@[done] == (self@[done] || other@[done]),
            decreases 41 - index,
        {
            flags[index] = self.flags[index] || other.flags[index];
            index += 1;
        }
        let merged = Capabilities { flags };
        assert(merged@ =~= self.union(*other));
        merged
    }

    /// Writes the set as the native bit vector. Bits past the last flag are
    /// zero.
    pub fn to_native(&self) -> (native: NativeCapabilities)
        ensures
            native.encodes(*self),
    {
        let mut words: [u32; 4] = [0, 0, 0, 0];
        let mut index: usize = 0;
        proof {
            lemma_zero_word();
        }
        while index < 41
            invariant
                index <= 41,
                forall|done: int| 0 <= done < index ==> (NativeCapabilities { words }).bit(done) == self@[done],
                forall|rest: int| index <= rest < 128 ==> !(NativeCapabilities { words }).bit(rest),
            decreases 41 - index,
        {
            let ghost before = NativeCapabilities { words };
            if index < 32 {
                let word = with_bit(words[0], index as u32, self.flags[index]);
                words[0] = word;
            } else {
                let word = with_bit(words[1], (index - 32) as u32, self.flags[index]);
                words[1] = word;
            }
            proof {
                let after = NativeCapabilities { words };
                assert forall|place: int| 0 <= place < 128 implies after.bit(place) == (before.bit(place) || (self@[index as int] && place == index)) by {
                    if place < 32 {
                        assert((place as u32) < 32);
                    } else if place < 64 {
                        assert(((place - 32) as u32) < 32);
                    }
                }
            }
            index += 1;
        }
        NativeCapabilities { words }
    }

    /// Reads a set from the native bit vector. Bits past the last flag are
    /// ignored.
    pub fn from_native(native: &NativeCapabilities) -> (caps: Capabilities)
        ensures
            forall|index: int| 0 <= index < CAPABILITY_COUNT ==> caps@[index] == native.bit(index),
    {
        let mut flags: [bool; 41] = [false; 41];
        let mut index: usize = 0;
        while index < 41
            invariant
                index <= 41,
                forall|done: int| 0 <= done < index ==> flags@[done] == native.bit(done),
            decreases 41 - index,
        {
            flags[index] = native.get(index);
            index += 1;
        }
        Capabilities { flags }
    }
}

/// `word` with bit `position` raised when `on` holds; every other bit stays.
fn with_bit(word: u32, position: u32, on: bool) -> (result: u32)
    requires
        position < 32,
    ensures
        forall|other: u32| other < 32 ==> #[trigger] word_bit(result, other) == (word_bit(word, other) || (on && other == position)),
{
    let mask: u32 = 1u32 << position;
    proof {
        lemma_raise_bit(word, position);
    }
    if on {
        word | mask
    } else {
        word
    }
}

/// Raising one bit of a word changes that bit only.
proof fn lemma_raise_bit(word: u32, position: u32)
    requires
        position < 32,
    ensures
        forall|other: u32| other < 32 ==> #[trigger] word_bit(word | (1u32 << position), other) == (word_bit(word, other) || other == position),
{
    assert forall|other: u32| other < 32 implies #[trigger] word_bit(word | (1u32 << position), other) == (word_bit(word, other) || other == position) by {
        assert(((word | (1u32 << position)) >> other) & 1u32 == 1u32 <==> ((word >> other) & 1u32 == 1u32 || other == position)) by (bit_vector)
            requires
                position < 32,
                other < 32,
        ;
    }
}

/// No bit of the zero word is raised.
proof fn lemma_zero_word()
    ensures
        forall|position: u32| position < 32 ==> !#[trigger] word_bit(0u32, position),
{
    assert forall|position: u32| position < 32 implies !#[trigger] word_bit(0u32, position) by {
        assert((0u32 >> position) & 1u32 != 1u32) by (bit_vector);
    }
}

/// Two sets that hold the same flags are the same set.
pub proof fn lemma_equal_flags(a: Capabilities, b: Capabilities)
    requires
        a@ == b@,
    ensures
        a == b,
{
    broadcast use vstd::array::group_array_axioms;

    assert forall|index: int| 0 <= index < CAPABILITY_COUNT implies a.flags[index] == b.flags[index] by {
        assert(a@[index] == b@[index]);
    }
    assert(a.flags =~= b.flags);
}

/// Union does not depend on the order of its arguments.
pub proof fn lemma_union_commutative(a: Capabilities, b: Capabilities)
    ensures
        a.union(b) == b.union(a),
{
    assert(a.union(b) =~= b.union(a));
}

/// The union of a set with itself is that set.
pub proof fn lemma_union_idempotent(a: Capabilities)
    ensures
        a.union(a) == a@,
{
    assert(a.union(a) =~= a@);
}

/// The union of a set with the empty set is that set.
pub proof fn lemma_union_empty(a: Capabilities, e: Capabilities)
    requires
        e@ == Capabilities::empty(),
    ensures
        a.union(e) == a@,
        e.union(a) == a@,
{
    assert(a.union(e) =~= a@);
    assert(e.union(a) =~= a@);
}

/// Every flag raised in a set stays raised in its union with any other set.
pub proof fn lemma_union_monotonic(a: Capabilities, b: Capabilities, index: int)
    requires
        0 <= index < CAPABILITY_COUNT,
        a@[index],
    ensures
        a.union(b)[index],
        b.union(a)[index],
{
}

/// The bit vector of a union is the bitwise or of the two bit vectors.
pub proof fn lemma_union_encoding(
    a: Capabilities,
    b: Capabilities,
    merged: Capabilities,
    na: NativeCapabilities,
    nb: NativeCapabilities,
    nm: NativeCapabilities,
)
    requires
        merged@ == a.union(b),
        na.encodes(a),
        nb.encodes(b),
        nm.encodes(merged),
    ensures
        forall|index: int| 0 <= index < 128 ==> nm.bit(index) == (na.bit(index) || nb.bit(index)),
{
}

/// Writing a set as a bit vector and reading it back gives the same set.
pub proof fn lemma_native_round_trip(caps: Capabilities, native: NativeCapabilities, back: Capabilities)
    requires
        native.encodes(caps),
        forall|index: int| 0 <= index < CAPABILITY_COUNT ==> back@[index] == native.bit(index),
    ensures
        back == caps,
{
    broadcast use vstd::array::group_array_axioms;

    assert forall|index: int| 0 <= index < CAPABILITY_COUNT implies back.flags[index] == caps.flags[index] by {
        assert(back@[index] == native.bit(index));
        assert(native.bit(index) == caps@[index]);
    }
    assert(back.flags =~= caps.flags);
}

} // verus!
