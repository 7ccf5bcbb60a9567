//! The set of parameter groups whose new values still have to reach the
//! vocoder engine.
use vstd::prelude::*;

verus! {

/// Number of update flags.
pub const FLAG_COUNT: u32 = 29;

/// The bits that belong to some flag.
pub const ALL_BITS: u32 = 0x1fff_ffff;

/// One group of parameters that is handed to the vocoder engine together.
#[derive(Clone, Copy, Debug, PartialEq, Eq, Structural)]
pub enum Flag {
    CarrierMode,
    Scale,
    DryWet,
    Portamento,
    CarrierLevel,
    InputGain,
    OutputGain,
    CompressorEnabled,
    CompressorThreshold,
    PitchAlgorithm,
    CarrierChorusEnabled,
    OutputChorusEnabled,
    ChorusRate,
    ChorusDepth,
    ChorusMix,
    TremoloEnabled,
    TremoloRate,
    TremoloDepth,
    TremoloShape,
    TremoloTarget,
    PreDriveEnabled,
    PostDriveEnabled,
    DriveMode,
    DriveAmount,
    CrusherEnabled,
    CrusherBits,
    CrusherRate,
    SubOscillatorEnabled,
    SubOscillatorLevel,
}

impl Flag {
    /// Position of the flag; its bit is `1 << ordinal`.
    pub open spec fn ordinal(self) -> u32 {
        match self {
            Flag::CarrierMode => 0,
            Flag::Scale => 1,
            Flag::DryWet => 2,
            Flag::Portamento => 3,
            Flag::CarrierLevel => 4,
            Flag::InputGain => 5,
            Flag::OutputGain => 6,
            Flag::CompressorEnabled => 7,
            Flag::CompressorThreshold => 8,
            Flag::PitchAlgorithm => 9,
            Flag::CarrierChorusEnabled => 10,
            Flag::OutputChorusEnabled => 11,
            Flag::ChorusRate => 12,
            Flag::ChorusDepth => 13,
            Flag::ChorusMix => 14,
            Flag::TremoloEnabled => 15,
            Flag::TremoloRate => 16,
            Flag::TremoloDepth => 17,
            Flag::TremoloShape => 18,
            Flag::TremoloTarget => 19,
            Flag::PreDriveEnabled => 20,
            Flag::PostDriveEnabled => 21,
            Flag::DriveMode => 22,
            Flag::DriveAmount => 23,
            Flag::CrusherEnabled => 24,
            Flag::CrusherBits => 25,
            Flag::CrusherRate => 26,
            Flag::SubOscillatorEnabled => 27,
            Flag::SubOscillatorLevel => 28,
        }
    }

    /// The flag at a given position.
    pub open spec fn at(i: u32) -> Flag {
        if i == 0 { Flag::CarrierMode }
        else if i == 1 { Flag::Scale }
        else if i == 2 { Flag::DryWet }
        else if i == 3 { Flag::Portamento }
        else if i == 4 { Flag::CarrierLevel }
        else if i == 5 { Flag::InputGain }
        else if i == 6 { Flag::OutputGain }
        else if i == 7 { Flag::CompressorEnabled }
        else if i == 8 { Flag::CompressorThreshold }
        else if i == 9 { Flag::PitchAlgorithm }
        else if i == 10 { Flag::CarrierChorusEnabled }
        else if i == 11 { Flag::OutputChorusEnabled }
        else if i == 12 { Flag::ChorusRate }
        else if i == 13 { Flag::ChorusDepth }
        else if i == 14 { Flag::ChorusMix }
        else if i == 15 { Flag::TremoloEnabled }
        else if i == 16 { Flag::TremoloRate }
        else if i == 17 { Flag::TremoloDepth }
        else if i == 18 { Flag::TremoloShape }
        else if i == 19 { Flag::TremoloTarget }
        else if i == 20 { Flag::PreDriveEnabled }
        else if i == 21 { Flag::PostDriveEnabled }
        else if i == 22 { Flag::DriveMode }
        else if i == 23 { Flag::DriveAmount }
        else if i == 24 { Flag::CrusherEnabled }
        else if i == 25 { Flag::CrusherBits }
        else if i == 26 { Flag::CrusherRate }
        else if i == 27 { Flag::SubOscillatorEnabled }
        else { Flag::SubOscillatorLevel }
    }

    /// The flag's bit in the bit representation.
    pub open spec fn spec_bit(self) -> u32 {
        1u32 << self.ordinal()
    }

    /// Position of the flag in the declaration.
    pub fn to_ordinal(self) -> (r: u32)
        ensures
            r == self.ordinal(),
            r < FLAG_COUNT,
    {
        match self {
            Flag::CarrierMode => 0,
            Flag::Scale => 1,
            Flag::DryWet => 2,
            Flag::Portamento => 3,
            Flag::CarrierLevel => 4,
            Flag::InputGain => 5,
            Flag::OutputGain => 6,
            Flag::CompressorEnabled => 7,
            Flag::CompressorThreshold => 8,
            Flag::PitchAlgorithm => 9,
            Flag::CarrierChorusEnabled => 10,
            Flag::OutputChorusEnabled => 11,
            Flag::ChorusRate => 12,
            Flag::ChorusDepth => 13,
            Flag::ChorusMix => 14,
            Flag::TremoloEnabled => 15,
            Flag::TremoloRate => 16,
            Flag::TremoloDepth => 17,
            Flag::TremoloShape => 18,
            Flag::TremoloTarget => 19,
            Flag::PreDriveEnabled => 20,
            Flag::PostDriveEnabled => 21,
            Flag::DriveMode => 22,
            Flag::DriveAmount => 23,
            Flag::CrusherEnabled => 24,
            Flag::CrusherBits => 25,
            Flag::CrusherRate => 26,
            Flag::SubOscillatorEnabled => 27,
            Flag::SubOscillatorLevel => 28,
        }
    }

    /// The flag at position `i`, for `i` below the number of flags.
    pub fn from_ordinal(i: u32) -> (f: Flag)
        requires
            i < FLAG_COUNT,
        ensures
            f == Flag::at(i),
            f.ordinal() == i,
    {
        if i == 0 { Flag::CarrierMode }
        else if i == 1 { Flag::Scale }
        else if i == 2 { Flag::DryWet }
        else if i == 3 { Flag::Portamento }
        else if i == 4 { Flag::CarrierLevel }
        else if i == 5 { Flag::InputGain }
        else if i == 6 { Flag::OutputGain }
        else if i == 7 { Flag::CompressorEnabled }
        else if i == 8 { Flag::CompressorThreshold }
        else if i == 9 { Flag::PitchAlgorithm }
        else if i == 10 { Flag::CarrierChorusEnabled }
        else if i == 11 { Flag::OutputChorusEnabled }
        else if i == 12 { Flag::ChorusRate }
        else if i == 13 { Flag::ChorusDepth }
        else if i == 14 { Flag::ChorusMix }
        else if i == 15 { Flag::TremoloEnabled }
        else if i == 16 { Flag::TremoloRate }
        else if i == 17 { Flag::TremoloDepth }
        else if i == 18 { Flag::TremoloShape }
        else if i == 19 { Flag::TremoloTarget }
        else if i == 20 { Flag::PreDriveEnabled }
        else if i == 21 { Flag::PostDriveEnabled }
        else if i == 22 { Flag::DriveMode }
        else if i == 23 { Flag::DriveAmount }
        else if i == 24 { Flag::CrusherEnabled }
        else if i == 25 { Flag::CrusherBits }
        else if i == 26 { Flag::CrusherRate }
        else if i == 27 { Flag::SubOscillatorEnabled }
        else { Flag::SubOscillatorLevel }
    }

    /// The flag's bit in the bit representation.
    pub fn bit(self) -> (r: u32)
        ensures
            r == self.spec_bit(),
    {
        let i = self.to_ordinal();
        1u32 << i
    }
}

/// Every flag has a position below the number of flags, and it is the flag at
/// that position.
pub proof fn lemma_flag_ordinal(f: Flag)
    ensures
        f.ordinal() < FLAG_COUNT,
        Flag::at(f.ordinal()) == f,
{
}

/// Distinct flags have distinct positions.
pub proof fn lemma_flag_ordinal_injective(f: Flag, g: Flag)
    ensures
        f.ordinal() == g.ordinal() <==> f == g,
{
}

/// The flags whose bits are set in `b`; bits above the last flag are ignored.
pub open spec fn flags_of_bits(b: u32) -> Set<Flag> {
    Set::new(|f: Flag| b & f.spec_bit() != 0)
}

proof fn lemma_bit_facts(a: u32, b: u32, i: u32, j: u32)
    requires
        i < 32,
        j < 32,
    ensures
        (a | b) & (1u32 << i) != 0 <==> (a & (1u32 << i) != 0 || b & (1u32 << i) != 0),
        (a & b) & (1u32 << i) != 0 <==> (a & (1u32 << i) != 0 && b & (1u32 << i) != 0),
        0u32 & (1u32 << i) == 0,
        (1u32 << j) & (1u32 << i) != 0 <==> i == j,
        i < 29 ==> ALL_BITS & (1u32 << i) != 0,
        i < 29 ==> (a & ALL_BITS) & (1u32 << i) == a & (1u32 << i),
{
    assert((a | b) & (1u32 << i) != 0 <==> (a & (1u32 << i) != 0 || b & (1u32 << i) != 0))
        by (bit_vector)
        requires
            i < 32,
    ;
    assert((a & b) & (1u32 << i) != 0 <==> (a & (1u32 << i) != 0 && b & (1u32 << i) != 0))
        by (bit_vector)
        requires
            i < 32,
    ;
    assert(0u32 & (1u32 << i) == 0) by (bit_vector);
    assert((1u32 << j) & (1u32 << i) != 0 <==> i == j) by (bit_vector)
        requires
            i < 32,
            j < 32,
    ;
    assert(i < 29 ==> 0x1fff_ffffu32 & (1u32 << i) != 0) by (bit_vector);
    assert(i < 29 ==> (a & 0x1fff_ffffu32) & (1u32 << i) == a & (1u32 << i)) by (bit_vector);
}

/// A value whose flag bits are all clear has no bit inside the flag mask.
proof fn lemma_no_flag_bits(a: u32)
    requires
        forall|i: u32| i < 29 ==> #[trigger] (a & (1u32 << i)) == 0,
    ensures
        a & ALL_BITS == 0,
{
    assert(a & (1u32 << 0u32) == 0);
    assert(a & (1u32 << 1u32) == 0);
    assert(a & (1u32 << 2u32) == 0);
    assert(a & (1u32 << 3u32) == 0);
    assert(a & (1u32 << 4u32) == 0);
    assert(a & (1u32 << 5u32) == 0);
    assert(a & (1u32 << 6u32) == 0);
    assert(a & (1u32 << 7u32) == 0);
    assert(a & (1u32 << 8u32) == 0);
    assert(a & (1u32 << 9u32) == 0);
    assert(a & (1u32 << 10u32) == 0);
    assert(a & (1u32 << 11u32) == 0);
    assert(a & (1u32 << 12u32) == 0);
    assert(a & (1u32 << 13u32) == 0);
    assert(a & (1u32 << 14u32) == 0);
    assert(a & (1u32 << 15u32) == 0);
    assert(a & (1u32 << 16u32) == 0);
    assert(a & (1u32 << 17u32) == 0);
    assert(a & (1u32 << 18u32) == 0);
    assert(a & (1u32 << 19u32) == 0);
    assert(a & (1u32 << 20u32) == 0);
    assert(a & (1u32 << 21u32) == 0);
    assert(a & (1u32 << 22u32) == 0);
    assert(a & (1u32 << 23u32) == 0);
    assert(a & (1u32 << 24u32) == 0);
    assert(a & (1u32 << 25u32) == 0);
    assert(a & (1u32 << 26u32) == 0);
    assert(a & (1u32 << 27u32) == 0);
    assert(a & (1u32 << 28u32) == 0);
    assert(a & 0x1fff_ffffu32 == 0) by (bit_vector)
        requires
            a & (1u32 << 0u32) == 0, a & (1u32 << 1u32) == 0, a & (1u32 << 2u32) == 0,
            a & (1u32 << 3u32) == 0, a & (1u32 << 4u32) == 0, a & (1u32 << 5u32) == 0,
            a & (1u32 << 6u32) == 0, a & (1u32 << 7u32) == 0, a & (1u32 << 8u32) == 0,
            a & (1u32 << 9u32) == 0, a & (1u32 << 10u32) == 0, a & (1u32 << 11u32) == 0,
            a & (1u32 << 12u32) == 0, a & (1u32 << 13u32) == 0, a & (1u32 << 14u32) == 0,
            a & (1u32 << 15u32) == 0, a & (1u32 << 16u32) == 0, a & (1u32 << 17u32) == 0,
            a & (1u32 << 18u32) == 0, a & (1u32 << 19u32) == 0, a & (1u32 << 20u32) == 0,
            a & (1u32 << 21u32) == 0, a & (1u32 << 22u32) == 0, a & (1u32 << 23u32) == 0,
            a & (1u32 << 24u32) == 0, a & (1u32 << 25u32) == 0, a & (1u32 << 26u32) == 0,
            a & (1u32 << 27u32) == 0, a & (1u32 << 28u32) == 0,
    ;
}

/// The flags of `a` are none exactly when `a` has no bit inside the flag mask.
proof fn lemma_flags_of_bits_empty(a: u32)
    ensures
        flags_of_bits(a) == Set::<Flag>::empty() <==> a & ALL_BITS == 0,
{
    if a & ALL_BITS == 0 {
        assert forall|f: Flag| !flags_of_bits(a).contains(f) by {
            lemma_bit_facts(a, 0, f.ordinal(), 0);
        }
        assert(flags_of_bits(a) =~= Set::<Flag>::empty());
    }
    if flags_of_bits(a) == Set::<Flag>::empty() {
        assert forall|i: u32| i < 29 implies #[trigger] (a & (1u32 << i)) == 0 by {
            let f = Flag::at(i);
            assert(f.ordinal() == i);
            assert(!flags_of_bits(a).contains(f));
        }
        lemma_no_flag_bits(a);
    }
}

/// A set of update flags, kept as the bits of a `u32` (flag `f` is bit
/// `f.ordinal()`).
#[derive(Clone, Copy, Debug, PartialEq, Eq, Structural)]
pub struct UpdateFlags {
    bits: u32,
}

impl View for UpdateFlags {
    type V = Set<Flag>;

    open spec fn view(&self) -> Set<Flag> {
        flags_of_bits(self.spec_bits())
    }
}

impl UpdateFlags {
    /// The raw bits.
    pub closed spec fn spec_bits(self) -> u32 {
        self.bits
    }

    /// The set with no flag.
    pub fn empty() -> (r: UpdateFlags)
        ensures
            r@ == Set::<Flag>::empty(),
            r.spec_bits() == 0,
    {
        proof {
            lemma_flags_of_bits_empty(0);
            assert(0u32 & 0x1fff_ffffu32 == 0) by (bit_vector);
        }
        UpdateFlags { bits: 0 }
    }

    /// The set of every flag.
    pub fn all() -> (r: UpdateFlags)
        ensures
            r@ == Set::<Flag>::full(),
            r.spec_bits() == ALL_BITS,
    {
        let r = UpdateFlags { bits: ALL_BITS };
        assert forall|f: Flag| r@.contains(f) by {
            lemma_bit_facts(0, 0, f.ordinal(), 0);
        }
        assert(r@ =~= Set::<Flag>::full());
        r
    }

    /// The set of the one flag `f`.
    pub fn from_flag(f: Flag) -> (r: UpdateFlags)
        ensures
            r@ == set![f],
            r.spec_bits() == f.spec_bit(),
    {
        let r = UpdateFlags { bits: f.bit() };
        assert forall|g: Flag| r@.contains(g) <==> g == f by {
            lemma_bit_facts(0, 0, g.ordinal(), f.ordinal());
            lemma_flag_ordinal_injective(f, g);
        }
        assert(r@ =~= set![f]);
        r
    }

    /// The set of the flags whose bits are set in `bits`; other bits are
    /// dropped.
    pub fn from_bits(bits: u32) -> (r: UpdateFlags)
        ensures
            r@ == flags_of_bits(bits),
            r.spec_bits() == bits & ALL_BITS,
    {
        let r = UpdateFlags { bits: bits & ALL_BITS };
        assert forall|f: Flag| r@.contains(f) <==> flags_of_bits(bits).contains(f) by {
            lemma_bit_facts(bits, 0, f.ordinal(), 0);
        }
        assert(r@ =~= flags_of_bits(bits));
        r
    }

    /// The raw bits, from which `from_bits` gives the same set back.
    pub fn bits(self) -> (r: u32)
        ensures
            r == self.spec_bits(),
            flags_of_bits(r) == self@,
    {
        self.bits
    }

    /// Whether `f` is in the set.
    pub fn contains(self, f: Flag) -> (r: bool)
        ensures
            r == self@.contains(f),
    {
        self.bits & f.bit() != 0
    }

    /// Whether the set holds no flag.
    pub fn is_empty(self) -> (r: bool)
        ensures
            r == (self@ == Set::<Flag>::empty()),
    {
        proof {
            lemma_flags_of_bits_empty(self.bits);
        }
        self.bits & ALL_BITS == 0
    }

    /// The flags of either set.
    pub fn union(self, other: UpdateFlags) -> (r: UpdateFlags)
        ensures
            r@ == self@.union(other@),
    {
        let r = UpdateFlags { bits: self.bits | other.bits };
        assert forall|f: Flag| r@.contains(f) <==> self@.union(other@).contains(f) by {
            lemma_bit_facts(self.bits, other.bits, f.ordinal(), 0);
        }
        assert(r@ =~= self@.union(other@));
        r
    }

    /// Adds the flag `f` to the set.
    pub fn insert(&mut self, f: Flag)
        ensures
            final(self)@ == old(self)@.insert(f),
    {
        let one = UpdateFlags::from_flag(f);
        let r = self.union(one);
        assert(r@ =~= old(self)@.insert(f));
        *self = r;
    }
}

impl Default for UpdateFlags {
    /// The empty set, as the bit-flag type's default.
    fn default() -> (r: UpdateFlags)
        ensures
            r@ == Set::<Flag>::empty(),
    {
        UpdateFlags::empty()
    }
}

/// The flags in the order of their declaration.
pub open spec fn flags_in_order() -> Seq<Flag> {
    seq![
        Flag::CarrierMode, Flag::Scale, Flag::DryWet, Flag::Portamento, Flag::CarrierLevel,
        Flag::InputGain, Flag::OutputGain, Flag::CompressorEnabled, Flag::CompressorThreshold,
        Flag::PitchAlgorithm, Flag::CarrierChorusEnabled, Flag::OutputChorusEnabled,
        Flag::ChorusRate, Flag::ChorusDepth, Flag::ChorusMix, Flag::TremoloEnabled,
        Flag::TremoloRate, Flag::TremoloDepth, Flag::TremoloShape, Flag::TremoloTarget,
        Flag::PreDriveEnabled, Flag::PostDriveEnabled, Flag::DriveMode, Flag::DriveAmount,
        Flag::CrusherEnabled, Flag::CrusherBits, Flag::CrusherRate, Flag::SubOscillatorEnabled,
        Flag::SubOscillatorLevel,
    ]
}

/// A flag's position is its place in the declaration, and the flag at a
/// position is the declared one: the `i`-th flag is bit `1 << i`.
pub proof fn lemma_flag_ordinal_is_position()
    ensures
        flags_in_order().len() == FLAG_COUNT,
        forall|i: int|
            0 <= i < FLAG_COUNT ==> #[trigger] flags_in_order()[i].ordinal() == i && Flag::at(
                i as u32,
            ) == flags_in_order()[i],
{
}

} // verus!
