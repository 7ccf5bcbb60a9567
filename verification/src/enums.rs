//! The enumerated parameters of the plugin.
use vstd::prelude::*;

verus! {

/// Chord shape played by the carrier in the chord modes.
#[derive(Clone, Copy, Debug, PartialEq, Eq, Structural)]
pub enum ChordVoicing {
    Power,
    Major,
    Minor,
    Sus2,
    Sus4,
    Diminished,
    Augmented,
    Maj7,
    Min7,
    Dom7,
    Dim7,
    HalfDim7,
    Add9,
    Dom9,
    Min9,
}

/// Character of the drive (distortion) stage.
#[derive(Clone, Copy, Debug, PartialEq, Eq, Structural)]
pub enum DriveMode {
    Tube,
    Tape,
    Fuzz,
}

/// What the modulation LFO acts on.
#[derive(Clone, Copy, Debug, PartialEq, Eq, Structural)]
pub enum LfoTarget {
    Amplitude,
    Pitch,
    DryWet,
    CarrierLevel,
}

/// Pitch detection algorithm.
#[derive(Clone, Copy, Debug, PartialEq, Eq, Structural)]
pub enum PitchAlgorithm {
    YinClassic,
    YinFft,
    FftPeak,
}

/// Scale to which the detected pitch is snapped.
#[derive(Clone, Copy, Debug, PartialEq, Eq, Structural)]
pub enum ScaleKind {
    Chromatic,
    Major,
    Minor,
    Dorian,
    Phrygian,
    Lydian,
    Mixolydian,
    HarmonicMinor,
    MajorPentatonic,
    MinorPentatonic,
    Blues,
}

/// Root note of the scale, as a pitch class starting at C.
#[derive(Clone, Copy, Debug, PartialEq, Eq, Structural)]
pub enum ScaleRoot {
    C,
    CSharp,
    D,
    DSharp,
    E,
    F,
    FSharp,
    G,
    GSharp,
    A,
    ASharp,
    B,
}

/// How the carrier pitch is chosen.
#[derive(Clone, Copy, Debug, PartialEq, Eq, Structural)]
pub enum CarrierMode {
    Mono,
    Chord,
    Fixed,
    FixedChord,
}

impl ScaleKind {
    /// The integer code of the scale kind understood by the vocoder engine.
    pub open spec fn spec_int(self) -> int {
        match self {
            ScaleKind::Chromatic => 0,
            ScaleKind::Major => 1,
            ScaleKind::Minor => 2,
            ScaleKind::Dorian => 3,
            ScaleKind::Phrygian => 4,
            ScaleKind::Lydian => 5,
            ScaleKind::Mixolydian => 6,
            ScaleKind::HarmonicMinor => 7,
            ScaleKind::MajorPentatonic => 8,
            ScaleKind::MinorPentatonic => 9,
            ScaleKind::Blues => 10,
        }
    }

    /// Integer code of the scale kind: its position in the declaration, from 0
    /// (chromatic) to 10 (blues).
    pub fn to_int(self) -> (r: i32)
        ensures
            r == self.spec_int(),
            0 <= r <= 10,
    {
        match self {
            ScaleKind::Chromatic => 0,
            ScaleKind::Major => 1,
            ScaleKind::Minor => 2,
            ScaleKind::Dorian => 3,
            ScaleKind::Phrygian => 4,
            ScaleKind::Lydian => 5,
            ScaleKind::Mixolydian => 6,
            ScaleKind::HarmonicMinor => 7,
            ScaleKind::MajorPentatonic => 8,
            ScaleKind::MinorPentatonic => 9,
            ScaleKind::Blues => 10,
        }
    }
}

/// Distinct scale kinds have distinct integer codes.
pub proof fn lemma_scale_kind_int_injective(a: ScaleKind, b: ScaleKind)
    ensures
        a.spec_int() == b.spec_int() <==> a == b,
{
}

impl ScaleRoot {
    /// The pitch class of the root in semitones above C.
    pub open spec fn spec_semitone(self) -> int {
        match self {
            ScaleRoot::C => 0,
            ScaleRoot::CSharp => 1,
            ScaleRoot::D => 2,
            ScaleRoot::DSharp => 3,
            ScaleRoot::E => 4,
            ScaleRoot::F => 5,
            ScaleRoot::FSharp => 6,
            ScaleRoot::G => 7,
            ScaleRoot::GSharp => 8,
            ScaleRoot::A => 9,
            ScaleRoot::ASharp => 10,
            ScaleRoot::B => 11,
        }
    }

    /// The root as the byte the vocoder engine expects: semitones above C,
    /// which is the variant's position in the declaration.
    pub fn to_u8(self) -> (r: u8)
        ensures
            r == self.spec_semitone(),
            r < 12,
    {
        match self {
            ScaleRoot::C => 0,
            ScaleRoot::CSharp => 1,
            ScaleRoot::D => 2,
            ScaleRoot::DSharp => 3,
            ScaleRoot::E => 4,
            ScaleRoot::F => 5,
            ScaleRoot::FSharp => 6,
            ScaleRoot::G => 7,
            ScaleRoot::GSharp => 8,
            ScaleRoot::A => 9,
            ScaleRoot::ASharp => 10,
            ScaleRoot::B => 11,
        }
    }
}

/// Distinct roots are distinct pitch classes.
pub proof fn lemma_scale_root_semitone_injective(a: ScaleRoot, b: ScaleRoot)
    ensures
        a.spec_semitone() == b.spec_semitone() <==> a == b,
{
}

/// The scale kinds in the order of their declaration.
pub open spec fn scale_kinds_in_order() -> Seq<ScaleKind> {
    seq![
        ScaleKind::Chromatic,
        ScaleKind::Major,
        ScaleKind::Minor,
        ScaleKind::Dorian,
        ScaleKind::Phrygian,
        ScaleKind::Lydian,
        ScaleKind::Mixolydian,
        ScaleKind::HarmonicMinor,
        ScaleKind::MajorPentatonic,
        ScaleKind::MinorPentatonic,
        ScaleKind::Blues,
    ]
}

/// The code of a scale kind is its position in the declaration: the `i`-th
/// kind has code `i`.
pub proof fn lemma_scale_kind_int_is_position()
    ensures
        scale_kinds_in_order().len() == 11,
        forall|i: int| 0 <= i < 11 ==> #[trigger] scale_kinds_in_order()[i].spec_int() == i,
{
}

/// The roots in the order of their declaration, C to B.
pub open spec fn scale_roots_in_order() -> Seq<ScaleRoot> {
    seq![
        ScaleRoot::C,
        ScaleRoot::CSharp,
        ScaleRoot::D,
        ScaleRoot::DSharp,
        ScaleRoot::E,
        ScaleRoot::F,
        ScaleRoot::FSharp,
        ScaleRoot::G,
        ScaleRoot::GSharp,
        ScaleRoot::A,
        ScaleRoot::ASharp,
        ScaleRoot::B,
    ]
}

/// The byte of a root is its position in the declaration: the `i`-th root is
/// `i` semitones above C.
pub proof fn lemma_scale_root_semitone_is_position()
    ensures
        scale_roots_in_order().len() == 12,
        forall|i: int| 0 <= i < 12 ==> #[trigger] scale_roots_in_order()[i].spec_semitone() == i,
{
}

/// The roots are pitch classes of the chromatic scale: C is 0, each sharp is
/// one semitone above its natural, E to F and B to the next C are semitones,
/// and the other steps between naturals are whole tones.
pub proof fn lemma_scale_root_intervals()
    ensures
        ScaleRoot::C.spec_semitone() == 0,
        ScaleRoot::CSharp.spec_semitone() == ScaleRoot::C.spec_semitone() + 1,
        ScaleRoot::DSharp.spec_semitone() == ScaleRoot::D.spec_semitone() + 1,
        ScaleRoot::FSharp.spec_semitone() == ScaleRoot::F.spec_semitone() + 1,
        ScaleRoot::GSharp.spec_semitone() == ScaleRoot::G.spec_semitone() + 1,
        ScaleRoot::ASharp.spec_semitone() == ScaleRoot::A.spec_semitone() + 1,
        ScaleRoot::D.spec_semitone() == ScaleRoot::C.spec_semitone() + 2,
        ScaleRoot::E.spec_semitone() == ScaleRoot::D.spec_semitone() + 2,
        ScaleRoot::F.spec_semitone() == ScaleRoot::E.spec_semitone() + 1,
        ScaleRoot::G.spec_semitone() == ScaleRoot::F.spec_semitone() + 2,
        ScaleRoot::A.spec_semitone() == ScaleRoot::G.spec_semitone() + 2,
        ScaleRoot::B.spec_semitone() == ScaleRoot::A.spec_semitone() + 2,
        ScaleRoot::B.spec_semitone() + 1 == 12,
{
}

} // verus!
