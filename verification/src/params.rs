//! The plugin's parameters: which update flag each one raises when it changes,
//! the ranges of the integer parameters, and the snapshot of the parameters
//! that are not continuous, with their defaults.
use vstd::prelude::*;

use crate::enums::{
    CarrierMode, ChordVoicing, DriveMode, LfoTarget, PitchAlgorithm, ScaleKind, ScaleRoot,
};
use crate::flags::Flag;

verus! {

/// Lowest fixed carrier note (MIDI).
pub const FIXED_NOTE_MIN: i32 = 24;

/// Highest fixed carrier note (MIDI).
pub const FIXED_NOTE_MAX: i32 = 84;

/// Default fixed carrier note (MIDI).
pub const FIXED_NOTE_DEFAULT: i32 = 48;

/// Lowest bit depth of the bit crusher.
pub const CRUSHER_BITS_MIN: i32 = 1;

/// Highest bit depth of the bit crusher, also its default.
pub const CRUSHER_BITS_MAX: i32 = 16;

/// The parameters of the plugin, in the order in which the host lists them.
#[derive(Clone, Copy, Debug, PartialEq, Eq, Structural)]
pub enum ParamId {
    Mode,
    FixedNote,
    Scale,
    ScaleRoot,
    Mix,
    Portamento,
    CarrierLevel,
    InputGain,
    OutputGain,
    CompOn,
    CompThreshold,
    ChordType,
    PitchAlgo,
    CarrierChorusOn,
    OutputChorusOn,
    ChorusRate,
    ChorusDepth,
    ChorusMix,
    TremOn,
    TremRate,
    TremDepth,
    TremShape,
    TremTarget,
    PreDriveOn,
    PostDriveOn,
    DriveMode,
    DriveAmount,
    CrusherOn,
    CrusherBits,
    CrusherRate,
    SubOn,
    SubLevel,
}

impl ParamId {
    /// The flag that a change of this parameter raises.
    pub open spec fn spec_update_flag(self) -> Flag {
        match self {
            ParamId::Mode => Flag::CarrierMode,
            ParamId::FixedNote => Flag::CarrierMode,
            ParamId::Scale => Flag::Scale,
            ParamId::ScaleRoot => Flag::Scale,
            ParamId::Mix => Flag::DryWet,
            ParamId::Portamento => Flag::Portamento,
            ParamId::CarrierLevel => Flag::CarrierLevel,
            ParamId::InputGain => Flag::InputGain,
            ParamId::OutputGain => Flag::OutputGain,
            ParamId::CompOn => Flag::CompressorEnabled,
            ParamId::CompThreshold => Flag::CompressorThreshold,
            ParamId::ChordType => Flag::CarrierMode,
            ParamId::PitchAlgo => Flag::PitchAlgorithm,
            ParamId::CarrierChorusOn => Flag::CarrierChorusEnabled,
            ParamId::OutputChorusOn => Flag::OutputChorusEnabled,
            ParamId::ChorusRate => Flag::ChorusRate,
            ParamId::ChorusDepth => Flag::ChorusDepth,
            ParamId::ChorusMix => Flag::ChorusMix,
            ParamId::TremOn => Flag::TremoloEnabled,
            ParamId::TremRate => Flag::TremoloRate,
            ParamId::TremDepth => Flag::TremoloDepth,
            ParamId::TremShape => Flag::TremoloShape,
            ParamId::TremTarget => Flag::TremoloTarget,
            ParamId::PreDriveOn => Flag::PreDriveEnabled,
            ParamId::PostDriveOn => Flag::PostDriveEnabled,
            ParamId::DriveMode => Flag::DriveMode,
            ParamId::DriveAmount => Flag::DriveAmount,
            ParamId::CrusherOn => Flag::CrusherEnabled,
            ParamId::CrusherBits => Flag::CrusherBits,
            ParamId::CrusherRate => Flag::CrusherRate,
            ParamId::SubOn => Flag::SubOscillatorEnabled,
            ParamId::SubLevel => Flag::SubOscillatorLevel,
        }
    }

    /// The flag that the parameter's change callback raises in the pending
    /// updates.
    pub fn update_flag(self) -> (f: Flag)
        ensures
            f == self.spec_update_flag(),
    {
        match self {
            ParamId::Mode => Flag::CarrierMode,
            ParamId::FixedNote => Flag::CarrierMode,
            ParamId::Scale => Flag::Scale,
            ParamId::ScaleRoot => Flag::Scale,
            ParamId::Mix => Flag::DryWet,
            ParamId::Portamento => Flag::Portamento,
            ParamId::CarrierLevel => Flag::CarrierLevel,
            ParamId::InputGain => Flag::InputGain,
            ParamId::OutputGain => Flag::OutputGain,
            ParamId::CompOn => Flag::CompressorEnabled,
            ParamId::CompThreshold => Flag::CompressorThreshold,
            ParamId::ChordType => Flag::CarrierMode,
            ParamId::PitchAlgo => Flag::PitchAlgorithm,
            ParamId::CarrierChorusOn => Flag::CarrierChorusEnabled,
            ParamId::OutputChorusOn => Flag::OutputChorusEnabled,
            ParamId::ChorusRate => Flag::ChorusRate,
            ParamId::ChorusDepth => Flag::ChorusDepth,
            ParamId::ChorusMix => Flag::ChorusMix,
            ParamId::TremOn => Flag::TremoloEnabled,
            ParamId::TremRate => Flag::TremoloRate,
            ParamId::TremDepth => Flag::TremoloDepth,
            ParamId::TremShape => Flag::TremoloShape,
            ParamId::TremTarget => Flag::TremoloTarget,
            ParamId::PreDriveOn => Flag::PreDriveEnabled,
            ParamId::PostDriveOn => Flag::PostDriveEnabled,
            ParamId::DriveMode => Flag::DriveMode,
            ParamId::DriveAmount => Flag::DriveAmount,
            ParamId::CrusherOn => Flag::CrusherEnabled,
            ParamId::CrusherBits => Flag::CrusherBits,
            ParamId::CrusherRate => Flag::CrusherRate,
            ParamId::SubOn => Flag::SubOscillatorEnabled,
            ParamId::SubLevel => Flag::SubOscillatorLevel,
        }
    }
}

/// Every flag is raised by the change of some parameter.
pub proof fn lemma_every_flag_has_a_param(f: Flag)
    ensures
        exists|q: ParamId| #[trigger] q.spec_update_flag() == f,
{
    match f {
        Flag::CarrierMode => assert(ParamId::Mode.spec_update_flag() == f),
        Flag::Scale => assert(ParamId::Scale.spec_update_flag() == f),
        Flag::DryWet => assert(ParamId::Mix.spec_update_flag() == f),
        Flag::Portamento => assert(ParamId::Portamento.spec_update_flag() == f),
        Flag::CarrierLevel => assert(ParamId::CarrierLevel.spec_update_flag() == f),
        Flag::InputGain => assert(ParamId::InputGain.spec_update_flag() == f),
        Flag::OutputGain => assert(ParamId::OutputGain.spec_update_flag() == f),
        Flag::CompressorEnabled => assert(ParamId::CompOn.spec_update_flag() == f),
        Flag::CompressorThreshold => assert(ParamId::CompThreshold.spec_update_flag() == f),
        Flag::PitchAlgorithm => assert(ParamId::PitchAlgo.spec_update_flag() == f),
        Flag::CarrierChorusEnabled => assert(ParamId::CarrierChorusOn.spec_update_flag() == f),
        Flag::OutputChorusEnabled => assert(ParamId::OutputChorusOn.spec_update_flag() == f),
        Flag::ChorusRate => assert(ParamId::ChorusRate.spec_update_flag() == f),
        Flag::ChorusDepth => assert(ParamId::ChorusDepth.spec_update_flag() == f),
        Flag::ChorusMix => assert(ParamId::ChorusMix.spec_update_flag() == f),
        Flag::TremoloEnabled => assert(ParamId::TremOn.spec_update_flag() == f),
        Flag::TremoloRate => assert(ParamId::TremRate.spec_update_flag() == f),
        Flag::TremoloDepth => assert(ParamId::TremDepth.spec_update_flag() == f),
        Flag::TremoloShape => assert(ParamId::TremShape.spec_update_flag() == f),
        Flag::TremoloTarget => assert(ParamId::TremTarget.spec_update_flag() == f),
        Flag::PreDriveEnabled => assert(ParamId::PreDriveOn.spec_update_flag() == f),
        Flag::PostDriveEnabled => assert(ParamId::PostDriveOn.spec_update_flag() == f),
        Flag::DriveMode => assert(ParamId::DriveMode.spec_update_flag() == f),
        Flag::DriveAmount => assert(ParamId::DriveAmount.spec_update_flag() == f),
        Flag::CrusherEnabled => assert(ParamId::CrusherOn.spec_update_flag() == f),
        Flag::CrusherBits => assert(ParamId::CrusherBits.spec_update_flag() == f),
        Flag::CrusherRate => assert(ParamId::CrusherRate.spec_update_flag() == f),
        Flag::SubOscillatorEnabled => assert(ParamId::SubOn.spec_update_flag() == f),
        Flag::SubOscillatorLevel => assert(ParamId::SubLevel.spec_update_flag() == f),
    }
}

/// The values of the parameters that are not continuous: the enumerations,
/// the switches and the integers. The continuous parameters are read from the
/// host's parameter objects directly.
#[derive(Clone, Copy, Debug, PartialEq, Eq, Structural)]
pub struct DiscreteParams {
    pub mode: CarrierMode,
    pub fixed_note: i32,
    pub scale: ScaleKind,
    pub scale_root: ScaleRoot,
    pub comp_on: bool,
    pub chord_type: ChordVoicing,
    pub pitch_algo: PitchAlgorithm,
    pub carrier_chorus_on: bool,
    pub output_chorus_on: bool,
    pub trem_on: bool,
    pub trem_target: LfoTarget,
    pub pre_drive_on: bool,
    pub post_drive_on: bool,
    pub drive_mode: DriveMode,
    pub crusher_on: bool,
    pub crusher_bits: i32,
    pub sub_on: bool,
}

impl DiscreteParams {
    /// The default values the parameters are created with.
    pub open spec fn spec_default() -> DiscreteParams {
        DiscreteParams {
            mode: CarrierMode::Mono,
            fixed_note: FIXED_NOTE_DEFAULT,
            scale: ScaleKind::Chromatic,
            scale_root: ScaleRoot::C,
            comp_on: true,
            chord_type: ChordVoicing::Major,
            pitch_algo: PitchAlgorithm::YinFft,
            carrier_chorus_on: false,
            output_chorus_on: false,
            trem_on: false,
            trem_target: LfoTarget::Amplitude,
            pre_drive_on: false,
            post_drive_on: false,
            drive_mode: DriveMode::Tape,
            crusher_on: false,
            crusher_bits: CRUSHER_BITS_MAX,
            sub_on: false,
        }
    }

    /// The parameters as the plugin creates them: mono carrier at MIDI note 48,
    /// chromatic scale on C, compressor on, major chords, FFT-based YIN pitch
    /// detection, amplitude as LFO target, tape drive, 16 crusher bits, and
    /// every other switch off.
    pub fn new() -> (r: DiscreteParams)
        ensures
            r == DiscreteParams::spec_default(),
    {
        DiscreteParams {
            mode: CarrierMode::Mono,
            fixed_note: FIXED_NOTE_DEFAULT,
            scale: ScaleKind::Chromatic,
            scale_root: ScaleRoot::C,
            comp_on: true,
            chord_type: ChordVoicing::Major,
            pitch_algo: PitchAlgorithm::YinFft,
            carrier_chorus_on: false,
            output_chorus_on: false,
            trem_on: false,
            trem_target: LfoTarget::Amplitude,
            pre_drive_on: false,
            post_drive_on: false,
            drive_mode: DriveMode::Tape,
            crusher_on: false,
            crusher_bits: CRUSHER_BITS_MAX,
            sub_on: false,
        }
    }

    /// Whether the integer parameters lie in their ranges.
    pub open spec fn in_range(self) -> bool {
        &&& FIXED_NOTE_MIN <= self.fixed_note <= FIXED_NOTE_MAX
        &&& CRUSHER_BITS_MIN <= self.crusher_bits <= CRUSHER_BITS_MAX
    }

    /// Whether `self` and `other` hold the same value for parameter `q`; a
    /// continuous parameter is not held here, so they agree on it.
    pub open spec fn agrees_on(self, other: DiscreteParams, q: ParamId) -> bool {
        match q {
            ParamId::Mode => self.mode == other.mode,
            ParamId::FixedNote => self.fixed_note == other.fixed_note,
            ParamId::Scale => self.scale == other.scale,
            ParamId::ScaleRoot => self.scale_root == other.scale_root,
            ParamId::CompOn => self.comp_on == other.comp_on,
            ParamId::ChordType => self.chord_type == other.chord_type,
            ParamId::PitchAlgo => self.pitch_algo == other.pitch_algo,
            ParamId::CarrierChorusOn => self.carrier_chorus_on == other.carrier_chorus_on,
            ParamId::OutputChorusOn => self.output_chorus_on == other.output_chorus_on,
            ParamId::TremOn => self.trem_on == other.trem_on,
            ParamId::TremTarget => self.trem_target == other.trem_target,
            ParamId::PreDriveOn => self.pre_drive_on == other.pre_drive_on,
            ParamId::PostDriveOn => self.post_drive_on == other.post_drive_on,
            ParamId::DriveMode => self.drive_mode == other.drive_mode,
            ParamId::CrusherOn => self.crusher_on == other.crusher_on,
            ParamId::CrusherBits => self.crusher_bits == other.crusher_bits,
            ParamId::SubOn => self.sub_on == other.sub_on,
            _ => true,
        }
    }
}

impl Default for DiscreteParams {
    /// The parameters as the plugin creates them.
    fn default() -> (r: DiscreteParams)
        ensures
            r == DiscreteParams::spec_default(),
    {
        DiscreteParams::new()
    }
}

/// The default parameters lie in their ranges.
pub proof fn lemma_default_in_range()
    ensures
        DiscreteParams::spec_default().in_range(),
{
}

/// Each parameter raises the flag of the engine setting that takes its value:
/// the carrier mode, fixed note and chord type the carrier flag, scale and
/// root the scale flag, and every other parameter the flag of its own setting.
pub proof fn lemma_param_flags()
    ensures
        ParamId::Mode.spec_update_flag() == Flag::CarrierMode,
        ParamId::FixedNote.spec_update_flag() == Flag::CarrierMode,
        ParamId::ChordType.spec_update_flag() == Flag::CarrierMode,
        ParamId::Scale.spec_update_flag() == Flag::Scale,
        ParamId::ScaleRoot.spec_update_flag() == Flag::Scale,
        ParamId::Mix.spec_update_flag() == Flag::DryWet,
        ParamId::Portamento.spec_update_flag() == Flag::Portamento,
        ParamId::CarrierLevel.spec_update_flag() == Flag::CarrierLevel,
        ParamId::InputGain.spec_update_flag() == Flag::InputGain,
        ParamId::OutputGain.spec_update_flag() == Flag::OutputGain,
        ParamId::CompOn.spec_update_flag() == Flag::CompressorEnabled,
        ParamId::CompThreshold.spec_update_flag() == Flag::CompressorThreshold,
        ParamId::PitchAlgo.spec_update_flag() == Flag::PitchAlgorithm,
        ParamId::CarrierChorusOn.spec_update_flag() == Flag::CarrierChorusEnabled,
        ParamId::OutputChorusOn.spec_update_flag() == Flag::OutputChorusEnabled,
        ParamId::ChorusRate.spec_update_flag() == Flag::ChorusRate,
        ParamId::ChorusDepth.spec_update_flag() == Flag::ChorusDepth,
        ParamId::ChorusMix.spec_update_flag() == Flag::ChorusMix,
        ParamId::TremOn.spec_update_flag() == Flag::TremoloEnabled,
        ParamId::TremRate.spec_update_flag() == Flag::TremoloRate,
        ParamId::TremDepth.spec_update_flag() == Flag::TremoloDepth,
        ParamId::TremShape.spec_update_flag() == Flag::TremoloShape,
        ParamId::TremTarget.spec_update_flag() == Flag::TremoloTarget,
        ParamId::PreDriveOn.spec_update_flag() == Flag::PreDriveEnabled,
        ParamId::PostDriveOn.spec_update_flag() == Flag::PostDriveEnabled,
        ParamId::DriveMode.spec_update_flag() == Flag::DriveMode,
        ParamId::DriveAmount.spec_update_flag() == Flag::DriveAmount,
        ParamId::CrusherOn.spec_update_flag() == Flag::CrusherEnabled,
        ParamId::CrusherBits.spec_update_flag() == Flag::CrusherBits,
        ParamId::CrusherRate.spec_update_flag() == Flag::CrusherRate,
        ParamId::SubOn.spec_update_flag() == Flag::SubOscillatorEnabled,
        ParamId::SubLevel.spec_update_flag() == Flag::SubOscillatorLevel,
{
}

} // verus!
