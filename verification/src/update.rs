//! What an update hands to the vocoder engine: for each raised flag, in the
//! order of the flags, one setting built from the current parameter values.
use vstd::prelude::*;

use crate::enums::{CarrierMode, ChordVoicing, DriveMode, LfoTarget, PitchAlgorithm};
use crate::flags::{Flag, UpdateFlags, FLAG_COUNT};
use crate::params::{DiscreteParams, ParamId};

verus! {

/// The carrier configuration of the vocoder engine.
#[derive(Clone, Copy, Debug, PartialEq, Eq, Structural)]
pub enum CarrierSetting {
    Mono,
    Chord(ChordVoicing),
    Fixed { midi: u8 },
    FixedChord { midi: u8, voicing: ChordVoicing },
}

/// One call into the vocoder engine. A setting without a payload stands for a
/// continuous parameter, whose current value the caller passes on as it is.
#[derive(Clone, Copy, Debug, PartialEq, Eq, Structural)]
pub enum Setting {
    CarrierMode(CarrierSetting),
    Scale { kind: i32, root: u8 },
    DryWet,
    Portamento,
    CarrierLevel,
    InputGain,
    OutputGain,
    CompressorEnabled(bool),
    CompressorThreshold,
    PitchAlgorithm(PitchAlgorithm),
    CarrierChorusEnabled(bool),
    OutputChorusEnabled(bool),
    ChorusRate,
    ChorusDepth,
    ChorusMix,
    TremoloEnabled(bool),
    TremoloRate,
    TremoloDepth,
    TremoloShape,
    TremoloTarget(LfoTarget),
    PreDriveEnabled(bool),
    PostDriveEnabled(bool),
    DriveMode(DriveMode),
    DriveAmount,
    CrusherEnabled(bool),
    CrusherBits(i32),
    CrusherRate,
    SubOscillatorEnabled(bool),
    SubOscillatorLevel,
}

/// The carrier configuration for the parameter values: the mode picks the
/// shape, the chord type gives the voicing and the fixed note, cut to a byte,
/// gives the MIDI note.
pub open spec fn spec_carrier_setting(p: DiscreteParams) -> CarrierSetting {
    match p.mode {
        CarrierMode::Mono => CarrierSetting::Mono,
        CarrierMode::Chord => CarrierSetting::Chord(p.chord_type),
        CarrierMode::Fixed => CarrierSetting::Fixed { midi: p.fixed_note as u8 },
        CarrierMode::FixedChord => CarrierSetting::FixedChord {
            midi: p.fixed_note as u8,
            voicing: p.chord_type,
        },
    }
}

/// The setting that flag `f` hands to the engine for the parameter values `p`.
pub open spec fn spec_setting_for(f: Flag, p: DiscreteParams) -> Setting {
    match f {
        Flag::CarrierMode => Setting::CarrierMode(spec_carrier_setting(p)),
        Flag::Scale => Setting::Scale {
            kind: p.scale.spec_int() as i32,
            root: p.scale_root.spec_semitone() as u8,
        },
        Flag::DryWet => Setting::DryWet,
        Flag::Portamento => Setting::Portamento,
        Flag::CarrierLevel => Setting::CarrierLevel,
        Flag::InputGain => Setting::InputGain,
        Flag::OutputGain => Setting::OutputGain,
        Flag::CompressorEnabled => Setting::CompressorEnabled(p.comp_on),
        Flag::CompressorThreshold => Setting::CompressorThreshold,
        Flag::PitchAlgorithm => Setting::PitchAlgorithm(p.pitch_algo),
        Flag::CarrierChorusEnabled => Setting::CarrierChorusEnabled(p.carrier_chorus_on),
        Flag::OutputChorusEnabled => Setting::OutputChorusEnabled(p.output_chorus_on),
        Flag::ChorusRate => Setting::ChorusRate,
        Flag::ChorusDepth => Setting::ChorusDepth,
        Flag::ChorusMix => Setting::ChorusMix,
        Flag::TremoloEnabled => Setting::TremoloEnabled(p.trem_on),
        Flag::TremoloRate => Setting::TremoloRate,
        Flag::TremoloDepth => Setting::TremoloDepth,
        Flag::TremoloShape => Setting::TremoloShape,
        Flag::TremoloTarget => Setting::TremoloTarget(p.trem_target),
        Flag::PreDriveEnabled => Setting::PreDriveEnabled(p.pre_drive_on),
        Flag::PostDriveEnabled => Setting::PostDriveEnabled(p.post_drive_on),
        Flag::DriveMode => Setting::DriveMode(p.drive_mode),
        Flag::DriveAmount => Setting::DriveAmount,
        Flag::CrusherEnabled => Setting::CrusherEnabled(p.crusher_on),
        Flag::CrusherBits => Setting::CrusherBits(p.crusher_bits),
        Flag::CrusherRate => Setting::CrusherRate,
        Flag::SubOscillatorEnabled => Setting::SubOscillatorEnabled(p.sub_on),
        Flag::SubOscillatorLevel => Setting::SubOscillatorLevel,
    }
}

/// The settings of the flags among the first `n` that are in `flags`, in the
/// order of the flags.
pub open spec fn spec_settings_upto(flags: Set<Flag>, p: DiscreteParams, n: nat) -> Seq<Setting>
    decreases n,
{
    if n == 0 {
        Seq::empty()
    } else {
        let prev = spec_settings_upto(flags, p, (n - 1) as nat);
        let f = Flag::at((n - 1) as u32);
        if flags.contains(f) {
            prev.push(spec_setting_for(f, p))
        } else {
            prev
        }
    }
}

/// The settings that an update with `flags` hands to the engine.
pub open spec fn spec_update(flags: Set<Flag>, p: DiscreteParams) -> Seq<Setting> {
    spec_settings_upto(flags, p, FLAG_COUNT as nat)
}

impl DiscreteParams {
    /// The carrier configuration for these parameter values.
    pub fn carrier_setting(&self) -> (r: CarrierSetting)
        ensures
            r == spec_carrier_setting(*self),
    {
        match self.mode {
            CarrierMode::Mono => CarrierSetting::Mono,
            CarrierMode::Chord => CarrierSetting::Chord(self.chord_type),
            CarrierMode::Fixed => CarrierSetting::Fixed { midi: self.fixed_note as u8 },
            CarrierMode::FixedChord => CarrierSetting::FixedChord {
                midi: self.fixed_note as u8,
                voicing: self.chord_type,
            },
        }
    }
}

impl Setting {
    /// The flag whose update produces this setting.
    pub open spec fn spec_flag(self) -> Flag {
        match self {
            Setting::CarrierMode(_) => Flag::CarrierMode,
            Setting::Scale { .. } => Flag::Scale,
            Setting::DryWet => Flag::DryWet,
            Setting::Portamento => Flag::Portamento,
            Setting::CarrierLevel => Flag::CarrierLevel,
            Setting::InputGain => Flag::InputGain,
            Setting::OutputGain => Flag::OutputGain,
            Setting::CompressorEnabled(_) => Flag::CompressorEnabled,
            Setting::CompressorThreshold => Flag::CompressorThreshold,
            Setting::PitchAlgorithm(_) => Flag::PitchAlgorithm,
            Setting::CarrierChorusEnabled(_) => Flag::CarrierChorusEnabled,
            Setting::OutputChorusEnabled(_) => Flag::OutputChorusEnabled,
            Setting::ChorusRate => Flag::ChorusRate,
            Setting::ChorusDepth => Flag::ChorusDepth,
            Setting::ChorusMix => Flag::ChorusMix,
            Setting::TremoloEnabled(_) => Flag::TremoloEnabled,
            Setting::TremoloRate => Flag::TremoloRate,
            Setting::TremoloDepth => Flag::TremoloDepth,
            Setting::TremoloShape => Flag::TremoloShape,
            Setting::TremoloTarget(_) => Flag::TremoloTarget,
            Setting::PreDriveEnabled(_) => Flag::PreDriveEnabled,
            Setting::PostDriveEnabled(_) => Flag::PostDriveEnabled,
            Setting::DriveMode(_) => Flag::DriveMode,
            Setting::DriveAmount => Flag::DriveAmount,
            Setting::CrusherEnabled(_) => Flag::CrusherEnabled,
            Setting::CrusherBits(_) => Flag::CrusherBits,
            Setting::CrusherRate => Flag::CrusherRate,
            Setting::SubOscillatorEnabled(_) => Flag::SubOscillatorEnabled,
            Setting::SubOscillatorLevel => Flag::SubOscillatorLevel,
        }
    }

    /// The setting that flag `f` hands to the engine for the values `p`.
    pub fn for_flag(f: Flag, p: &DiscreteParams) -> (r: Setting)
        ensures
            r == spec_setting_for(f, *p),
    {
        match f {
            Flag::CarrierMode => Setting::CarrierMode(p.carrier_setting()),
            Flag::Scale => {
                let kind = p.scale.to_int();
                let root = p.scale_root.to_u8();
                Setting::Scale { kind, root }
            },
            Flag::DryWet => Setting::DryWet,
            Flag::Portamento => Setting::Portamento,
            Flag::CarrierLevel => Setting::CarrierLevel,
            Flag::InputGain => Setting::InputGain,
            Flag::OutputGain => Setting::OutputGain,
            Flag::CompressorEnabled => Setting::CompressorEnabled(p.comp_on),
            Flag::CompressorThreshold => Setting::CompressorThreshold,
            Flag::PitchAlgorithm => Setting::PitchAlgorithm(p.pitch_algo),
            Flag::CarrierChorusEnabled => Setting::CarrierChorusEnabled(p.carrier_chorus_on),
            Flag::OutputChorusEnabled => Setting::OutputChorusEnabled(p.output_chorus_on),
            Flag::ChorusRate => Setting::ChorusRate,
            Flag::ChorusDepth => Setting::ChorusDepth,
            Flag::ChorusMix => Setting::ChorusMix,
            Flag::TremoloEnabled => Setting::TremoloEnabled(p.trem_on),
            Flag::TremoloRate => Setting::TremoloRate,
            Flag::TremoloDepth => Setting::TremoloDepth,
            Flag::TremoloShape => Setting::TremoloShape,
            Flag::TremoloTarget => Setting::TremoloTarget(p.trem_target),
            Flag::PreDriveEnabled => Setting::PreDriveEnabled(p.pre_drive_on),
            Flag::PostDriveEnabled => Setting::PostDriveEnabled(p.post_drive_on),
            Flag::DriveMode => Setting::DriveMode(p.drive_mode),
            Flag::DriveAmount => Setting::DriveAmount,
            Flag::CrusherEnabled => Setting::CrusherEnabled(p.crusher_on),
            Flag::CrusherBits => Setting::CrusherBits(p.crusher_bits),
            Flag::CrusherRate => Setting::CrusherRate,
            Flag::SubOscillatorEnabled => Setting::SubOscillatorEnabled(p.sub_on),
            Flag::SubOscillatorLevel => Setting::SubOscillatorLevel,
        }
    }

    /// The flag whose update produces this setting.
    pub fn flag(self) -> (f: Flag)
        ensures
            f == self.spec_flag(),
    {
        match self {
            Setting::CarrierMode(_) => Flag::CarrierMode,
            Setting::Scale { .. } => Flag::Scale,
            Setting::DryWet => Flag::DryWet,
            Setting::Portamento => Flag::Portamento,
            Setting::CarrierLevel => Flag::CarrierLevel,
            Setting::InputGain => Flag::InputGain,
            Setting::OutputGain => Flag::OutputGain,
            Setting::CompressorEnabled(_) => Flag::CompressorEnabled,
            Setting::CompressorThreshold => Flag::CompressorThreshold,
            Setting::PitchAlgorithm(_) => Flag::PitchAlgorithm,
            Setting::CarrierChorusEnabled(_) => Flag::CarrierChorusEnabled,
            Setting::OutputChorusEnabled(_) => Flag::OutputChorusEnabled,
            Setting::ChorusRate => Flag::ChorusRate,
            Setting::ChorusDepth => Flag::ChorusDepth,
            Setting::ChorusMix => Flag::ChorusMix,
            Setting::TremoloEnabled(_) => Flag::TremoloEnabled,
            Setting::TremoloRate => Flag::TremoloRate,
            Setting::TremoloDepth => Flag::TremoloDepth,
            Setting::TremoloShape => Flag::TremoloShape,
            Setting::TremoloTarget(_) => Flag::TremoloTarget,
            Setting::PreDriveEnabled(_) => Flag::PreDriveEnabled,
            Setting::PostDriveEnabled(_) => Flag::PostDriveEnabled,
            Setting::DriveMode(_) => Flag::DriveMode,
            Setting::DriveAmount => Flag::DriveAmount,
            Setting::CrusherEnabled(_) => Flag::CrusherEnabled,
            Setting::CrusherBits(_) => Flag::CrusherBits,
            Setting::CrusherRate => Flag::CrusherRate,
            Setting::SubOscillatorEnabled(_) => Flag::SubOscillatorEnabled,
            Setting::SubOscillatorLevel => Flag::SubOscillatorLevel,
        }
    }
}

impl UpdateFlags {
    /// The settings that bring the engine up to date with the parameter values
    /// `params` for the flags in `self`: one per flag, in the order of the
    /// flags.
    pub fn update(self, params: &DiscreteParams) -> (r: Vec<Setting>)
        ensures
            r@ == spec_update(self@, *params),
    {
        let mut out: Vec<Setting> = Vec::new();
        let mut i: u32 = 0;
        while i < FLAG_COUNT
            invariant
                i <= FLAG_COUNT,
                out@ == spec_settings_upto(self@, *params, i as nat),
            decreases FLAG_COUNT - i,
        {
            let f = Flag::from_ordinal(i);
            if self.contains(f) {
                out.push(Setting::for_flag(f, params));
            }
            i = i + 1;
        }
        out
    }
}

/// The setting produced for flag `f` belongs to `f`.
pub proof fn lemma_setting_flag(f: Flag, p: DiscreteParams)
    ensures
        spec_setting_for(f, p).spec_flag() == f,
{
}

proof fn lemma_settings_upto_exact(flags: Set<Flag>, p: DiscreteParams, n: nat)
    requires
        n <= FLAG_COUNT,
    ensures
        ({
            let r = spec_settings_upto(flags, p, n);
            &&& forall|i: int|
                0 <= i < r.len() ==> {
                    &&& flags.contains(#[trigger] r[i].spec_flag())
                    &&& r[i] == spec_setting_for(r[i].spec_flag(), p)
                    &&& r[i].spec_flag().ordinal() < n
                }
            &&& forall|i: int, j: int|
                0 <= i < j < r.len() ==> #[trigger] r[i].spec_flag().ordinal()
                    < #[trigger] r[j].spec_flag().ordinal()
            &&& forall|f: Flag|
                flags.contains(f) && f.ordinal() < n ==> #[trigger] r.contains(
                    spec_setting_for(f, p),
                )
        }),
    decreases n,
{
    if n > 0 {
        lemma_settings_upto_exact(flags, p, (n - 1) as nat);
        let prev = spec_settings_upto(flags, p, (n - 1) as nat);
        let g = Flag::at((n - 1) as u32);
        let r = spec_settings_upto(flags, p, n);
        assert(g.ordinal() == n - 1);
        lemma_setting_flag(g, p);
        assert forall|f: Flag| flags.contains(f) && f.ordinal() < n implies #[trigger] r.contains(
            spec_setting_for(f, p),
        ) by {
            if f.ordinal() == n - 1 {
                assert(Flag::at(f.ordinal()) == f);
                assert(r[r.len() - 1] == spec_setting_for(f, p));
            } else {
                assert(prev.contains(spec_setting_for(f, p)));
                let k = choose|k: int| 0 <= k < prev.len() && prev[k] == spec_setting_for(f, p);
                assert(r[k] == prev[k]);
            }
        }
    }
}

/// An update hands to the engine exactly the settings of the raised flags:
/// each setting belongs to a raised flag and is built from the parameter
/// values, the settings come in the order of their flags (so no flag twice),
/// and every raised flag has its setting among them.
pub proof fn lemma_update_exact(flags: Set<Flag>, p: DiscreteParams)
    ensures
        ({
            let r = spec_update(flags, p);
            &&& forall|i: int|
                0 <= i < r.len() ==> {
                    &&& flags.contains(#[trigger] r[i].spec_flag())
                    &&& r[i] == spec_setting_for(r[i].spec_flag(), p)
                }
            &&& forall|i: int, j: int|
                0 <= i < j < r.len() ==> #[trigger] r[i].spec_flag().ordinal()
                    < #[trigger] r[j].spec_flag().ordinal()
            &&& forall|f: Flag| flags.contains(f) ==> #[trigger] r.contains(spec_setting_for(f, p))
        }),
{
    lemma_settings_upto_exact(flags, p, FLAG_COUNT as nat);
    assert forall|f: Flag| flags.contains(f) implies #[trigger] spec_update(flags, p).contains(
        spec_setting_for(f, p),
    ) by {
        crate::flags::lemma_flag_ordinal(f);
    }
}

/// An update with no raised flag hands nothing to the engine.
pub proof fn lemma_update_empty(p: DiscreteParams)
    ensures
        spec_update(Set::<Flag>::empty(), p) == Seq::<Setting>::empty(),
{
    lemma_settings_upto_exact(Set::<Flag>::empty(), p, FLAG_COUNT as nat);
    let r = spec_update(Set::<Flag>::empty(), p);
    if r.len() > 0 {
        assert(Set::<Flag>::empty().contains(r[0].spec_flag()));
    }
    assert(r =~= Seq::<Setting>::empty());
}

proof fn lemma_settings_upto_full(p: DiscreteParams, n: nat)
    requires
        n <= FLAG_COUNT,
    ensures
        ({
            let r = spec_settings_upto(Set::<Flag>::full(), p, n);
            &&& r.len() == n
            &&& forall|i: int| 0 <= i < n ==> #[trigger] r[i] == spec_setting_for(Flag::at(i as u32), p)
        }),
    decreases n,
{
    if n > 0 {
        lemma_settings_upto_full(p, (n - 1) as nat);
    }
}

/// An update with every flag raised, as on activation, hands every setting to
/// the engine, one per flag in the order of the flags.
pub proof fn lemma_update_all(p: DiscreteParams)
    ensures
        spec_update(Set::<Flag>::full(), p).len() == FLAG_COUNT,
        forall|i: int|
            0 <= i < FLAG_COUNT ==> #[trigger] spec_update(Set::<Flag>::full(), p)[i]
                == spec_setting_for(Flag::at(i as u32), p),
{
    lemma_settings_upto_full(p, FLAG_COUNT as nat);
}

/// The setting of flag `f` is built only from parameters whose change raises
/// `f`: two sets of parameter values that agree on those parameters give the
/// same setting.
pub proof fn lemma_setting_reads_only_its_params(f: Flag, p1: DiscreteParams, p2: DiscreteParams)
    requires
        forall|q: ParamId| #[trigger] q.spec_update_flag() == f ==> p1.agrees_on(p2, q),
    ensures
        spec_setting_for(f, p1) == spec_setting_for(f, p2),
{
    assert(ParamId::Mode.spec_update_flag() == Flag::CarrierMode);
    assert(ParamId::FixedNote.spec_update_flag() == Flag::CarrierMode);
    assert(ParamId::ChordType.spec_update_flag() == Flag::CarrierMode);
    assert(ParamId::Scale.spec_update_flag() == Flag::Scale);
    assert(ParamId::ScaleRoot.spec_update_flag() == Flag::Scale);
    assert(ParamId::CompOn.spec_update_flag() == Flag::CompressorEnabled);
    assert(ParamId::PitchAlgo.spec_update_flag() == Flag::PitchAlgorithm);
    assert(ParamId::CarrierChorusOn.spec_update_flag() == Flag::CarrierChorusEnabled);
    assert(ParamId::OutputChorusOn.spec_update_flag() == Flag::OutputChorusEnabled);
    assert(ParamId::TremOn.spec_update_flag() == Flag::TremoloEnabled);
    assert(ParamId::TremTarget.spec_update_flag() == Flag::TremoloTarget);
    assert(ParamId::PreDriveOn.spec_update_flag() == Flag::PreDriveEnabled);
    assert(ParamId::PostDriveOn.spec_update_flag() == Flag::PostDriveEnabled);
    assert(ParamId::DriveMode.spec_update_flag() == Flag::DriveMode);
    assert(ParamId::CrusherOn.spec_update_flag() == Flag::CrusherEnabled);
    assert(ParamId::CrusherBits.spec_update_flag() == Flag::CrusherBits);
    assert(ParamId::SubOn.spec_update_flag() == Flag::SubOscillatorEnabled);
}

/// A parameter whose change was recorded in the pending flags has its new
/// value handed to the engine by the next update.
pub proof fn lemma_changed_param_is_applied(pending: Set<Flag>, q: ParamId, p: DiscreteParams)
    ensures
        spec_update(pending.insert(q.spec_update_flag()), p).contains(
            spec_setting_for(q.spec_update_flag(), p),
        ),
{
    lemma_update_exact(pending.insert(q.spec_update_flag()), p);
}

/// The carrier configuration follows the carrier mode: mono carries nothing,
/// the chord modes carry the chosen chord type as voicing, the fixed modes
/// carry the fixed note cut to a byte, which is the note itself whenever it
/// lies in its range.
pub proof fn lemma_carrier_setting_follows_mode(p: DiscreteParams)
    ensures
        p.mode == CarrierMode::Mono ==> spec_carrier_setting(p) == CarrierSetting::Mono,
        p.mode == CarrierMode::Chord ==> spec_carrier_setting(p) == CarrierSetting::Chord(
            p.chord_type,
        ),
        p.mode == CarrierMode::Fixed ==> spec_carrier_setting(p) == (CarrierSetting::Fixed {
            midi: p.fixed_note as u8,
        }),
        p.mode == CarrierMode::FixedChord ==> spec_carrier_setting(p) == (
        CarrierSetting::FixedChord { midi: p.fixed_note as u8, voicing: p.chord_type }),
        p.in_range() ==> 0 <= p.fixed_note < 256 && (p.fixed_note as u8) as int == p.fixed_note,
{
    let n: i32 = p.fixed_note;
    assert(24 <= n <= 84 ==> (n as u8) as int == n) by (bit_vector);
}

/// Each setting that carries a value carries the current value of its own
/// parameter: every switch hands over its own state, the carrier flag the
/// carrier configuration of the values, the scale flag the scale's code and
/// the root's semitone, and the pitch detector, LFO target, drive mode and
/// crusher bit depth their chosen values.
pub proof fn lemma_setting_payloads(p: DiscreteParams)
    ensures
        spec_setting_for(Flag::CarrierMode, p) == Setting::CarrierMode(spec_carrier_setting(p)),
        spec_setting_for(Flag::Scale, p) == (Setting::Scale {
            kind: p.scale.spec_int() as i32,
            root: p.scale_root.spec_semitone() as u8,
        }),
        spec_setting_for(Flag::CompressorEnabled, p) == Setting::CompressorEnabled(p.comp_on),
        spec_setting_for(Flag::PitchAlgorithm, p) == Setting::PitchAlgorithm(p.pitch_algo),
        spec_setting_for(Flag::CarrierChorusEnabled, p) == Setting::CarrierChorusEnabled(
            p.carrier_chorus_on,
        ),
        spec_setting_for(Flag::OutputChorusEnabled, p) == Setting::OutputChorusEnabled(
            p.output_chorus_on,
        ),
        spec_setting_for(Flag::TremoloEnabled, p) == Setting::TremoloEnabled(p.trem_on),
        spec_setting_for(Flag::TremoloTarget, p) == Setting::TremoloTarget(p.trem_target),
        spec_setting_for(Flag::PreDriveEnabled, p) == Setting::PreDriveEnabled(p.pre_drive_on),
        spec_setting_for(Flag::PostDriveEnabled, p) == Setting::PostDriveEnabled(p.post_drive_on),
        spec_setting_for(Flag::DriveMode, p) == Setting::DriveMode(p.drive_mode),
        spec_setting_for(Flag::CrusherEnabled, p) == Setting::CrusherEnabled(p.crusher_on),
        spec_setting_for(Flag::CrusherBits, p) == Setting::CrusherBits(p.crusher_bits),
        spec_setting_for(Flag::SubOscillatorEnabled, p) == Setting::SubOscillatorEnabled(p.sub_on),
{
}

/// A change of a parameter that a setting carries changes that setting: two
/// sets of values that differ in a switch, the pitch detector, the LFO target,
/// the drive mode, the crusher bit depth, the scale or the root hand different
/// settings to the engine for the corresponding flag.
pub proof fn lemma_setting_follows_changes(p1: DiscreteParams, p2: DiscreteParams)
    ensures
        p1.comp_on != p2.comp_on ==> spec_setting_for(Flag::CompressorEnabled, p1)
            != spec_setting_for(Flag::CompressorEnabled, p2),
        p1.carrier_chorus_on != p2.carrier_chorus_on ==> spec_setting_for(
            Flag::CarrierChorusEnabled,
            p1,
        ) != spec_setting_for(Flag::CarrierChorusEnabled, p2),
        p1.output_chorus_on != p2.output_chorus_on ==> spec_setting_for(
            Flag::OutputChorusEnabled,
            p1,
        ) != spec_setting_for(Flag::OutputChorusEnabled, p2),
        p1.trem_on != p2.trem_on ==> spec_setting_for(Flag::TremoloEnabled, p1) != spec_setting_for(
            Flag::TremoloEnabled,
            p2,
        ),
        p1.pre_drive_on != p2.pre_drive_on ==> spec_setting_for(Flag::PreDriveEnabled, p1)
            != spec_setting_for(Flag::PreDriveEnabled, p2),
        p1.post_drive_on != p2.post_drive_on ==> spec_setting_for(Flag::PostDriveEnabled, p1)
            != spec_setting_for(Flag::PostDriveEnabled, p2),
        p1.crusher_on != p2.crusher_on ==> spec_setting_for(Flag::CrusherEnabled, p1)
            != spec_setting_for(Flag::CrusherEnabled, p2),
        p1.sub_on != p2.sub_on ==> spec_setting_for(Flag::SubOscillatorEnabled, p1)
            != spec_setting_for(Flag::SubOscillatorEnabled, p2),
        p1.pitch_algo != p2.pitch_algo ==> spec_setting_for(Flag::PitchAlgorithm, p1)
            != spec_setting_for(Flag::PitchAlgorithm, p2),
        p1.trem_target != p2.trem_target ==> spec_setting_for(Flag::TremoloTarget, p1)
            != spec_setting_for(Flag::TremoloTarget, p2),
        p1.drive_mode != p2.drive_mode ==> spec_setting_for(Flag::DriveMode, p1)
            != spec_setting_for(Flag::DriveMode, p2),
        p1.crusher_bits != p2.crusher_bits ==> spec_setting_for(Flag::CrusherBits, p1)
            != spec_setting_for(Flag::CrusherBits, p2),
        p1.scale != p2.scale || p1.scale_root != p2.scale_root ==> spec_setting_for(
            Flag::Scale,
            p1,
        ) != spec_setting_for(Flag::Scale, p2),
        p1.mode == p2.mode && p1.mode != CarrierMode::Mono && p1.mode != CarrierMode::Fixed
            && p1.chord_type != p2.chord_type ==> spec_setting_for(Flag::CarrierMode, p1)
            != spec_setting_for(Flag::CarrierMode, p2),
{
    lemma_setting_payloads(p1);
    lemma_setting_payloads(p2);
    crate::enums::lemma_scale_kind_int_injective(p1.scale, p2.scale);
    crate::enums::lemma_scale_root_semitone_injective(p1.scale_root, p2.scale_root);
}

/// An update with only flag `f` raised hands the engine exactly the one
/// setting of `f`.
pub proof fn lemma_update_single(f: Flag, p: DiscreteParams)
    ensures
        spec_update(set![f], p) == seq![spec_setting_for(f, p)],
{
    lemma_update_exact(set![f], p);
    let r = spec_update(set![f], p);
    assert(r.contains(spec_setting_for(f, p)));
    if r.len() > 1 {
        assert(set![f].contains(r[0].spec_flag()));
        assert(set![f].contains(r[1].spec_flag()));
        assert(r[0].spec_flag().ordinal() < r[1].spec_flag().ordinal());
    }
    assert(r.len() == 1);
    assert(r[0] == spec_setting_for(f, p));
    assert(r =~= seq![spec_setting_for(f, p)]);
}

} // verus!
