use autovocoder_nice::flags::{Flag, UpdateFlags, ALL_BITS, FLAG_COUNT};
use autovocoder_nice::params::{
    DiscreteParams, ParamId, CRUSHER_BITS_MAX, CRUSHER_BITS_MIN, FIXED_NOTE_DEFAULT, FIXED_NOTE_MAX,
    FIXED_NOTE_MIN,
};
use autovocoder_nice::plugin::{scratch_len_after_activate, ProcessOutcome};
use autovocoder_nice::update::{CarrierSetting, Setting};
use autovocoder_nice::{
    CarrierMode, ChordVoicing, DriveMode, LfoTarget, PitchAlgorithm, ScaleKind, ScaleRoot,
};

const ALL_FLAGS: [Flag; 29] = [
    Flag::CarrierMode,
    Flag::Scale,
    Flag::DryWet,
    Flag::Portamento,
    Flag::CarrierLevel,
    Flag::InputGain,
    Flag::OutputGain,
    Flag::CompressorEnabled,
    Flag::CompressorThreshold,
    Flag::PitchAlgorithm,
    Flag::CarrierChorusEnabled,
    Flag::OutputChorusEnabled,
    Flag::ChorusRate,
    Flag::ChorusDepth,
    Flag::ChorusMix,
    Flag::TremoloEnabled,
    Flag::TremoloRate,
    Flag::TremoloDepth,
    Flag::TremoloShape,
    Flag::TremoloTarget,
    Flag::PreDriveEnabled,
    Flag::PostDriveEnabled,
    Flag::DriveMode,
    Flag::DriveAmount,
    Flag::CrusherEnabled,
    Flag::CrusherBits,
    Flag::CrusherRate,
    Flag::SubOscillatorEnabled,
    Flag::SubOscillatorLevel,
];

const ALL_PARAMS: [ParamId; 32] = [
    ParamId::Mode,
    ParamId::FixedNote,
    ParamId::Scale,
    ParamId::ScaleRoot,
    ParamId::Mix,
    ParamId::Portamento,
    ParamId::CarrierLevel,
    ParamId::InputGain,
    ParamId::OutputGain,
    ParamId::CompOn,
    ParamId::CompThreshold,
    ParamId::ChordType,
    ParamId::PitchAlgo,
    ParamId::CarrierChorusOn,
    ParamId::OutputChorusOn,
    ParamId::ChorusRate,
    ParamId::ChorusDepth,
    ParamId::ChorusMix,
    ParamId::TremOn,
    ParamId::TremRate,
    ParamId::TremDepth,
    ParamId::TremShape,
    ParamId::TremTarget,
    ParamId::PreDriveOn,
    ParamId::PostDriveOn,
    ParamId::DriveMode,
    ParamId::DriveAmount,
    ParamId::CrusherOn,
    ParamId::CrusherBits,
    ParamId::CrusherRate,
    ParamId::SubOn,
    ParamId::SubLevel,
];

#[test]
fn scale_kind_codes() {
    let kinds = [
        ScaleKind::Chromatic,
        ScaleKind::Major,
        ScaleKind::Minor,
        ScaleKind::Dorian,
        ScaleKind::Phrygian,
        ScaleKind::Lydian,
        ScaleKind::Mixolydian,
        ScaleKind::HarmonicMinor,
        ScaleKind::MajorPentatonic,
        ScaleKind::MinorPentatonic,
        ScaleKind::Blues,
    ];
    for (i, k) in kinds.iter().enumerate() {
        assert_eq!(k.to_int(), i as i32);
    }
    assert_eq!(ScaleKind::HarmonicMinor.to_int(), 7);
    assert_eq!(ScaleKind::Blues.to_int(), 10);
}

#[test]
fn scale_root_semitones() {
    assert_eq!(ScaleRoot::C.to_u8(), 0);
    assert_eq!(ScaleRoot::CSharp.to_u8(), 1);
    assert_eq!(ScaleRoot::E.to_u8(), 4);
    assert_eq!(ScaleRoot::G.to_u8(), 7);
    assert_eq!(ScaleRoot::B.to_u8(), 11);
}

#[test]
fn flag_bits() {
    assert_eq!(FLAG_COUNT, 29);
    for (i, f) in ALL_FLAGS.iter().enumerate() {
        assert_eq!(f.to_ordinal(), i as u32);
        assert_eq!(Flag::from_ordinal(i as u32), *f);
        assert_eq!(f.bit(), 1u32 << i);
    }
    assert_eq!(Flag::CarrierMode.bit(), 1);
    assert_eq!(Flag::SubOscillatorLevel.bit(), 1 << 28);
}

#[test]
fn empty_and_all_flags() {
    let e = UpdateFlags::empty();
    assert!(e.is_empty());
    assert_eq!(e.bits(), 0);
    assert_eq!(UpdateFlags::default(), e);
    let a = UpdateFlags::all();
    assert_eq!(a.bits(), ALL_BITS);
    assert!(!a.is_empty());
    for f in ALL_FLAGS {
        assert!(!e.contains(f));
        assert!(a.contains(f));
    }
}

#[test]
fn insert_and_union_of_flags() {
    let mut s = UpdateFlags::empty();
    s.insert(Flag::Scale);
    assert!(s.contains(Flag::Scale));
    assert!(!s.contains(Flag::CarrierMode));
    assert!(!s.is_empty());
    s.insert(Flag::Scale);
    assert_eq!(s.bits(), 2);
    let t = UpdateFlags::from_flag(Flag::CrusherBits);
    let u = s.union(t);
    assert!(u.contains(Flag::Scale));
    assert!(u.contains(Flag::CrusherBits));
    assert!(!u.contains(Flag::CrusherRate));
    assert_eq!(u.bits(), 2 | (1 << 25));
}

#[test]
fn flags_from_bits_drop_unknown_bits() {
    let f = UpdateFlags::from_bits(0xe000_0001);
    assert_eq!(f.bits(), 1);
    assert!(f.contains(Flag::CarrierMode));
    assert!(UpdateFlags::from_bits(0xe000_0000).is_empty());
    let g = UpdateFlags::from_bits(UpdateFlags::all().bits());
    assert_eq!(g, UpdateFlags::all());
}

#[test]
fn param_update_flags() {
    assert_eq!(ParamId::Mode.update_flag(), Flag::CarrierMode);
    assert_eq!(ParamId::FixedNote.update_flag(), Flag::CarrierMode);
    assert_eq!(ParamId::ChordType.update_flag(), Flag::CarrierMode);
    assert_eq!(ParamId::Scale.update_flag(), Flag::Scale);
    assert_eq!(ParamId::ScaleRoot.update_flag(), Flag::Scale);
    assert_eq!(ParamId::Mix.update_flag(), Flag::DryWet);
    assert_eq!(ParamId::CompOn.update_flag(), Flag::CompressorEnabled);
    assert_eq!(ParamId::TremTarget.update_flag(), Flag::TremoloTarget);
    assert_eq!(ParamId::SubLevel.update_flag(), Flag::SubOscillatorLevel);
    // every flag is raised by some parameter
    for f in ALL_FLAGS {
        assert!(ALL_PARAMS.iter().any(|q| q.update_flag() == f));
    }
}

#[test]
fn default_params() {
    let p = DiscreteParams::new();
    assert_eq!(p, DiscreteParams::default());
    assert_eq!(p.mode, CarrierMode::Mono);
    assert_eq!(p.fixed_note, FIXED_NOTE_DEFAULT);
    assert_eq!(p.fixed_note, 48);
    assert_eq!(p.scale, ScaleKind::Chromatic);
    assert_eq!(p.scale_root, ScaleRoot::C);
    assert!(p.comp_on);
    assert_eq!(p.chord_type, ChordVoicing::Major);
    assert_eq!(p.pitch_algo, PitchAlgorithm::YinFft);
    assert!(!p.carrier_chorus_on && !p.output_chorus_on && !p.trem_on);
    assert_eq!(p.trem_target, LfoTarget::Amplitude);
    assert!(!p.pre_drive_on && !p.post_drive_on);
    assert_eq!(p.drive_mode, DriveMode::Tape);
    assert!(!p.crusher_on && !p.sub_on);
    assert_eq!(p.crusher_bits, 16);
    assert!(FIXED_NOTE_MIN <= p.fixed_note && p.fixed_note <= FIXED_NOTE_MAX);
    assert!(CRUSHER_BITS_MIN <= p.crusher_bits && p.crusher_bits <= CRUSHER_BITS_MAX);
    assert_eq!((FIXED_NOTE_MIN, FIXED_NOTE_MAX), (24, 84));
}

#[test]
fn carrier_settings() {
    let mut p = DiscreteParams::new();
    assert_eq!(p.carrier_setting(), CarrierSetting::Mono);
    p.mode = CarrierMode::Chord;
    p.chord_type = ChordVoicing::Min9;
    assert_eq!(p.carrier_setting(), CarrierSetting::Chord(ChordVoicing::Min9));
    p.mode = CarrierMode::Fixed;
    p.fixed_note = 60;
    assert_eq!(p.carrier_setting(), CarrierSetting::Fixed { midi: 60 });
    p.mode = CarrierMode::FixedChord;
    assert_eq!(
        p.carrier_setting(),
        CarrierSetting::FixedChord { midi: 60, voicing: ChordVoicing::Min9 }
    );
    // the note is cut to a byte
    p.fixed_note = 300;
    assert_eq!(
        p.carrier_setting(),
        CarrierSetting::FixedChord { midi: 44, voicing: ChordVoicing::Min9 }
    );
}

#[test]
fn setting_for_each_flag() {
    let mut p = DiscreteParams::new();
    p.scale = ScaleKind::Minor;
    p.scale_root = ScaleRoot::D;
    p.crusher_bits = 8;
    p.sub_on = true;
    assert_eq!(Setting::for_flag(Flag::Scale, &p), Setting::Scale { kind: 2, root: 2 });
    assert_eq!(Setting::for_flag(Flag::CrusherBits, &p), Setting::CrusherBits(8));
    assert_eq!(Setting::for_flag(Flag::SubOscillatorEnabled, &p), Setting::SubOscillatorEnabled(true));
    assert_eq!(Setting::for_flag(Flag::CompressorEnabled, &p), Setting::CompressorEnabled(true));
    assert_eq!(Setting::for_flag(Flag::DryWet, &p), Setting::DryWet);
    assert_eq!(Setting::for_flag(Flag::DriveMode, &p), Setting::DriveMode(DriveMode::Tape));
    for f in ALL_FLAGS {
        assert_eq!(Setting::for_flag(f, &p).flag(), f);
    }
}

#[test]
fn update_without_flags_is_empty() {
    let p = DiscreteParams::new();
    assert!(UpdateFlags::empty().update(&p).is_empty());
    assert!(UpdateFlags::default().update(&p).is_empty());
}

#[test]
fn update_with_all_flags_sets_everything_in_order() {
    let p = DiscreteParams::new();
    let r = UpdateFlags::all().update(&p);
    assert_eq!(r.len(), 29);
    for (i, f) in ALL_FLAGS.iter().enumerate() {
        assert_eq!(r[i], Setting::for_flag(*f, &p));
    }
    assert_eq!(r[0], Setting::CarrierMode(CarrierSetting::Mono));
    assert_eq!(r[1], Setting::Scale { kind: 0, root: 0 });
    assert_eq!(r[28], Setting::SubOscillatorLevel);
}

#[test]
fn update_only_raised_flags_in_flag_order() {
    let p = DiscreteParams::new();
    let mut s = UpdateFlags::empty();
    s.insert(Flag::CrusherBits);
    s.insert(Flag::CarrierMode);
    s.insert(Flag::TremoloTarget);
    let r = s.update(&p);
    assert_eq!(
        r,
        vec![
            Setting::CarrierMode(CarrierSetting::Mono),
            Setting::TremoloTarget(LfoTarget::Amplitude),
            Setting::CrusherBits(16),
        ]
    );
}

#[test]
fn changed_param_is_applied_by_next_update() {
    let mut p = DiscreteParams::new();
    let mut pending = UpdateFlags::empty();
    // the scale root changes: its callback raises the scale flag
    p.scale_root = ScaleRoot::A;
    pending.insert(ParamId::ScaleRoot.update_flag());
    let r = pending.update(&p);
    assert_eq!(r, vec![Setting::Scale { kind: 0, root: 9 }]);
}

#[test]
fn setting_reads_only_its_params() {
    let p1 = DiscreteParams::new();
    let mut p2 = p1;
    p2.trem_on = true;
    p2.sub_on = true;
    // the carrier setting does not read the switches
    assert_eq!(
        Setting::for_flag(Flag::CarrierMode, &p1),
        Setting::for_flag(Flag::CarrierMode, &p2)
    );
    assert_ne!(
        Setting::for_flag(Flag::TremoloEnabled, &p1),
        Setting::for_flag(Flag::TremoloEnabled, &p2)
    );
}

#[test]
fn scratch_buffer_grows_only() {
    assert_eq!(scratch_len_after_activate(0, 512), 512);
    assert_eq!(scratch_len_after_activate(1024, 512), 1024);
    assert_eq!(scratch_len_after_activate(512, 512), 512);
    assert_eq!(scratch_len_after_activate(100, 0), 100);
}

#[test]
fn process_outcomes() {
    assert_eq!(ProcessOutcome::decide(false, 1), ProcessOutcome::NotInitialized);
    assert_eq!(ProcessOutcome::decide(false, 2), ProcessOutcome::NotInitialized);
    assert_eq!(ProcessOutcome::decide(true, 2), ProcessOutcome::UnsupportedChannels);
    assert_eq!(ProcessOutcome::decide(true, 0), ProcessOutcome::UnsupportedChannels);
    assert_eq!(ProcessOutcome::decide(true, 1), ProcessOutcome::Normal);
    assert!(!ProcessOutcome::NotInitialized.applies_pending());
    assert!(ProcessOutcome::UnsupportedChannels.applies_pending());
    assert!(ProcessOutcome::Normal.applies_pending());
    assert_eq!(
        ProcessOutcome::NotInitialized.error_message(),
        Some("inner plugin not initialized, was initialize not called?")
    );
    assert_eq!(
        ProcessOutcome::UnsupportedChannels.error_message(),
        Some("Currently only supports a single channel!")
    );
    assert_eq!(ProcessOutcome::Normal.error_message(), None);
}
