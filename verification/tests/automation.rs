//! The automation engine: key routing, the toggle state machine and apply.

use phosphlux_lite::automation::set_param;
use phosphlux_lite::automation::LfoTier;
use phosphlux_lite::automation::AutomationState;
use phosphlux_lite::automation::LfoState;
use phosphlux_lite::synth::SynthState;

fn val(word: u32) -> f32 {
    f32::from_bits(word)
}

#[test]
fn set_param_routes_every_recognized_key() {
    let keys = [
        "input.mix",
        "input.frequency",
        "input.phase",
        "input.rotation",
        "geometry.wobbulate_h",
        "geometry.wobbulate_v",
        "geometry.wobble_freq",
        "geometry.z_displacement",
        "geometry.lissajous_x",
        "geometry.lissajous_y",
        "geometry.rotation",
        "geometry.scale",
        "amplitude.fold_gain",
        "amplitude.fold_mix",
        "amplitude.quantize_levels",
        "amplitude.quantize_mix",
        "amplitude.soft_clip",
        "amplitude.solarize",
        "amplitude.gate_threshold",
        "colorize.hue_offset",
        "colorize.saturation",
        "colorize.levels",
        "mixer.feedback_mix",
        "mixer.key_threshold",
        "mixer.key_softness",
        "mixer.layer_opacity",
        "feedback.zoom",
        "feedback.rotation",
        "feedback.hue_shift",
        "feedback.decay",
        "feedback.offset_x",
        "feedback.offset_y",
        "feedback.saturation",
        "output.scanlines",
        "output.bloom",
        "output.vignette",
        "output.tracking",
        "output.chroma_shift",
        "output.tape_wobble",
        "output.bandwidth",
        "output.ghosting",
    ];
    let marker = 123.456f32.to_bits();
    for key in keys {
        let mut s = SynthState::default();
        let changed = set_param(&mut s, key, marker);
        assert!(changed, "key {} must be recognized", key);
        assert_ne!(s, SynthState::default(), "key {} must write a field", key);
    }
}

#[test]
fn set_param_writes_the_addressed_field() {
    let mut s = SynthState::default();
    assert!(set_param(&mut s, "geometry.wobbulate_h", 0.3f32.to_bits()));
    assert_eq!(val(s.geometry.wobbulate_h), 0.3);
    // the rest of the stage and the other stages are untouched
    assert_eq!(val(s.geometry.wobbulate_v), 0.0);
    assert_eq!(s.input, SynthState::default().input);
    assert_eq!(s.output, SynthState::default().output);
}

#[test]
fn set_param_reports_unchanged_when_value_is_identical() {
    let mut s = SynthState::default();
    let current = s.mixer.key_threshold;
    let changed = set_param(&mut s, "mixer.key_threshold", current);
    assert!(!changed);
    assert_eq!(s, SynthState::default());
}

#[test]
fn malformed_and_unknown_keys_are_silently_skipped() {
    let bad = [
        "",
        "input",
        "mix",
        "input.mix.extra",
        "a.b.c",
        "..",
        "bogus.mix",
        "input.bogus",
        "output.noise",
        "output.vhs_noise",
        "output.cable_noise",
        "amplitude.invert",
        "INPUT.MIX",
        "input mix",
        "input.",
        ".mix",
    ];
    for key in bad {
        let mut s = SynthState::default();
        let changed = set_param(&mut s, key, 0.7f32.to_bits());
        assert!(!changed, "key {:?} must be skipped", key);
        assert_eq!(s, SynthState::default(), "key {:?} must not modify the model", key);
    }
}

#[test]
fn apply_on_empty_modulator_set_reports_unchanged() {
    let auto = AutomationState::new();
    let mut s = SynthState::default();
    let outputs: Vec<u32> = Vec::new();
    let modified = auto.apply(&mut s, &outputs);
    assert!(!modified);
    assert_eq!(s, SynthState::default());
}

#[test]
fn apply_routes_each_output_to_its_key() {
    let mut auto = AutomationState::new();
    auto.cycle_lfo("input.mix", 0.0f32.to_bits(), 1.0f32.to_bits());
    auto.cycle_lfo("feedback.zoom", 0.9f32.to_bits(), 1.1f32.to_bits());
    let mut s = SynthState::default();
    let outputs = vec![0.25f32.to_bits(), 1.05f32.to_bits()];
    let modified = auto.apply(&mut s, &outputs);
    assert!(modified);
    assert_eq!(val(s.input.mix), 0.25);
    assert_eq!(val(s.feedback.zoom), 1.05);
}

#[test]
fn apply_with_stale_key_skips_it() {
    let mut auto = AutomationState::new();
    auto.cycle_lfo("output.vhs_noise", 0.0f32.to_bits(), 1.0f32.to_bits());
    let mut s = SynthState::default();
    let outputs = vec![0.5f32.to_bits()];
    let modified = auto.apply(&mut s, &outputs);
    assert!(!modified);
    assert_eq!(s, SynthState::default());
}

#[test]
fn apply_reports_unchanged_when_outputs_equal_current_values() {
    let mut auto = AutomationState::new();
    auto.cycle_lfo("input.mix", 0.0f32.to_bits(), 1.0f32.to_bits());
    let mut s = SynthState::default();
    let current_mix = s.input.mix;
    let outputs = vec![current_mix];
    let modified = auto.apply(&mut s, &outputs);
    assert!(!modified);
    assert_eq!(s, SynthState::default());
}

#[test]
fn lfo_constructors_carry_their_tier_speeds() {
    let lo = 0.2f32.to_bits();
    let hi = 0.8f32.to_bits();
    let slow = LfoState::slow(lo, hi);
    assert_eq!(val(slow.speed), 0.1);
    assert_eq!(val(slow.lo), 0.2);
    assert_eq!(val(slow.hi), 0.8);
    assert_eq!(val(slow.offset), 0.0);
    assert_eq!(val(slow.subdivide), 1.0);
    assert_eq!(val(LfoState::medium(lo, hi).speed), 0.25);
    assert_eq!(val(LfoState::fast(lo, hi).speed), 0.5);
    let d = LfoState::default();
    assert_eq!(val(d.speed), 0.25);
    assert_eq!(val(d.lo), 0.0);
    assert_eq!(val(d.hi), 1.0);
}

#[test]
fn tier_classification_follows_the_speed() {
    let lo = 0.0f32.to_bits();
    let hi = 1.0f32.to_bits();
    assert_eq!(LfoState::slow(lo, hi).tier(), LfoTier::Slow);
    assert_eq!(LfoState::medium(lo, hi).tier(), LfoTier::Medium);
    assert_eq!(LfoState::fast(lo, hi).tier(), LfoTier::Fast);
    let mut odd = LfoState::default();
    odd.speed = 0.14f32.to_bits();
    assert_eq!(odd.tier(), LfoTier::Slow);
    odd.speed = 0.39f32.to_bits();
    assert_eq!(odd.tier(), LfoTier::Medium);
    odd.speed = 0.41f32.to_bits();
    assert_eq!(odd.tier(), LfoTier::Fast);
}

#[test]
fn four_toggles_cycle_back_to_off() {
    let mut auto = AutomationState::new();
    let lo = 0.0f32.to_bits();
    let hi = 1.0f32.to_bits();
    assert!(!auto.has_lfo("input.mix"));

    auto.cycle_lfo("input.mix", lo, hi);
    assert_eq!(val(auto.get_lfo("input.mix").unwrap().speed), 0.1);

    auto.cycle_lfo("input.mix", lo, hi);
    assert_eq!(val(auto.get_lfo("input.mix").unwrap().speed), 0.25);

    auto.cycle_lfo("input.mix", lo, hi);
    assert_eq!(val(auto.get_lfo("input.mix").unwrap().speed), 0.5);

    auto.cycle_lfo("input.mix", lo, hi);
    assert!(!auto.has_lfo("input.mix"));
    assert_eq!(auto.lfos.len(), 0);
}

#[test]
fn cycling_leaves_other_keys_alone() {
    let mut auto = AutomationState::new();
    let lo = 0.0f32.to_bits();
    let hi = 1.0f32.to_bits();
    auto.cycle_lfo("input.mix", lo, hi);
    auto.cycle_lfo("feedback.zoom", lo, hi);
    auto.cycle_lfo("input.mix", lo, hi);
    auto.cycle_lfo("input.mix", lo, hi);
    auto.cycle_lfo("input.mix", lo, hi);
    assert!(!auto.has_lfo("input.mix"));
    assert!(auto.has_lfo("feedback.zoom"));
    assert_eq!(val(auto.get_lfo("feedback.zoom").unwrap().speed), 0.1);
}

#[test]
fn fresh_modulator_uses_caller_supplied_bounds() {
    let mut auto = AutomationState::new();
    auto.cycle_lfo("geometry.scale", 0.5f32.to_bits(), 2.0f32.to_bits());
    let lfo = auto.get_lfo("geometry.scale").unwrap();
    assert_eq!(val(lfo.lo), 0.5);
    assert_eq!(val(lfo.hi), 2.0);
}

#[test]
fn remove_lfo_disables_automation_for_the_key() {
    let mut auto = AutomationState::new();
    auto.cycle_lfo("input.mix", 0, 1.0f32.to_bits());
    auto.cycle_lfo("input.phase", 0, 1.0f32.to_bits());
    auto.remove_lfo("input.mix");
    assert!(!auto.has_lfo("input.mix"));
    assert!(auto.has_lfo("input.phase"));
    // removing an absent key is a no-op
    auto.remove_lfo("input.mix");
    assert_eq!(auto.lfos.len(), 1);
}

#[test]
fn set_lfo_replaces_an_active_modulator() {
    let mut auto = AutomationState::new();
    auto.cycle_lfo("input.mix", 0, 1.0f32.to_bits());
    let mut lfo = auto.get_lfo("input.mix").unwrap();
    lfo.offset = 0.5f32.to_bits();
    lfo.subdivide = 2.0f32.to_bits();
    assert!(auto.set_lfo("input.mix", lfo));
    let got = auto.get_lfo("input.mix").unwrap();
    assert_eq!(val(got.offset), 0.5);
    assert_eq!(val(got.subdivide), 2.0);
    // a key with no modulator is not created
    assert!(!auto.set_lfo("input.phase", lfo));
    assert!(!auto.has_lfo("input.phase"));
}

#[test]
fn new_engine_starts_empty_at_120_bpm() {
    let auto = AutomationState::new();
    assert_eq!(auto.lfos.len(), 0);
    assert_eq!(val(auto.global_bpm), 120.0);
}
