//! The parameter model: default values and the stable enum encodings.

use phosphlux_lite::synth::AmplitudeStage;
use phosphlux_lite::synth::BlendMode;
use phosphlux_lite::synth::ColorMode;
use phosphlux_lite::synth::ColorizeStage;
use phosphlux_lite::synth::FeedbackStage;
use phosphlux_lite::synth::GeometryStage;
use phosphlux_lite::synth::InputSource;
use phosphlux_lite::synth::InputStage;
use phosphlux_lite::synth::MixerStage;
use phosphlux_lite::synth::OutputMode;
use phosphlux_lite::synth::OutputStage;
use phosphlux_lite::synth::SynthState;

fn val(word: u32) -> f32 {
    f32::from_bits(word)
}

#[test]
fn input_stage_defaults() {
    let s = InputStage::default();
    assert_eq!(s.source_a, InputSource::RampH);
    assert_eq!(s.source_b, InputSource::OscV);
    assert_eq!(val(s.mix), 0.0);
    assert_eq!(val(s.frequency), 4.0);
    assert_eq!(val(s.phase), 0.0);
    assert_eq!(val(s.rotation), 0.0);
}

#[test]
fn geometry_stage_defaults() {
    let s = GeometryStage::default();
    assert_eq!(val(s.wobbulate_h), 0.0);
    assert_eq!(val(s.wobbulate_v), 0.0);
    assert_eq!(val(s.wobble_freq), 4.0);
    assert_eq!(val(s.z_displacement), 0.0);
    assert_eq!(val(s.lissajous_x), 0.0);
    assert_eq!(val(s.lissajous_y), 0.0);
    assert_eq!(val(s.rotation), 0.0);
    assert_eq!(val(s.scale), 1.0);
}

#[test]
fn amplitude_stage_defaults() {
    let s = AmplitudeStage::default();
    assert_eq!(val(s.fold_gain), 1.0);
    assert_eq!(val(s.fold_mix), 0.0);
    assert_eq!(val(s.quantize_levels), 8.0);
    assert_eq!(val(s.quantize_mix), 0.0);
    assert_eq!(val(s.soft_clip), 0.0);
    assert_eq!(val(s.solarize), 1.0);
    assert_eq!(val(s.gate_threshold), 0.0);
    assert_eq!(val(s.invert), 0.0);
}

#[test]
fn colorize_stage_defaults() {
    let s = ColorizeStage::default();
    assert_eq!(s.mode, ColorMode::Spectrum);
    assert_eq!(val(s.hue_offset), 0.0);
    assert_eq!(val(s.saturation), 1.0);
    assert_eq!(val(s.levels), 8.0);
    assert_eq!(val(s.gradient_start.r), 0.0);
    assert_eq!(val(s.gradient_start.g), 0.0);
    assert_eq!(val(s.gradient_start.b), 0.0);
    assert_eq!(val(s.gradient_end.r), 1.0);
    assert_eq!(val(s.gradient_end.g), 1.0);
    assert_eq!(val(s.gradient_end.b), 1.0);
}

#[test]
fn mixer_stage_defaults() {
    let s = MixerStage::default();
    assert_eq!(val(s.feedback_mix), 0.3);
    assert_eq!(s.blend_mode, BlendMode::Mix);
    assert_eq!(val(s.key_threshold), 0.5);
    assert_eq!(val(s.key_softness), 0.1);
    assert!(!s.key_invert);
    assert_eq!(val(s.layer_opacity), 1.0);
}

#[test]
fn feedback_stage_defaults() {
    let s = FeedbackStage::default();
    assert!(s.enabled);
    assert_eq!(val(s.zoom), 1.02);
    assert_eq!(val(s.rotation), 0.0);
    assert_eq!(val(s.hue_shift), 0.0);
    assert_eq!(val(s.decay), 0.95);
    assert_eq!(val(s.offset_x), 0.0);
    assert_eq!(val(s.offset_y), 0.0);
    assert_eq!(val(s.saturation), 1.0);
}

#[test]
fn output_stage_defaults() {
    let s = OutputStage::default();
    assert_eq!(s.mode, OutputMode::CRT);
    assert_eq!(val(s.scanlines), 0.15);
    assert_eq!(val(s.curvature), 0.1);
    assert_eq!(val(s.bloom), 0.2);
    assert_eq!(val(s.vignette), 0.3);
    assert_eq!(val(s.noise), 0.02);
    assert_eq!(val(s.tracking), 0.0);
    assert_eq!(val(s.chroma_shift), 0.0);
    assert_eq!(val(s.tape_wobble), 0.0);
    assert_eq!(val(s.bandwidth), 1.0);
    assert_eq!(val(s.ghosting), 0.0);
}

#[test]
fn full_state_default_aggregates_stage_defaults() {
    let s = SynthState::default();
    assert_eq!(s.input, InputStage::default());
    assert_eq!(s.geometry, GeometryStage::default());
    assert_eq!(s.amplitude, AmplitudeStage::default());
    assert_eq!(s.colorize, ColorizeStage::default());
    assert_eq!(s.mixer, MixerStage::default());
    assert_eq!(s.feedback, FeedbackStage::default());
    assert_eq!(s.output, OutputStage::default());
}

#[test]
fn input_source_encodings_are_stable() {
    assert_eq!(InputSource::RampH.encode(), 0);
    assert_eq!(InputSource::RampV.encode(), 1);
    assert_eq!(InputSource::OscH.encode(), 2);
    assert_eq!(InputSource::OscV.encode(), 3);
    assert_eq!(InputSource::NoiseWhite.encode(), 4);
    assert_eq!(InputSource::NoisePink.encode(), 5);
    assert_eq!(InputSource::NoiseBrown.encode(), 6);
    assert_eq!(InputSource::ShapeCircle.encode(), 7);
    assert_eq!(InputSource::ShapeRect.encode(), 8);
    assert_eq!(InputSource::ShapeDiamond.encode(), 9);
    assert_eq!(InputSource::Checkerboard.encode(), 10);
}

#[test]
fn mode_encodings_are_stable() {
    assert_eq!(ColorMode::Spectrum.encode(), 0);
    assert_eq!(ColorMode::Threshold.encode(), 1);
    assert_eq!(ColorMode::Gradient.encode(), 2);
    assert_eq!(ColorMode::Monochrome.encode(), 3);
    assert_eq!(BlendMode::Mix.encode(), 0);
    assert_eq!(BlendMode::Add.encode(), 1);
    assert_eq!(BlendMode::Multiply.encode(), 2);
    assert_eq!(BlendMode::Screen.encode(), 3);
    assert_eq!(BlendMode::Overlay.encode(), 4);
    assert_eq!(BlendMode::Difference.encode(), 5);
    assert_eq!(BlendMode::LumaKeyA.encode(), 6);
    assert_eq!(BlendMode::LumaKeyB.encode(), 7);
    assert_eq!(OutputMode::Clean.encode(), 0);
    assert_eq!(OutputMode::CRT.encode(), 1);
    assert_eq!(OutputMode::VHS.encode(), 2);
    assert_eq!(OutputMode::Cable.encode(), 3);
}

#[test]
fn enum_defaults() {
    assert_eq!(InputSource::default(), InputSource::RampH);
    assert_eq!(ColorMode::default(), ColorMode::Spectrum);
    assert_eq!(BlendMode::default(), BlendMode::Mix);
    assert_eq!(OutputMode::default(), OutputMode::CRT);
}
