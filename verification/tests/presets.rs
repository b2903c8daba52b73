//! The preset catalogue and the application-level preset bookkeeping.

use phosphlux_lite::app::App;
use phosphlux_lite::app::SelectedStage;
use phosphlux_lite::presets::builtin_presets;
use phosphlux_lite::presets::Preset;
use phosphlux_lite::synth::BlendMode;
use phosphlux_lite::synth::ColorMode;
use phosphlux_lite::synth::InputSource;
use phosphlux_lite::synth::OutputMode;
use phosphlux_lite::synth::SynthState;

fn val(word: u32) -> f32 {
    f32::from_bits(word)
}

#[test]
fn catalogue_holds_the_six_presets_in_order() {
    let ps = builtin_presets();
    let names: Vec<&str> = ps.iter().map(|p| p.name.as_str()).collect();
    assert_eq!(
        names,
        vec![
            "Feedback Spiral",
            "Wobbulator",
            "Rutt/Etra Terrain",
            "VHS Memory",
            "Colorizer Bands",
            "Noise Meditation",
        ]
    );
    assert_eq!(ps[0].description, "Classic video feedback with zoom and rotation");
    assert_eq!(ps[5].description, "Slow-moving noise patterns");
}

#[test]
fn feedback_spiral_state_values() {
    let p = &builtin_presets()[0];
    assert_eq!(p.state.input.source_a, InputSource::RampH);
    assert_eq!(p.state.input.source_b, InputSource::RampV);
    assert_eq!(val(p.state.input.mix), 0.5);
    assert_eq!(val(p.state.input.frequency), 1.0);
    assert_eq!(val(p.state.colorize.saturation), 1.2);
    assert_eq!(val(p.state.mixer.feedback_mix), 0.8);
    assert_eq!(p.state.mixer.blend_mode, BlendMode::Screen);
    assert!(p.state.feedback.enabled);
    assert_eq!(val(p.state.feedback.zoom), 1.03);
    assert_eq!(val(p.state.feedback.rotation), 0.02);
    assert_eq!(val(p.state.feedback.hue_shift), 0.01);
    assert_eq!(val(p.state.feedback.decay), 0.96);
    assert_eq!(p.state.output.mode, OutputMode::CRT);
    assert_eq!(val(p.state.output.scanlines), 0.1);
    assert_eq!(val(p.state.output.bloom), 0.3);
    // untouched fields keep their defaults
    assert_eq!(val(p.state.input.phase), 0.0);
    assert_eq!(val(p.state.geometry.scale), 1.0);
}

#[test]
fn vhs_memory_state_values() {
    let p = &builtin_presets()[3];
    assert_eq!(p.state.input.source_a, InputSource::RampV);
    assert_eq!(p.state.input.source_b, InputSource::NoiseWhite);
    assert_eq!(val(p.state.input.mix), 0.1);
    assert_eq!(val(p.state.geometry.wobbulate_h), 0.02);
    assert_eq!(val(p.state.geometry.wobble_freq), 0.5);
    assert_eq!(val(p.state.amplitude.soft_clip), 0.3);
    assert_eq!(val(p.state.colorize.saturation), 0.7);
    assert_eq!(val(p.state.mixer.feedback_mix), 0.6);
    assert_eq!(p.state.output.mode, OutputMode::VHS);
    assert_eq!(val(p.state.output.noise), 0.08);
    assert_eq!(val(p.state.output.tracking), 0.3);
    assert_eq!(val(p.state.output.chroma_shift), 0.008);
    assert_eq!(val(p.state.output.tape_wobble), 0.4);
}

#[test]
fn noise_meditation_gradient_colors() {
    let p = &builtin_presets()[5];
    assert_eq!(p.state.colorize.mode, ColorMode::Gradient);
    assert_eq!(val(p.state.colorize.gradient_start.r), 0.1);
    assert_eq!(val(p.state.colorize.gradient_start.g), 0.0);
    assert_eq!(val(p.state.colorize.gradient_start.b), 0.2);
    assert_eq!(val(p.state.colorize.gradient_end.r), 0.8);
    assert_eq!(val(p.state.colorize.gradient_end.g), 0.4);
    assert_eq!(val(p.state.colorize.gradient_end.b), 0.1);
    assert!(!builtin_presets()[4].state.feedback.enabled);
}

#[test]
fn preset_new_carries_its_fields() {
    let state = SynthState::default();
    let p = Preset::new("My Patch", "a description", state);
    assert_eq!(p.name, "My Patch");
    assert_eq!(p.description, "a description");
    assert_eq!(p.state, state);
}

#[test]
fn app_starts_unmodified_on_defaults() {
    let app = App::new();
    assert_eq!(app.synth, SynthState::default());
    assert_eq!(app.selected_stage, SelectedStage::Input);
    assert_eq!(app.presets.len(), 6);
    assert_eq!(app.current_preset, None);
    assert_eq!(app.frame, 0);
    assert_eq!(val(app.time), 0.0);
    assert!(!app.show_preset_browser);
    assert!(!app.show_settings);
    assert_eq!(app.automation.lfos.len(), 0);
}

#[test]
fn load_preset_replaces_the_model_wholesale() {
    let mut app = App::new();
    app.load_preset(1);
    assert_eq!(app.current_preset, Some(1));
    assert_eq!(app.synth, builtin_presets()[1].state);
    assert_eq!(app.synth.input.source_a, InputSource::OscH);
    assert_eq!(val(app.synth.input.frequency), 8.0);
}

#[test]
fn load_preset_out_of_range_changes_nothing() {
    let mut app = App::new();
    app.load_preset(2);
    let before = app.synth;
    app.load_preset(6);
    assert_eq!(app.synth, before);
    assert_eq!(app.current_preset, Some(2));
}

#[test]
fn advance_frame_counts_and_wraps() {
    let mut app = App::new();
    app.advance_frame();
    app.advance_frame();
    assert_eq!(app.frame, 2);
    app.frame = u32::MAX;
    app.advance_frame();
    assert_eq!(app.frame, 0);
}

#[test]
fn mark_modified_clears_the_preset_match() {
    let mut app = App::new();
    app.load_preset(0);
    assert_eq!(app.current_preset, Some(0));
    app.mark_modified();
    assert_eq!(app.current_preset, None);
    // the model itself is untouched
    assert_eq!(app.synth, builtin_presets()[0].state);
}
