//! Preset system: named snapshots of the full synthesizer state.
//!
//! A preset is a (name, description, model snapshot) triple. Serialization to
//! and from durable storage is the host's work; the catalogue of built-in
//! presets and their exact states live here.

use vstd::prelude::*;

use crate::synth::AmplitudeStage;
use crate::synth::BlendMode;
use crate::synth::ColorMode;
use crate::synth::ColorizeStage;
use crate::synth::FeedbackStage;
use crate::synth::GeometryStage;
use crate::synth::InputSource;
use crate::synth::InputStage;
use crate::synth::MixerStage;
use crate::synth::OutputMode;
use crate::synth::OutputStage;
use crate::synth::Rgb;
use crate::synth::SynthState;
use crate::synth::RAW_ONE;
use crate::synth::RAW_ZERO;

verus! {

/// A named snapshot of the full parameter model.
#[derive(Clone, Debug)]
pub struct Preset {
    pub name: String,
    pub description: String,
    pub state: SynthState,
}

impl Preset {
    pub fn new(name: &str, description: &str, state: SynthState) -> (r: Self)
        ensures
            r.name@ == name@,
            r.description@ == description@,
            r.state == state,
    {
        Preset { name: name.to_owned(), description: description.to_owned(), state }
    }
}

/// Classic feedback spiral: the state of the "Feedback Spiral" preset.
pub open spec fn spec_feedback_spiral_state() -> SynthState {
    SynthState {
        input: InputStage {
            source_a: InputSource::RampH,
            source_b: InputSource::RampV,
            mix: 0x3F00_0000,  // 0.5
            frequency: RAW_ONE,
            ..InputStage::spec_default()
        },
        colorize: ColorizeStage {
            mode: ColorMode::Spectrum,
            saturation: 0x3F99_999A,  // 1.2
            ..ColorizeStage::spec_default()
        },
        mixer: MixerStage {
            feedback_mix: 0x3F4C_CCCD,  // 0.8
            blend_mode: BlendMode::Screen,
            ..MixerStage::spec_default()
        },
        feedback: FeedbackStage {
            enabled: true,
            zoom: 0x3F83_D70A,  // 1.03
            rotation: 0x3CA3_D70A,  // 0.02
            hue_shift: 0x3C23_D70A,  // 0.01
            decay: 0x3F75_C28F,  // 0.96
            ..FeedbackStage::spec_default()
        },
        output: OutputStage {
            mode: OutputMode::CRT,
            scanlines: 0x3DCC_CCCD,  // 0.1
            bloom: 0x3E99_999A,  // 0.3
            ..OutputStage::spec_default()
        },
        ..SynthState::spec_default()
    }
}

/// Wobbulator pattern: the state of the "Wobbulator" preset.
pub open spec fn spec_wobbulator_state() -> SynthState {
    SynthState {
        input: InputStage {
            source_a: InputSource::OscH,
            source_b: InputSource::OscV,
            mix: RAW_ZERO,
            frequency: 0x4100_0000,  // 8.0
            ..InputStage::spec_default()
        },
        geometry: GeometryStage {
            wobbulate_h: 0x3E99_999A,  // 0.3
            wobbulate_v: 0x3E4C_CCCD,  // 0.2
            wobble_freq: 0x40C0_0000,  // 6.0
            ..GeometryStage::spec_default()
        },
        amplitude: AmplitudeStage {
            fold_gain: 0x4040_0000,  // 3.0
            fold_mix: 0x3ECC_CCCD,  // 0.4
            ..AmplitudeStage::spec_default()
        },
        colorize: ColorizeStage {
            mode: ColorMode::Spectrum,
            hue_offset: 0x3E99_999A,  // 0.3
            ..ColorizeStage::spec_default()
        },
        mixer: MixerStage {
            feedback_mix: 0x3E4C_CCCD,  // 0.2
            ..MixerStage::spec_default()
        },
        feedback: FeedbackStage {
            enabled: true,
            zoom: 0x3F81_47AE,  // 1.01
            decay: 0x3F66_6666,  // 0.9
            ..FeedbackStage::spec_default()
        },
        output: OutputStage {
            mode: OutputMode::CRT,
            ..OutputStage::spec_default()
        },
        ..SynthState::spec_default()
    }
}

/// Rutt/Etra style displacement: the state of the "Rutt/Etra Terrain" preset.
pub open spec fn spec_rutt_etra_terrain_state() -> SynthState {
    SynthState {
        input: InputStage {
            source_a: InputSource::NoisePink,
            source_b: InputSource::RampH,
            mix: 0x3E99_999A,  // 0.3
            frequency: 0x4000_0000,  // 2.0
            ..InputStage::spec_default()
        },
        geometry: GeometryStage {
            z_displacement: 0x3E80_0000,  // 0.25
            ..GeometryStage::spec_default()
        },
        amplitude: AmplitudeStage {
            quantize_levels: 0x4180_0000,  // 16.0
            quantize_mix: 0x3E99_999A,  // 0.3
            ..AmplitudeStage::spec_default()
        },
        colorize: ColorizeStage {
            mode: ColorMode::Threshold,
            levels: 0x4140_0000,  // 12.0
            ..ColorizeStage::spec_default()
        },
        mixer: MixerStage {
            feedback_mix: 0x3DCC_CCCD,  // 0.1
            ..MixerStage::spec_default()
        },
        feedback: FeedbackStage {
            enabled: true,
            zoom: RAW_ONE,
            decay: 0x3F59_999A,  // 0.85
            ..FeedbackStage::spec_default()
        },
        output: OutputStage {
            mode: OutputMode::CRT,
            scanlines: 0x3E4C_CCCD,  // 0.2
            ..OutputStage::spec_default()
        },
        ..SynthState::spec_default()
    }
}

/// VHS degradation look: the state of the "VHS Memory" preset.
pub open spec fn spec_vhs_memory_state() -> SynthState {
    SynthState {
        input: InputStage {
            source_a: InputSource::RampV,
            source_b: InputSource::NoiseWhite,
            mix: 0x3DCC_CCCD,  // 0.1
            ..InputStage::spec_default()
        },
        geometry: GeometryStage {
            wobbulate_h: 0x3CA3_D70A,  // 0.02
            wobble_freq: 0x3F00_0000,  // 0.5
            ..GeometryStage::spec_default()
        },
        amplitude: AmplitudeStage {
            soft_clip: 0x3E99_999A,  // 0.3
            ..AmplitudeStage::spec_default()
        },
        colorize: ColorizeStage {
            mode: ColorMode::Spectrum,
            saturation: 0x3F33_3333,  // 0.7
            ..ColorizeStage::spec_default()
        },
        mixer: MixerStage {
            feedback_mix: 0x3F19_999A,  // 0.6
            blend_mode: BlendMode::Mix,
            ..MixerStage::spec_default()
        },
        feedback: FeedbackStage {
            enabled: true,
            zoom: 0x3F80_A3D7,  // 1.005
            hue_shift: 0x3B03_126F,  // 0.002
            decay: 0x3F6B_851F,  // 0.92
            saturation: 0x3F73_3333,  // 0.95
            ..FeedbackStage::spec_default()
        },
        output: OutputStage {
            mode: OutputMode::VHS,
            scanlines: 0x3D4C_CCCD,  // 0.05
            noise: 0x3DA3_D70A,  // 0.08
            tracking: 0x3E99_999A,  // 0.3
            chroma_shift: 0x3C03_126F,  // 0.008
            tape_wobble: 0x3ECC_CCCD,  // 0.4
            ..OutputStage::spec_default()
        },
        ..SynthState::spec_default()
    }
}

/// Colorizer bands: the state of the "Colorizer Bands" preset.
pub open spec fn spec_colorizer_bands_state() -> SynthState {
    SynthState {
        input: InputStage {
            source_a: InputSource::RampH,
            source_b: InputSource::ShapeCircle,
            mix: 0x3ECC_CCCD,  // 0.4
            ..InputStage::spec_default()
        },
        amplitude: AmplitudeStage {
            quantize_levels: 0x40C0_0000,  // 6.0
            quantize_mix: RAW_ONE,
            ..AmplitudeStage::spec_default()
        },
        colorize: ColorizeStage {
            mode: ColorMode::Threshold,
            levels: 0x40C0_0000,  // 6.0
            saturation: 0x3FC0_0000,  // 1.5
            ..ColorizeStage::spec_default()
        },
        mixer: MixerStage {
            feedback_mix: RAW_ZERO,
            ..MixerStage::spec_default()
        },
        feedback: FeedbackStage {
            enabled: false,
            ..FeedbackStage::spec_default()
        },
        output: OutputStage {
            mode: OutputMode::CRT,
            scanlines: 0x3E19_999A,  // 0.15
            bloom: 0x3ECC_CCCD,  // 0.4
            ..OutputStage::spec_default()
        },
        ..SynthState::spec_default()
    }
}

/// Noise meditation: the state of the "Noise Meditation" preset.
pub open spec fn spec_noise_meditation_state() -> SynthState {
    SynthState {
        input: InputStage {
            source_a: InputSource::NoiseBrown,
            source_b: InputSource::NoisePink,
            mix: 0x3F00_0000,  // 0.5
            frequency: RAW_ONE,
            ..InputStage::spec_default()
        },
        geometry: GeometryStage {
            scale: 0x3FC0_0000,  // 1.5
            ..GeometryStage::spec_default()
        },
        amplitude: AmplitudeStage {
            soft_clip: 0x3F00_0000,  // 0.5
            ..AmplitudeStage::spec_default()
        },
        colorize: ColorizeStage {
            mode: ColorMode::Gradient,
            gradient_start: Rgb { r: 0x3DCC_CCCD, g: 0x0000_0000, b: 0x3E4C_CCCD }, // 0.1, 0.0, 0.2
            gradient_end: Rgb { r: 0x3F4C_CCCD, g: 0x3ECC_CCCD, b: 0x3DCC_CCCD }, // 0.8, 0.4, 0.1
            ..ColorizeStage::spec_default()
        },
        mixer: MixerStage {
            feedback_mix: 0x3F33_3333,  // 0.7
            blend_mode: BlendMode::Screen,
            ..MixerStage::spec_default()
        },
        feedback: FeedbackStage {
            enabled: true,
            zoom: 0x3F81_47AE,  // 1.01
            rotation: 0x3BA3_D70A,  // 0.005
            hue_shift: 0x3BA3_D70A,  // 0.005
            decay: 0x3F7A_E148,  // 0.98
            ..FeedbackStage::spec_default()
        },
        output: OutputStage {
            mode: OutputMode::CRT,
            scanlines: 0x3DA3_D70A,  // 0.08
            bloom: 0x3F00_0000,  // 0.5
            vignette: 0x3F00_0000,  // 0.5
            ..OutputStage::spec_default()
        },
        ..SynthState::spec_default()
    }
}

fn feedback_spiral_state() -> (r: SynthState)
    ensures
        r == spec_feedback_spiral_state(),
{
    SynthState {
        input: InputStage {
            source_a: InputSource::RampH,
            source_b: InputSource::RampV,
            mix: 0x3F00_0000,  // 0.5
            frequency: RAW_ONE,
            ..InputStage::default()
        },
        colorize: ColorizeStage {
            mode: ColorMode::Spectrum,
            saturation: 0x3F99_999A,  // 1.2
            ..ColorizeStage::default()
        },
        mixer: MixerStage {
            feedback_mix: 0x3F4C_CCCD,  // 0.8
            blend_mode: BlendMode::Screen,
            ..MixerStage::default()
        },
        feedback: FeedbackStage {
            enabled: true,
            zoom: 0x3F83_D70A,  // 1.03
            rotation: 0x3CA3_D70A,  // 0.02
            hue_shift: 0x3C23_D70A,  // 0.01
            decay: 0x3F75_C28F,  // 0.96
            ..FeedbackStage::default()
        },
        output: OutputStage {
            mode: OutputMode::CRT,
            scanlines: 0x3DCC_CCCD,  // 0.1
            bloom: 0x3E99_999A,  // 0.3
            ..OutputStage::default()
        },
        ..SynthState::default()
    }
}

fn wobbulator_state() -> (r: SynthState)
    ensures
        r == spec_wobbulator_state(),
{
    SynthState {
        input: InputStage {
            source_a: InputSource::OscH,
            source_b: InputSource::OscV,
            mix: RAW_ZERO,
            frequency: 0x4100_0000,  // 8.0
            ..InputStage::default()
        },
        geometry: GeometryStage {
            wobbulate_h: 0x3E99_999A,  // 0.3
            wobbulate_v: 0x3E4C_CCCD,  // 0.2
            wobble_freq: 0x40C0_0000,  // 6.0
            ..GeometryStage::default()
        },
        amplitude: AmplitudeStage {
            fold_gain: 0x4040_0000,  // 3.0
            fold_mix: 0x3ECC_CCCD,  // 0.4
            ..AmplitudeStage::default()
        },
        colorize: ColorizeStage {
            mode: ColorMode::Spectrum,
            hue_offset: 0x3E99_999A,  // 0.3
            ..ColorizeStage::default()
        },
        mixer: MixerStage {
            feedback_mix: 0x3E4C_CCCD,  // 0.2
            ..MixerStage::default()
        },
        feedback: FeedbackStage {
            enabled: true,
            zoom: 0x3F81_47AE,  // 1.01
            decay: 0x3F66_6666,  // 0.9
            ..FeedbackStage::default()
        },
        output: OutputStage {
            mode: OutputMode::CRT,
            ..OutputStage::default()
        },
        ..SynthState::default()
    }
}

fn rutt_etra_terrain_state() -> (r: SynthState)
    ensures
        r == spec_rutt_etra_terrain_state(),
{
    SynthState {
        input: InputStage {
            source_a: InputSource::NoisePink,
            source_b: InputSource::RampH,
            mix: 0x3E99_999A,  // 0.3
            frequency: 0x4000_0000,  // 2.0
            ..InputStage::default()
        },
        geometry: GeometryStage {
            z_displacement: 0x3E80_0000,  // 0.25
            ..GeometryStage::default()
        },
        amplitude: AmplitudeStage {
            quantize_levels: 0x4180_0000,  // 16.0
            quantize_mix: 0x3E99_999A,  // 0.3
            ..AmplitudeStage::default()
        },
        colorize: ColorizeStage {
            mode: ColorMode::Threshold,
            levels: 0x4140_0000,  // 12.0
            ..ColorizeStage::default()
        },
        mixer: MixerStage {
            feedback_mix: 0x3DCC_CCCD,  // 0.1
            ..MixerStage::default()
        },
        feedback: FeedbackStage {
            enabled: true,
            zoom: RAW_ONE,
            decay: 0x3F59_999A,  // 0.85
            ..FeedbackStage::default()
        },
        output: OutputStage {
            mode: OutputMode::CRT,
            scanlines: 0x3E4C_CCCD,  // 0.2
            ..OutputStage::default()
        },
        ..SynthState::default()
    }
}

fn vhs_memory_state() -> (r: SynthState)
    ensures
        r == spec_vhs_memory_state(),
{
    SynthState {
        input: InputStage {
            source_a: InputSource::RampV,
            source_b: InputSource::NoiseWhite,
            mix: 0x3DCC_CCCD,  // 0.1
            ..InputStage::default()
        },
        geometry: GeometryStage {
            wobbulate_h: 0x3CA3_D70A,  // 0.02
            wobble_freq: 0x3F00_0000,  // 0.5
            ..GeometryStage::default()
        },
        amplitude: AmplitudeStage {
            soft_clip: 0x3E99_999A,  // 0.3
            ..AmplitudeStage::default()
        },
        colorize: ColorizeStage {
            mode: ColorMode::Spectrum,
            saturation: 0x3F33_3333,  // 0.7
            ..ColorizeStage::default()
        },
        mixer: MixerStage {
            feedback_mix: 0x3F19_999A,  // 0.6
            blend_mode: BlendMode::Mix,
            ..MixerStage::default()
        },
        feedback: FeedbackStage {
            enabled: true,
            zoom: 0x3F80_A3D7,  // 1.005
            hue_shift: 0x3B03_126F,  // 0.002
            decay: 0x3F6B_851F,  // 0.92
            saturation: 0x3F73_3333,  // 0.95
            ..FeedbackStage::default()
        },
        output: OutputStage {
            mode: OutputMode::VHS,
            scanlines: 0x3D4C_CCCD,  // 0.05
            noise: 0x3DA3_D70A,  // 0.08
            tracking: 0x3E99_999A,  // 0.3
            chroma_shift: 0x3C03_126F,  // 0.008
            tape_wobble: 0x3ECC_CCCD,  // 0.4
            ..OutputStage::default()
        },
        ..SynthState::default()
    }
}

fn colorizer_bands_state() -> (r: SynthState)
    ensures
        r == spec_colorizer_bands_state(),
{
    SynthState {
        input: InputStage {
            source_a: InputSource::RampH,
            source_b: InputSource::ShapeCircle,
            mix: 0x3ECC_CCCD,  // 0.4
            ..InputStage::default()
        },
        amplitude: AmplitudeStage {
            quantize_levels: 0x40C0_0000,  // 6.0
            quantize_mix: RAW_ONE,
            ..AmplitudeStage::default()
        },
        colorize: ColorizeStage {
            mode: ColorMode::Threshold,
            levels: 0x40C0_0000,  // 6.0
            saturation: 0x3FC0_0000,  // 1.5
            ..ColorizeStage::default()
        },
        mixer: MixerStage {
            feedback_mix: RAW_ZERO,
            ..MixerStage::default()
        },
        feedback: FeedbackStage {
            enabled: false,
            ..FeedbackStage::default()
        },
        output: OutputStage {
            mode: OutputMode::CRT,
            scanlines: 0x3E19_999A,  // 0.15
            bloom: 0x3ECC_CCCD,  // 0.4
            ..OutputStage::default()
        },
        ..SynthState::default()
    }
}

fn noise_meditation_state() -> (r: SynthState)
    ensures
        r == spec_noise_meditation_state(),
{
    SynthState {
        input: InputStage {
            source_a: InputSource::NoiseBrown,
            source_b: InputSource::NoisePink,
            mix: 0x3F00_0000,  // 0.5
            frequency: RAW_ONE,
            ..InputStage::default()
        },
        geometry: GeometryStage {
            scale: 0x3FC0_0000,  // 1.5
            ..GeometryStage::default()
        },
        amplitude: AmplitudeStage {
            soft_clip: 0x3F00_0000,  // 0.5
            ..AmplitudeStage::default()
        },
        colorize: ColorizeStage {
            mode: ColorMode::Gradient,
            gradient_start: Rgb { r: 0x3DCC_CCCD, g: 0x0000_0000, b: 0x3E4C_CCCD }, // 0.1, 0.0, 0.2
            gradient_end: Rgb { r: 0x3F4C_CCCD, g: 0x3ECC_CCCD, b: 0x3DCC_CCCD }, // 0.8, 0.4, 0.1
            ..ColorizeStage::default()
        },
        mixer: MixerStage {
            feedback_mix: 0x3F33_3333,  // 0.7
            blend_mode: BlendMode::Screen,
            ..MixerStage::default()
        },
        feedback: FeedbackStage {
            enabled: true,
            zoom: 0x3F81_47AE,  // 1.01
            rotation: 0x3BA3_D70A,  // 0.005
            hue_shift: 0x3BA3_D70A,  // 0.005
            decay: 0x3F7A_E148,  // 0.98
            ..FeedbackStage::default()
        },
        output: OutputStage {
            mode: OutputMode::CRT,
            scanlines: 0x3DA3_D70A,  // 0.08
            bloom: 0x3F00_0000,  // 0.5
            vignette: 0x3F00_0000,  // 0.5
            ..OutputStage::default()
        },
        ..SynthState::default()
    }
}
/// The built-in catalogue: exactly the six presets below, in order, each
/// with its exact state.
pub open spec fn spec_builtin_catalogue(ps: Seq<Preset>) -> bool {
    &&& ps.len() == 6
    &&& ps[0].name@ == "Feedback Spiral"@
    &&& ps[0].description@ == "Classic video feedback with zoom and rotation"@
    &&& ps[0].state == spec_feedback_spiral_state()
    &&& ps[1].name@ == "Wobbulator"@
    &&& ps[1].description@ == "Paik/Abe style wobbulator distortion"@
    &&& ps[1].state == spec_wobbulator_state()
    &&& ps[2].name@ == "Rutt/Etra Terrain"@
    &&& ps[2].description@ == "Z-axis displacement creating 3D terrain"@
    &&& ps[2].state == spec_rutt_etra_terrain_state()
    &&& ps[3].name@ == "VHS Memory"@
    &&& ps[3].description@ == "Degraded VHS tape aesthetic"@
    &&& ps[3].state == spec_vhs_memory_state()
    &&& ps[4].name@ == "Colorizer Bands"@
    &&& ps[4].description@ == "Jones-style banded colorization"@
    &&& ps[4].state == spec_colorizer_bands_state()
    &&& ps[5].name@ == "Noise Meditation"@
    &&& ps[5].description@ == "Slow-moving noise patterns"@
    &&& ps[5].state == spec_noise_meditation_state()
}

/// Built-in presets
pub fn builtin_presets() -> (r: Vec<Preset>)
    ensures
        spec_builtin_catalogue(r@),
        r@.len() == 6,
        r@[0].name@ == "Feedback Spiral"@,
        r@[0].description@ == "Classic video feedback with zoom and rotation"@,
        r@[0].state == spec_feedback_spiral_state(),
        r@[1].name@ == "Wobbulator"@,
        r@[1].description@ == "Paik/Abe style wobbulator distortion"@,
        r@[1].state == spec_wobbulator_state(),
        r@[2].name@ == "Rutt/Etra Terrain"@,
        r@[2].description@ == "Z-axis displacement creating 3D terrain"@,
        r@[2].state == spec_rutt_etra_terrain_state(),
        r@[3].name@ == "VHS Memory"@,
        r@[3].description@ == "Degraded VHS tape aesthetic"@,
        r@[3].state == spec_vhs_memory_state(),
        r@[4].name@ == "Colorizer Bands"@,
        r@[4].description@ == "Jones-style banded colorization"@,
        r@[4].state == spec_colorizer_bands_state(),
        r@[5].name@ == "Noise Meditation"@,
        r@[5].description@ == "Slow-moving noise patterns"@,
        r@[5].state == spec_noise_meditation_state(),
{
    let mut out: Vec<Preset> = Vec::new();
    out.push(Preset::new(
        "Feedback Spiral",
        "Classic video feedback with zoom and rotation",
        feedback_spiral_state(),
    ));
    out.push(Preset::new(
        "Wobbulator",
        "Paik/Abe style wobbulator distortion",
        wobbulator_state(),
    ));
    out.push(Preset::new(
        "Rutt/Etra Terrain",
        "Z-axis displacement creating 3D terrain",
        rutt_etra_terrain_state(),
    ));
    out.push(Preset::new(
        "VHS Memory",
        "Degraded VHS tape aesthetic",
        vhs_memory_state(),
    ));
    out.push(Preset::new(
        "Colorizer Bands",
        "Jones-style banded colorization",
        colorizer_bands_state(),
    ));
    out.push(Preset::new(
        "Noise Meditation",
        "Slow-moving noise patterns",
        noise_meditation_state(),
    ));
    out
}

} // verus!
