//! Synthesizer stage parameters.
//!
//! Defines the seven-stage fixed signal chain:
//! INPUT -> GEOMETRY -> AMPLITUDE -> COLORIZE -> MIXER -> FEEDBACK -> OUTPUT
//!
//! Numeric parameters are carried as raw 32-bit words: each word is the
//! IEEE-754 single-precision bit pattern of the parameter's value. The engine
//! never interprets a word numerically; it only stores, routes and packs
//! words, so two parameter values are the same exactly when their words are
//! equal. The host converts between words and its own numeric types at the
//! boundary. Named word constants below record which value a default word
//! encodes.

use vstd::prelude::*;

verus! {

/// Bit pattern of the value zero.
pub const RAW_ZERO: u32 = 0x0000_0000;

/// Bit pattern of the value one.
pub const RAW_ONE: u32 = 0x3F80_0000;

/// Input source types
#[derive(Clone, Copy, Debug, PartialEq, Eq, Structural)]
pub enum InputSource {
    RampH,
    RampV,
    OscH,
    OscV,
    NoiseWhite,
    NoisePink,
    NoiseBrown,
    ShapeCircle,
    ShapeRect,
    ShapeDiamond,
    Checkerboard,
}

impl InputSource {
    /// The stable small-integer encoding consumed by the packer.
    pub open spec fn encoding(self) -> u32 {
        match self {
            InputSource::RampH => 0,
            InputSource::RampV => 1,
            InputSource::OscH => 2,
            InputSource::OscV => 3,
            InputSource::NoiseWhite => 4,
            InputSource::NoisePink => 5,
            InputSource::NoiseBrown => 6,
            InputSource::ShapeCircle => 7,
            InputSource::ShapeRect => 8,
            InputSource::ShapeDiamond => 9,
            InputSource::Checkerboard => 10,
        }
    }

    pub fn encode(self) -> (c: u32)
        ensures
            c == self.encoding(),
    {
        match self {
            InputSource::RampH => 0,
            InputSource::RampV => 1,
            InputSource::OscH => 2,
            InputSource::OscV => 3,
            InputSource::NoiseWhite => 4,
            InputSource::NoisePink => 5,
            InputSource::NoiseBrown => 6,
            InputSource::ShapeCircle => 7,
            InputSource::ShapeRect => 8,
            InputSource::ShapeDiamond => 9,
            InputSource::Checkerboard => 10,
        }
    }
}

impl Default for InputSource {
    fn default() -> (r: Self)
        ensures
            r == InputSource::RampH,
    {
        InputSource::RampH
    }
}

/// Colorize mode
#[derive(Clone, Copy, Debug, PartialEq, Eq, Structural)]
pub enum ColorMode {
    Spectrum,
    Threshold,
    Gradient,
    Monochrome,
}

impl ColorMode {
    /// The stable small-integer encoding consumed by the packer.
    pub open spec fn encoding(self) -> u32 {
        match self {
            ColorMode::Spectrum => 0,
            ColorMode::Threshold => 1,
            ColorMode::Gradient => 2,
            ColorMode::Monochrome => 3,
        }
    }

    pub fn encode(self) -> (c: u32)
        ensures
            c == self.encoding(),
    {
        match self {
            ColorMode::Spectrum => 0,
            ColorMode::Threshold => 1,
            ColorMode::Gradient => 2,
            ColorMode::Monochrome => 3,
        }
    }
}

impl Default for ColorMode {
    fn default() -> (r: Self)
        ensures
            r == ColorMode::Spectrum,
    {
        ColorMode::Spectrum
    }
}

/// Blend mode for mixer
#[derive(Clone, Copy, Debug, PartialEq, Eq, Structural)]
pub enum BlendMode {
    Mix,
    Add,
    Multiply,
    Screen,
    Overlay,
    Difference,
    LumaKeyA,
    LumaKeyB,
}

impl BlendMode {
    /// The stable small-integer encoding consumed by the packer.
    pub open spec fn encoding(self) -> u32 {
        match self {
            BlendMode::Mix => 0,
            BlendMode::Add => 1,
            BlendMode::Multiply => 2,
            BlendMode::Screen => 3,
            BlendMode::Overlay => 4,
            BlendMode::Difference => 5,
            BlendMode::LumaKeyA => 6,
            BlendMode::LumaKeyB => 7,
        }
    }

    pub fn encode(self) -> (c: u32)
        ensures
            c == self.encoding(),
    {
        match self {
            BlendMode::Mix => 0,
            BlendMode::Add => 1,
            BlendMode::Multiply => 2,
            BlendMode::Screen => 3,
            BlendMode::Overlay => 4,
            BlendMode::Difference => 5,
            BlendMode::LumaKeyA => 6,
            BlendMode::LumaKeyB => 7,
        }
    }
}

impl Default for BlendMode {
    fn default() -> (r: Self)
        ensures
            r == BlendMode::Mix,
    {
        BlendMode::Mix
    }
}

/// Output emulation mode
#[derive(Clone, Copy, Debug, PartialEq, Eq, Structural)]
pub enum OutputMode {
    Clean,
    CRT,
    VHS,
    Cable,
}

impl OutputMode {
    /// The stable small-integer encoding consumed by the packer.
    pub open spec fn encoding(self) -> u32 {
        match self {
            OutputMode::Clean => 0,
            OutputMode::CRT => 1,
            OutputMode::VHS => 2,
            OutputMode::Cable => 3,
        }
    }

    pub fn encode(self) -> (c: u32)
        ensures
            c == self.encoding(),
    {
        match self {
            OutputMode::Clean => 0,
            OutputMode::CRT => 1,
            OutputMode::VHS => 2,
            OutputMode::Cable => 3,
        }
    }
}

impl Default for OutputMode {
    fn default() -> (r: Self)
        ensures
            r == OutputMode::CRT,
    {
        OutputMode::CRT
    }
}

/// A color as three raw words (red, green, blue).
#[derive(Clone, Copy, Debug, PartialEq, Eq, Structural)]
pub struct Rgb {
    pub r: u32,
    pub g: u32,
    pub b: u32,
}

impl Rgb {
    /// All three channels zero (black).
    pub open spec fn spec_black() -> Rgb {
        Rgb { r: RAW_ZERO, g: RAW_ZERO, b: RAW_ZERO }
    }

    /// All three channels one (white).
    pub open spec fn spec_white() -> Rgb {
        Rgb { r: RAW_ONE, g: RAW_ONE, b: RAW_ONE }
    }
}

/// Stage 1: Input Matrix
/// Mix and combine signal sources
#[derive(Clone, Copy, Debug, PartialEq, Eq, Structural)]
pub struct InputStage {
    pub source_a: InputSource,
    pub source_b: InputSource,
    /// blend between A and B, range 0-1
    pub mix: u32,
    /// cycles, range 0.5-20
    pub frequency: u32,
    /// phase offset, range 0-1
    pub phase: u32,
    /// range 0-1 (maps to a full turn)
    pub rotation: u32,
}

impl InputStage {
    pub open spec fn spec_default() -> InputStage {
        InputStage {
            source_a: InputSource::RampH,
            source_b: InputSource::OscV,
            mix: RAW_ZERO,
            frequency: 0x4080_0000,  // 4.0
            phase: RAW_ZERO,
            rotation: RAW_ZERO,
        }
    }
}

impl Default for InputStage {
    fn default() -> (r: Self)
        ensures
            r == InputStage::spec_default(),
    {
        InputStage {
            source_a: InputSource::RampH,
            source_b: InputSource::OscV,
            mix: RAW_ZERO,
            frequency: 0x4080_0000,  // 4.0
            phase: RAW_ZERO,
            rotation: RAW_ZERO,
        }
    }
}

/// Stage 2: Geometry
/// Spatial distortions - Wobbulate, Z-displacement, Lissajous
#[derive(Clone, Copy, Debug, PartialEq, Eq, Structural)]
pub struct GeometryStage {
    /// horizontal wobble amount, range 0-1
    pub wobbulate_h: u32,
    /// vertical wobble amount, range 0-1
    pub wobbulate_v: u32,
    /// wobble frequency, range 1-20
    pub wobble_freq: u32,
    /// Rutt/Etra style displacement, range 0-0.5
    pub z_displacement: u32,
    /// lissajous X modulation, range 0-1
    pub lissajous_x: u32,
    /// lissajous Y modulation, range 0-1
    pub lissajous_y: u32,
    /// range 0-1 (maps to a full turn)
    pub rotation: u32,
    /// range 0.5-2.0
    pub scale: u32,
}

impl GeometryStage {
    pub open spec fn spec_default() -> GeometryStage {
        GeometryStage {
            wobbulate_h: RAW_ZERO,
            wobbulate_v: RAW_ZERO,
            wobble_freq: 0x4080_0000,  // 4.0
            z_displacement: RAW_ZERO,
            lissajous_x: RAW_ZERO,
            lissajous_y: RAW_ZERO,
            rotation: RAW_ZERO,
            scale: RAW_ONE,
        }
    }
}

impl Default for GeometryStage {
    fn default() -> (r: Self)
        ensures
            r == GeometryStage::spec_default(),
    {
        GeometryStage {
            wobbulate_h: RAW_ZERO,
            wobbulate_v: RAW_ZERO,
            wobble_freq: 0x4080_0000,  // 4.0
            z_displacement: RAW_ZERO,
            lissajous_x: RAW_ZERO,
            lissajous_y: RAW_ZERO,
            rotation: RAW_ZERO,
            scale: RAW_ONE,
        }
    }
}

/// Stage 3: Amplitude
/// Waveform shaping - fold, quantize, clip, solarize
#[derive(Clone, Copy, Debug, PartialEq, Eq, Structural)]
pub struct AmplitudeStage {
    /// folding intensity, range 1-8
    pub fold_gain: u32,
    /// dry/wet, range 0-1
    pub fold_mix: u32,
    /// quantization levels, range 2-32
    pub quantize_levels: u32,
    /// dry/wet, range 0-1
    pub quantize_mix: u32,
    /// soft clipping amount, range 0-1
    pub soft_clip: u32,
    /// solarize threshold, range 0-1
    pub solarize: u32,
    /// hard gate, range 0-1
    pub gate_threshold: u32,
    /// zero or one
    pub invert: u32,
}

impl AmplitudeStage {
    pub open spec fn spec_default() -> AmplitudeStage {
        AmplitudeStage {
            fold_gain: RAW_ONE,
            fold_mix: RAW_ZERO,
            quantize_levels: 0x4100_0000,  // 8.0
            quantize_mix: RAW_ZERO,
            soft_clip: RAW_ZERO,
            solarize: RAW_ONE,  // one = off (threshold above max)
            gate_threshold: RAW_ZERO,
            invert: RAW_ZERO,
        }
    }
}

impl Default for AmplitudeStage {
    fn default() -> (r: Self)
        ensures
            r == AmplitudeStage::spec_default(),
    {
        AmplitudeStage {
            fold_gain: RAW_ONE,
            fold_mix: RAW_ZERO,
            quantize_levels: 0x4100_0000,  // 8.0
            quantize_mix: RAW_ZERO,
            soft_clip: RAW_ZERO,
            solarize: RAW_ONE,  // one = off (threshold above max)
            gate_threshold: RAW_ZERO,
            invert: RAW_ZERO,
        }
    }
}

/// Stage 4: Colorize
/// Luminance to color mapping
#[derive(Clone, Copy, Debug, PartialEq, Eq, Structural)]
pub struct ColorizeStage {
    pub mode: ColorMode,
    /// hue rotation, range 0-1
    pub hue_offset: u32,
    /// saturation multiplier, range 0-2
    pub saturation: u32,
    /// for threshold mode, range 2-32
    pub levels: u32,
    /// RGB start color
    pub gradient_start: Rgb,
    /// RGB end color
    pub gradient_end: Rgb,
}

impl ColorizeStage {
    pub open spec fn spec_default() -> ColorizeStage {
        ColorizeStage {
            mode: ColorMode::Spectrum,
            hue_offset: RAW_ZERO,
            saturation: RAW_ONE,
            levels: 0x4100_0000,  // 8.0
            gradient_start: Rgb::spec_black(),
            gradient_end: Rgb::spec_white(),
        }
    }
}

impl Default for ColorizeStage {
    fn default() -> (r: Self)
        ensures
            r == ColorizeStage::spec_default(),
    {
        ColorizeStage {
            mode: ColorMode::Spectrum,
            hue_offset: RAW_ZERO,
            saturation: RAW_ONE,
            levels: 0x4100_0000,  // 8.0
            gradient_start: Rgb { r: RAW_ZERO, g: RAW_ZERO, b: RAW_ZERO },
            gradient_end: Rgb { r: RAW_ONE, g: RAW_ONE, b: RAW_ONE },
        }
    }
}

/// Stage 5: Mixer
/// Blend with feedback, keying
#[derive(Clone, Copy, Debug, PartialEq, Eq, Structural)]
pub struct MixerStage {
    /// feedback amount, range 0-1
    pub feedback_mix: u32,
    pub blend_mode: BlendMode,
    /// for keying modes, range 0-1
    pub key_threshold: u32,
    /// key edge softness, range 0-0.5
    pub key_softness: u32,
    pub key_invert: bool,
    /// overall layer opacity, range 0-1
    pub layer_opacity: u32,
}

impl MixerStage {
    pub open spec fn spec_default() -> MixerStage {
        MixerStage {
            feedback_mix: 0x3E99_999A,  // 0.3
            blend_mode: BlendMode::Mix,
            key_threshold: 0x3F00_0000,  // 0.5
            key_softness: 0x3DCC_CCCD,  // 0.1
            key_invert: false,
            layer_opacity: RAW_ONE,
        }
    }
}

impl Default for MixerStage {
    fn default() -> (r: Self)
        ensures
            r == MixerStage::spec_default(),
    {
        MixerStage {
            feedback_mix: 0x3E99_999A,  // 0.3
            blend_mode: BlendMode::Mix,
            key_threshold: 0x3F00_0000,  // 0.5
            key_softness: 0x3DCC_CCCD,  // 0.1
            key_invert: false,
            layer_opacity: RAW_ONE,
        }
    }
}

/// Stage 6: Feedback
/// Temporal effects - zoom, rotate, decay
#[derive(Clone, Copy, Debug, PartialEq, Eq, Structural)]
pub struct FeedbackStage {
    pub enabled: bool,
    /// feedback zoom, range 0.9-1.1
    pub zoom: u32,
    /// range 0-1 (maps to a small signed turn)
    pub rotation: u32,
    /// hue rotation per frame, range 0-1
    pub hue_shift: u32,
    /// brightness decay, range 0.8-1.0
    pub decay: u32,
    /// horizontal drift, range -0.1 to 0.1
    pub offset_x: u32,
    /// vertical drift, range -0.1 to 0.1
    pub offset_y: u32,
    /// saturation adjustment, range 0-2
    pub saturation: u32,
}

impl FeedbackStage {
    pub open spec fn spec_default() -> FeedbackStage {
        FeedbackStage {
            enabled: true,
            zoom: 0x3F82_8F5C,  // 1.02
            rotation: RAW_ZERO,
            hue_shift: RAW_ZERO,
            decay: 0x3F73_3333,  // 0.95
            offset_x: RAW_ZERO,
            offset_y: RAW_ZERO,
            saturation: RAW_ONE,
        }
    }
}

impl Default for FeedbackStage {
    fn default() -> (r: Self)
        ensures
            r == FeedbackStage::spec_default(),
    {
        FeedbackStage {
            enabled: true,
            zoom: 0x3F82_8F5C,  // 1.02
            rotation: RAW_ZERO,
            hue_shift: RAW_ZERO,
            decay: 0x3F73_3333,  // 0.95
            offset_x: RAW_ZERO,
            offset_y: RAW_ZERO,
            saturation: RAW_ONE,
        }
    }
}

/// Stage 7: Output
/// Display emulation - CRT, VHS, cable degradation
#[derive(Clone, Copy, Debug, PartialEq, Eq, Structural)]
pub struct OutputStage {
    pub mode: OutputMode,
    /// scanline intensity, range 0-1
    pub scanlines: u32,
    /// barrel distortion, range 0-0.5
    pub curvature: u32,
    /// phosphor bloom, range 0-1
    pub bloom: u32,
    /// edge darkening, range 0-1
    pub vignette: u32,
    /// signal noise, range 0-0.5
    pub noise: u32,
    // VHS specific
    /// tracking error amount, range 0-1
    pub tracking: u32,
    /// chroma/luma separation, range 0-0.02
    pub chroma_shift: u32,
    /// horizontal instability, range 0-1
    pub tape_wobble: u32,
    // Cable specific
    /// bandwidth limiting, range 0.5-1.0
    pub bandwidth: u32,
    /// RF ghosting, range 0-0.3
    pub ghosting: u32,
}

impl OutputStage {
    pub open spec fn spec_default() -> OutputStage {
        OutputStage {
            mode: OutputMode::CRT,
            scanlines: 0x3E19_999A,  // 0.15
            curvature: 0x3DCC_CCCD,  // 0.1
            bloom: 0x3E4C_CCCD,  // 0.2
            vignette: 0x3E99_999A,  // 0.3
            noise: 0x3CA3_D70A,  // 0.02
            tracking: RAW_ZERO,
            chroma_shift: RAW_ZERO,
            tape_wobble: RAW_ZERO,
            bandwidth: RAW_ONE,
            ghosting: RAW_ZERO,
        }
    }
}

impl Default for OutputStage {
    fn default() -> (r: Self)
        ensures
            r == OutputStage::spec_default(),
    {
        OutputStage {
            mode: OutputMode::CRT,
            scanlines: 0x3E19_999A,  // 0.15
            curvature: 0x3DCC_CCCD,  // 0.1
            bloom: 0x3E4C_CCCD,  // 0.2
            vignette: 0x3E99_999A,  // 0.3
            noise: 0x3CA3_D70A,  // 0.02
            tracking: RAW_ZERO,
            chroma_shift: RAW_ZERO,
            tape_wobble: RAW_ZERO,
            bandwidth: RAW_ONE,
            ghosting: RAW_ZERO,
        }
    }
}

/// Complete synthesizer state
#[derive(Clone, Copy, Debug, PartialEq, Eq, Structural)]
pub struct SynthState {
    pub input: InputStage,
    pub geometry: GeometryStage,
    pub amplitude: AmplitudeStage,
    pub colorize: ColorizeStage,
    pub mixer: MixerStage,
    pub feedback: FeedbackStage,
    pub output: OutputStage,
}

impl SynthState {
    pub open spec fn spec_default() -> SynthState {
        SynthState {
            input: InputStage::spec_default(),
            geometry: GeometryStage::spec_default(),
            amplitude: AmplitudeStage::spec_default(),
            colorize: ColorizeStage::spec_default(),
            mixer: MixerStage::spec_default(),
            feedback: FeedbackStage::spec_default(),
            output: OutputStage::spec_default(),
        }
    }
}

impl Default for SynthState {
    fn default() -> (r: Self)
        ensures
            r == SynthState::spec_default(),
    {
        SynthState {
            input: InputStage::default(),
            geometry: GeometryStage::default(),
            amplitude: AmplitudeStage::default(),
            colorize: ColorizeStage::default(),
            mixer: MixerStage::default(),
            feedback: FeedbackStage::default(),
            output: OutputStage::default(),
        }
    }
}

/// GPU-facing packed uniform record.
///
/// One word per shader scalar, in the shader's declaration order, grouped on
/// 16-byte boundaries with explicit padding words. The byte layout produced
/// by [`SynthUniforms::to_bytes`] is a private wire contract shared with the
/// paired shader program: any reordering or addition must be mirrored there.
#[derive(Clone, Copy, Debug, PartialEq, Eq, Structural)]
pub struct SynthUniforms {
    // Input stage (16 bytes)
    pub input_source_a: u32,
    pub input_source_b: u32,
    pub input_mix: u32,
    pub input_frequency: u32,

    // Input continued (16 bytes)
    pub input_phase: u32,
    pub input_rotation: u32,
    pub _pad0: u32,
    pub _pad1: u32,

    // Geometry stage (32 bytes)
    pub geo_wobbulate_h: u32,
    pub geo_wobbulate_v: u32,
    pub geo_wobble_freq: u32,
    pub geo_z_displacement: u32,

    pub geo_lissajous_x: u32,
    pub geo_lissajous_y: u32,
    pub geo_rotation: u32,
    pub geo_scale: u32,

    // Amplitude stage (32 bytes)
    pub amp_fold_gain: u32,
    pub amp_fold_mix: u32,
    pub amp_quantize_levels: u32,
    pub amp_quantize_mix: u32,

    pub amp_soft_clip: u32,
    pub amp_solarize: u32,
    pub amp_gate_threshold: u32,
    pub amp_invert: u32,

    // Colorize stage (32 bytes)
    pub color_mode: u32,
    pub color_hue_offset: u32,
    pub color_saturation: u32,
    pub color_levels: u32,

    pub color_gradient_start: Rgb,
    pub _pad2: u32,

    // Colorize gradient end (16 bytes)
    pub color_gradient_end: Rgb,
    pub _pad3: u32,

    // Mixer stage (16 bytes)
    pub mixer_feedback_mix: u32,
    pub mixer_blend_mode: u32,
    pub mixer_key_threshold: u32,
    pub mixer_key_softness: u32,

    // Mixer continued (16 bytes)
    pub mixer_key_invert: u32,
    pub mixer_layer_opacity: u32,
    pub _pad4: u32,
    pub _pad5: u32,

    // Feedback stage (32 bytes)
    pub fb_enabled: u32,
    pub fb_zoom: u32,
    pub fb_rotation: u32,
    pub fb_hue_shift: u32,

    pub fb_decay: u32,
    pub fb_offset_x: u32,
    pub fb_offset_y: u32,
    pub fb_saturation: u32,

    // Output stage (32 bytes)
    pub out_mode: u32,
    pub out_scanlines: u32,
    pub out_curvature: u32,
    pub out_bloom: u32,

    pub out_vignette: u32,
    pub out_noise: u32,
    pub out_tracking: u32,
    pub out_chroma_shift: u32,

    // Output continued (16 bytes)
    pub out_tape_wobble: u32,
    pub out_bandwidth: u32,
    pub out_ghosting: u32,
    pub _pad6: u32,

    // Timing (16 bytes)
    pub time: u32,
    pub frame: u32,
    pub _pad7: u32,
    pub _pad8: u32,
}

/// The uniform record a model snapshot packs to at a given time and frame:
/// every model word is copied through unchanged, enumerated fields go in as
/// their stable encodings, booleans as zero or one, padding as zero.
pub open spec fn spec_pack(state: SynthState, time: u32, frame: u32) -> SynthUniforms {
    SynthUniforms {
        input_source_a: state.input.source_a.encoding(),
        input_source_b: state.input.source_b.encoding(),
        input_mix: state.input.mix,
        input_frequency: state.input.frequency,
        input_phase: state.input.phase,
        input_rotation: state.input.rotation,
        _pad0: RAW_ZERO,
        _pad1: RAW_ZERO,
        geo_wobbulate_h: state.geometry.wobbulate_h,
        geo_wobbulate_v: state.geometry.wobbulate_v,
        geo_wobble_freq: state.geometry.wobble_freq,
        geo_z_displacement: state.geometry.z_displacement,
        geo_lissajous_x: state.geometry.lissajous_x,
        geo_lissajous_y: state.geometry.lissajous_y,
        geo_rotation: state.geometry.rotation,
        geo_scale: state.geometry.scale,
        amp_fold_gain: state.amplitude.fold_gain,
        amp_fold_mix: state.amplitude.fold_mix,
        amp_quantize_levels: state.amplitude.quantize_levels,
        amp_quantize_mix: state.amplitude.quantize_mix,
        amp_soft_clip: state.amplitude.soft_clip,
        amp_solarize: state.amplitude.solarize,
        amp_gate_threshold: state.amplitude.gate_threshold,
        amp_invert: state.amplitude.invert,
        color_mode: state.colorize.mode.encoding(),
        color_hue_offset: state.colorize.hue_offset,
        color_saturation: state.colorize.saturation,
        color_levels: state.colorize.levels,
        color_gradient_start: state.colorize.gradient_start,
        _pad2: RAW_ZERO,
        color_gradient_end: state.colorize.gradient_end,
        _pad3: RAW_ZERO,
        mixer_feedback_mix: state.mixer.feedback_mix,
        mixer_blend_mode: state.mixer.blend_mode.encoding(),
        mixer_key_threshold: state.mixer.key_threshold,
        mixer_key_softness: state.mixer.key_softness,
        mixer_key_invert: if state.mixer.key_invert { RAW_ONE } else { RAW_ZERO },
        mixer_layer_opacity: state.mixer.layer_opacity,
        _pad4: RAW_ZERO,
        _pad5: RAW_ZERO,
        fb_enabled: if state.feedback.enabled { RAW_ONE } else { RAW_ZERO },
        fb_zoom: state.feedback.zoom,
        fb_rotation: state.feedback.rotation,
        fb_hue_shift: state.feedback.hue_shift,
        fb_decay: state.feedback.decay,
        fb_offset_x: state.feedback.offset_x,
        fb_offset_y: state.feedback.offset_y,
        fb_saturation: state.feedback.saturation,
        out_mode: state.output.mode.encoding(),
        out_scanlines: state.output.scanlines,
        out_curvature: state.output.curvature,
        out_bloom: state.output.bloom,
        out_vignette: state.output.vignette,
        out_noise: state.output.noise,
        out_tracking: state.output.tracking,
        out_chroma_shift: state.output.chroma_shift,
        out_tape_wobble: state.output.tape_wobble,
        out_bandwidth: state.output.bandwidth,
        out_ghosting: state.output.ghosting,
        _pad6: RAW_ZERO,
        time: time,
        frame: frame,
        _pad7: RAW_ZERO,
        _pad8: RAW_ZERO,
    }
}

/// The four little-endian bytes of one 32-bit word.
pub open spec fn le_bytes(w: u32) -> Seq<u8> {
    seq![
        (w % 256) as u8,
        ((w / 256) % 256) as u8,
        ((w / 65536) % 256) as u8,
        ((w / 16777216) % 256) as u8,
    ]
}

/// The byte image of a uniform record: every word in declaration order, each
/// as four little-endian bytes, 272 bytes in all.
pub open spec fn uniform_bytes(u: SynthUniforms) -> Seq<u8> {
    le_bytes(u.input_source_a) + le_bytes(u.input_source_b) + le_bytes(u.input_mix)
        + le_bytes(u.input_frequency) + le_bytes(u.input_phase) + le_bytes(u.input_rotation)
        + le_bytes(u._pad0) + le_bytes(u._pad1) + le_bytes(u.geo_wobbulate_h)
        + le_bytes(u.geo_wobbulate_v) + le_bytes(u.geo_wobble_freq)
        + le_bytes(u.geo_z_displacement) + le_bytes(u.geo_lissajous_x)
        + le_bytes(u.geo_lissajous_y) + le_bytes(u.geo_rotation) + le_bytes(u.geo_scale)
        + le_bytes(u.amp_fold_gain) + le_bytes(u.amp_fold_mix) + le_bytes(u.amp_quantize_levels)
        + le_bytes(u.amp_quantize_mix) + le_bytes(u.amp_soft_clip) + le_bytes(u.amp_solarize)
        + le_bytes(u.amp_gate_threshold) + le_bytes(u.amp_invert) + le_bytes(u.color_mode)
        + le_bytes(u.color_hue_offset) + le_bytes(u.color_saturation) + le_bytes(u.color_levels)
        + le_bytes(u.color_gradient_start.r) + le_bytes(u.color_gradient_start.g)
        + le_bytes(u.color_gradient_start.b) + le_bytes(u._pad2)
        + le_bytes(u.color_gradient_end.r) + le_bytes(u.color_gradient_end.g)
        + le_bytes(u.color_gradient_end.b) + le_bytes(u._pad3)
        + le_bytes(u.mixer_feedback_mix) + le_bytes(u.mixer_blend_mode)
        + le_bytes(u.mixer_key_threshold) + le_bytes(u.mixer_key_softness)
        + le_bytes(u.mixer_key_invert) + le_bytes(u.mixer_layer_opacity) + le_bytes(u._pad4)
        + le_bytes(u._pad5) + le_bytes(u.fb_enabled) + le_bytes(u.fb_zoom)
        + le_bytes(u.fb_rotation) + le_bytes(u.fb_hue_shift) + le_bytes(u.fb_decay)
        + le_bytes(u.fb_offset_x) + le_bytes(u.fb_offset_y) + le_bytes(u.fb_saturation)
        + le_bytes(u.out_mode) + le_bytes(u.out_scanlines) + le_bytes(u.out_curvature)
        + le_bytes(u.out_bloom) + le_bytes(u.out_vignette) + le_bytes(u.out_noise)
        + le_bytes(u.out_tracking) + le_bytes(u.out_chroma_shift) + le_bytes(u.out_tape_wobble)
        + le_bytes(u.out_bandwidth) + le_bytes(u.out_ghosting) + le_bytes(u._pad6)
        + le_bytes(u.time) + le_bytes(u.frame) + le_bytes(u._pad7) + le_bytes(u._pad8)
}

/// Appends the four little-endian bytes of `w` to `out`.
fn push_word(out: &mut Vec<u8>, w: u32)
    ensures
        final(out)@ == old(out)@ + le_bytes(w),
{
    out.push((w % 256) as u8);
    out.push(((w / 256) % 256) as u8);
    out.push(((w / 65536) % 256) as u8);
    out.push(((w / 16777216) % 256) as u8);
    assert(out@ =~= old(out)@ + le_bytes(w));
}

impl SynthUniforms {
    /// Packs a model snapshot, a time word and a frame counter into the
    /// uniform record: total, deterministic, never fails.
    pub fn from_state(state: &SynthState, time: u32, frame: u32) -> (u: Self)
        ensures
            u == spec_pack(*state, time, frame),
    {
        SynthUniforms {
            // Input
            input_source_a: state.input.source_a.encode(),
            input_source_b: state.input.source_b.encode(),
            input_mix: state.input.mix,
            input_frequency: state.input.frequency,
            input_phase: state.input.phase,
            input_rotation: state.input.rotation,
            _pad0: RAW_ZERO,
            _pad1: RAW_ZERO,

            // Geometry
            geo_wobbulate_h: state.geometry.wobbulate_h,
            geo_wobbulate_v: state.geometry.wobbulate_v,
            geo_wobble_freq: state.geometry.wobble_freq,
            geo_z_displacement: state.geometry.z_displacement,
            geo_lissajous_x: state.geometry.lissajous_x,
            geo_lissajous_y: state.geometry.lissajous_y,
            geo_rotation: state.geometry.rotation,
            geo_scale: state.geometry.scale,

            // Amplitude
            amp_fold_gain: state.amplitude.fold_gain,
            amp_fold_mix: state.amplitude.fold_mix,
            amp_quantize_levels: state.amplitude.quantize_levels,
            amp_quantize_mix: state.amplitude.quantize_mix,
            amp_soft_clip: state.amplitude.soft_clip,
            amp_solarize: state.amplitude.solarize,
            amp_gate_threshold: state.amplitude.gate_threshold,
            amp_invert: state.amplitude.invert,

            // Colorize
            color_mode: state.colorize.mode.encode(),
            color_hue_offset: state.colorize.hue_offset,
            color_saturation: state.colorize.saturation,
            color_levels: state.colorize.levels,
            color_gradient_start: state.colorize.gradient_start,
            _pad2: RAW_ZERO,
            color_gradient_end: state.colorize.gradient_end,
            _pad3: RAW_ZERO,

            // Mixer
            mixer_feedback_mix: state.mixer.feedback_mix,
            mixer_blend_mode: state.mixer.blend_mode.encode(),
            mixer_key_threshold: state.mixer.key_threshold,
            mixer_key_softness: state.mixer.key_softness,
            mixer_key_invert: if state.mixer.key_invert { RAW_ONE } else { RAW_ZERO },
            mixer_layer_opacity: state.mixer.layer_opacity,
            _pad4: RAW_ZERO,
            _pad5: RAW_ZERO,

            // Feedback
            fb_enabled: if state.feedback.enabled { RAW_ONE } else { RAW_ZERO },
            fb_zoom: state.feedback.zoom,
            fb_rotation: state.feedback.rotation,
            fb_hue_shift: state.feedback.hue_shift,
            fb_decay: state.feedback.decay,
            fb_offset_x: state.feedback.offset_x,
            fb_offset_y: state.feedback.offset_y,
            fb_saturation: state.feedback.saturation,

            // Output
            out_mode: state.output.mode.encode(),
            out_scanlines: state.output.scanlines,
            out_curvature: state.output.curvature,
            out_bloom: state.output.bloom,
            out_vignette: state.output.vignette,
            out_noise: state.output.noise,
            out_tracking: state.output.tracking,
            out_chroma_shift: state.output.chroma_shift,
            out_tape_wobble: state.output.tape_wobble,
            out_bandwidth: state.output.bandwidth,
            out_ghosting: state.output.ghosting,
            _pad6: RAW_ZERO,

            // Timing
            time,
            frame,
            _pad7: RAW_ZERO,
            _pad8: RAW_ZERO,
        }
    }

    /// The byte image of the record, as the shader's uniform buffer expects
    /// it: each word in declaration order as four little-endian bytes.
    pub fn to_bytes(&self) -> (r: Vec<u8>)
        ensures
            r@ == uniform_bytes(*self),
    {
        let mut out: Vec<u8> = Vec::new();
        push_word(&mut out, self.input_source_a);
        push_word(&mut out, self.input_source_b);
        push_word(&mut out, self.input_mix);
        push_word(&mut out, self.input_frequency);
        push_word(&mut out, self.input_phase);
        push_word(&mut out, self.input_rotation);
        push_word(&mut out, self._pad0);
        push_word(&mut out, self._pad1);
        push_word(&mut out, self.geo_wobbulate_h);
        push_word(&mut out, self.geo_wobbulate_v);
        push_word(&mut out, self.geo_wobble_freq);
        push_word(&mut out, self.geo_z_displacement);
        push_word(&mut out, self.geo_lissajous_x);
        push_word(&mut out, self.geo_lissajous_y);
        push_word(&mut out, self.geo_rotation);
        push_word(&mut out, self.geo_scale);
        push_word(&mut out, self.amp_fold_gain);
        push_word(&mut out, self.amp_fold_mix);
        push_word(&mut out, self.amp_quantize_levels);
        push_word(&mut out, self.amp_quantize_mix);
        push_word(&mut out, self.amp_soft_clip);
        push_word(&mut out, self.amp_solarize);
        push_word(&mut out, self.amp_gate_threshold);
        push_word(&mut out, self.amp_invert);
        push_word(&mut out, self.color_mode);
        push_word(&mut out, self.color_hue_offset);
        push_word(&mut out, self.color_saturation);
        push_word(&mut out, self.color_levels);
        push_word(&mut out, self.color_gradient_start.r);
        push_word(&mut out, self.color_gradient_start.g);
        push_word(&mut out, self.color_gradient_start.b);
        push_word(&mut out, self._pad2);
        push_word(&mut out, self.color_gradient_end.r);
        push_word(&mut out, self.color_gradient_end.g);
        push_word(&mut out, self.color_gradient_end.b);
        push_word(&mut out, self._pad3);
        push_word(&mut out, self.mixer_feedback_mix);
        push_word(&mut out, self.mixer_blend_mode);
        push_word(&mut out, self.mixer_key_threshold);
        push_word(&mut out, self.mixer_key_softness);
        push_word(&mut out, self.mixer_key_invert);
        push_word(&mut out, self.mixer_layer_opacity);
        push_word(&mut out, self._pad4);
        push_word(&mut out, self._pad5);
        push_word(&mut out, self.fb_enabled);
        push_word(&mut out, self.fb_zoom);
        push_word(&mut out, self.fb_rotation);
        push_word(&mut out, self.fb_hue_shift);
        push_word(&mut out, self.fb_decay);
        push_word(&mut out, self.fb_offset_x);
        push_word(&mut out, self.fb_offset_y);
        push_word(&mut out, self.fb_saturation);
        push_word(&mut out, self.out_mode);
        push_word(&mut out, self.out_scanlines);
        push_word(&mut out, self.out_curvature);
        push_word(&mut out, self.out_bloom);
        push_word(&mut out, self.out_vignette);
        push_word(&mut out, self.out_noise);
        push_word(&mut out, self.out_tracking);
        push_word(&mut out, self.out_chroma_shift);
        push_word(&mut out, self.out_tape_wobble);
        push_word(&mut out, self.out_bandwidth);
        push_word(&mut out, self.out_ghosting);
        push_word(&mut out, self._pad6);
        push_word(&mut out, self.time);
        push_word(&mut out, self.frame);
        push_word(&mut out, self._pad7);
        push_word(&mut out, self._pad8);
        out
    }
}

/// Law: packing the same model snapshot with the same time word and frame
/// counter twice yields byte-identical uniform records.
pub proof fn lemma_pack_deterministic(
    state: SynthState,
    time: u32,
    frame: u32,
    u1: SynthUniforms,
    u2: SynthUniforms,
)
    requires
        u1 == spec_pack(state, time, frame),
        u2 == spec_pack(state, time, frame),
    ensures
        uniform_bytes(u1) == uniform_bytes(u2),
{
}

} // verus!
