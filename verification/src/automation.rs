//! Automation engine: time-based modulators (LFOs) and their routing into
//! the parameter model.
//!
//! A modulator is keyed by a two-part "stage.field" identifier. The engine
//! resolves a key through the closed table [`ParamId`]; a key that is not in
//! the table — malformed, stale or renamed — is silently skipped, never an
//! error, so the render loop survives renamed or removed parameters.
//!
//! Modulator evaluation (the sine oscillator) is numeric work the host
//! performs; the engine receives one evaluated output word per modulator and
//! owns everything else: the key routing, the per-key toggle state machine
//! and the change tracking.

use vstd::prelude::*;

use crate::synth::AmplitudeStage;
use crate::synth::ColorizeStage;
use crate::synth::FeedbackStage;
use crate::synth::GeometryStage;
use crate::synth::InputStage;
use crate::synth::MixerStage;
use crate::synth::OutputStage;
use crate::synth::SynthState;
use crate::synth::RAW_ONE;
use crate::synth::RAW_ZERO;
use vstd::string::StrSliceExecFns;

verus! {

/// Word of the slow toggle tier's speed (0.1).
pub const RAW_SPEED_SLOW: u32 = 0x3DCC_CCCD;

/// Word of the medium toggle tier's speed (0.25).
pub const RAW_SPEED_MEDIUM: u32 = 0x3E80_0000;

/// Word of the fast toggle tier's speed (0.5).
pub const RAW_SPEED_FAST: u32 = 0x3F00_0000;

/// Word of the default global tempo (120 beats per minute).
pub const RAW_BPM_120: u32 = 0x42F0_0000;

/// Upper word bound of the slow tier (0.15). For non-negative
/// single-precision bit patterns, word order coincides with numeric order, so
/// a speed word below this bound counts as slow.
pub const TIER_SLOW_LIMIT: u32 = 0x3E19_999A;

/// Upper word bound of the medium tier (0.4); at or above it a speed counts
/// as fast.
pub const TIER_MEDIUM_LIMIT: u32 = 0x3ECC_CCCD;

/// LFO state for a single parameter
#[derive(Clone, Copy, Debug, PartialEq, Eq, Structural)]
pub struct LfoState {
    /// Speed multiplier word (0.1 = slow, 0.25 = medium, 0.5 = fast)
    pub speed: u32,
    /// Lower bound word of the oscillation
    pub lo: u32,
    /// Upper bound word of the oscillation
    pub hi: u32,
    /// Phase offset word (zero to one)
    pub offset: u32,
    /// Tempo subdivision word (a quarter to four)
    pub subdivide: u32,
}

impl LfoState {
    pub open spec fn spec_default() -> LfoState {
        LfoState {
            speed: RAW_SPEED_MEDIUM,
            lo: RAW_ZERO,
            hi: RAW_ONE,
            offset: RAW_ZERO,
            subdivide: RAW_ONE,
        }
    }

    /// A slow modulator over `[min, max]`.
    pub open spec fn spec_slow(min: u32, max: u32) -> LfoState {
        LfoState { speed: RAW_SPEED_SLOW, lo: min, hi: max, offset: RAW_ZERO, subdivide: RAW_ONE }
    }

    /// A medium modulator over `[min, max]`.
    pub open spec fn spec_medium(min: u32, max: u32) -> LfoState {
        LfoState { speed: RAW_SPEED_MEDIUM, lo: min, hi: max, offset: RAW_ZERO, subdivide: RAW_ONE }
    }

    /// A fast modulator over `[min, max]`.
    pub open spec fn spec_fast(min: u32, max: u32) -> LfoState {
        LfoState { speed: RAW_SPEED_FAST, lo: min, hi: max, offset: RAW_ZERO, subdivide: RAW_ONE }
    }

    /// Create slow LFO (a tenth of the tempo)
    pub fn slow(min: u32, max: u32) -> (r: Self)
        ensures
            r == LfoState::spec_slow(min, max),
    {
        LfoState { speed: RAW_SPEED_SLOW, lo: min, hi: max, offset: RAW_ZERO, subdivide: RAW_ONE }
    }

    /// Create medium LFO (a quarter of the tempo)
    pub fn medium(min: u32, max: u32) -> (r: Self)
        ensures
            r == LfoState::spec_medium(min, max),
    {
        LfoState { speed: RAW_SPEED_MEDIUM, lo: min, hi: max, offset: RAW_ZERO, subdivide: RAW_ONE }
    }

    /// Create fast LFO (half of the tempo)
    pub fn fast(min: u32, max: u32) -> (r: Self)
        ensures
            r == LfoState::spec_fast(min, max),
    {
        LfoState { speed: RAW_SPEED_FAST, lo: min, hi: max, offset: RAW_ZERO, subdivide: RAW_ONE }
    }
}

impl Default for LfoState {
    fn default() -> (r: Self)
        ensures
            r == LfoState::spec_default(),
    {
        LfoState {
            speed: RAW_SPEED_MEDIUM,
            lo: RAW_ZERO,
            hi: RAW_ONE,
            offset: RAW_ZERO,
            subdivide: RAW_ONE,
        }
    }
}

/// The toggle tier a modulator's speed word falls in. The boundaries are
/// [`TIER_SLOW_LIMIT`] and [`TIER_MEDIUM_LIMIT`].
#[derive(Clone, Copy, Debug, PartialEq, Eq, Structural)]
pub enum LfoTier {
    Slow,
    Medium,
    Fast,
}

impl LfoState {
    /// The tier this modulator's speed word falls in.
    pub open spec fn spec_tier(&self) -> LfoTier {
        if self.speed < TIER_SLOW_LIMIT {
            LfoTier::Slow
        } else if self.speed < TIER_MEDIUM_LIMIT {
            LfoTier::Medium
        } else {
            LfoTier::Fast
        }
    }

    /// The tier the UI displays for this modulator.
    pub fn tier(&self) -> (t: LfoTier)
        ensures
            t == self.spec_tier(),
    {
        if self.speed < TIER_SLOW_LIMIT {
            LfoTier::Slow
        } else if self.speed < TIER_MEDIUM_LIMIT {
            LfoTier::Medium
        } else {
            LfoTier::Fast
        }
    }
}

/// Character-wise string equality: true exactly when the two views agree.
pub fn str_eq(a: &str, b: &str) -> (r: bool)
    ensures
        r == (a@ == b@),
{
    let n = a.unicode_len();
    if n != b.unicode_len() {
        return false;
    }
    let mut i: usize = 0;
    while i < n
        invariant
            i <= n,
            n == a@.len(),
            n == b@.len(),
            forall|j: int| 0 <= j < i ==> a@[j] == b@[j],
        decreases n - i,
    {
        if a.get_char(i) != b.get_char(i) {
            return false;
        }
        i = i + 1;
    }
    proof {
        assert(a@ =~= b@);
    }
    true
}

/// The closed mapping from automation keys to model fields. A key resolves to
/// at most one entry here; everything else — a key with no separator, with
/// more than one, or naming a stage/field pair that no longer exists — is
/// unrecognized and must be skipped without effect.
#[derive(Clone, Copy, Debug, PartialEq, Eq, Structural)]
pub enum ParamId {
    InputMix,
    InputFrequency,
    InputPhase,
    InputRotation,
    GeoWobbulateH,
    GeoWobbulateV,
    GeoWobbleFreq,
    GeoZDisplacement,
    GeoLissajousX,
    GeoLissajousY,
    GeoRotation,
    GeoScale,
    AmpFoldGain,
    AmpFoldMix,
    AmpQuantizeLevels,
    AmpQuantizeMix,
    AmpSoftClip,
    AmpSolarize,
    AmpGateThreshold,
    ColorHueOffset,
    ColorSaturation,
    ColorLevels,
    MixerFeedbackMix,
    MixerKeyThreshold,
    MixerKeySoftness,
    MixerLayerOpacity,
    FbZoom,
    FbRotation,
    FbHueShift,
    FbDecay,
    FbOffsetX,
    FbOffsetY,
    FbSaturation,
    OutScanlines,
    OutBloom,
    OutVignette,
    OutTracking,
    OutChromaShift,
    OutTapeWobble,
    OutBandwidth,
    OutGhosting,
}

/// The table entry a key resolves to, if any.
pub open spec fn spec_parse_key(k: Seq<char>) -> Option<ParamId> {
    if k == "input.mix"@ {
        Some(ParamId::InputMix)
    } else if k == "input.frequency"@ {
        Some(ParamId::InputFrequency)
    } else if k == "input.phase"@ {
        Some(ParamId::InputPhase)
    } else if k == "input.rotation"@ {
        Some(ParamId::InputRotation)
    } else if k == "geometry.wobbulate_h"@ {
        Some(ParamId::GeoWobbulateH)
    } else if k == "geometry.wobbulate_v"@ {
        Some(ParamId::GeoWobbulateV)
    } else if k == "geometry.wobble_freq"@ {
        Some(ParamId::GeoWobbleFreq)
    } else if k == "geometry.z_displacement"@ {
        Some(ParamId::GeoZDisplacement)
    } else if k == "geometry.lissajous_x"@ {
        Some(ParamId::GeoLissajousX)
    } else if k == "geometry.lissajous_y"@ {
        Some(ParamId::GeoLissajousY)
    } else if k == "geometry.rotation"@ {
        Some(ParamId::GeoRotation)
    } else if k == "geometry.scale"@ {
        Some(ParamId::GeoScale)
    } else if k == "amplitude.fold_gain"@ {
        Some(ParamId::AmpFoldGain)
    } else if k == "amplitude.fold_mix"@ {
        Some(ParamId::AmpFoldMix)
    } else if k == "amplitude.quantize_levels"@ {
        Some(ParamId::AmpQuantizeLevels)
    } else if k == "amplitude.quantize_mix"@ {
        Some(ParamId::AmpQuantizeMix)
    } else if k == "amplitude.soft_clip"@ {
        Some(ParamId::AmpSoftClip)
    } else if k == "amplitude.solarize"@ {
        Some(ParamId::AmpSolarize)
    } else if k == "amplitude.gate_threshold"@ {
        Some(ParamId::AmpGateThreshold)
    } else if k == "colorize.hue_offset"@ {
        Some(ParamId::ColorHueOffset)
    } else if k == "colorize.saturation"@ {
        Some(ParamId::ColorSaturation)
    } else if k == "colorize.levels"@ {
        Some(ParamId::ColorLevels)
    } else if k == "mixer.feedback_mix"@ {
        Some(ParamId::MixerFeedbackMix)
    } else if k == "mixer.key_threshold"@ {
        Some(ParamId::MixerKeyThreshold)
    } else if k == "mixer.key_softness"@ {
        Some(ParamId::MixerKeySoftness)
    } else if k == "mixer.layer_opacity"@ {
        Some(ParamId::MixerLayerOpacity)
    } else if k == "feedback.zoom"@ {
        Some(ParamId::FbZoom)
    } else if k == "feedback.rotation"@ {
        Some(ParamId::FbRotation)
    } else if k == "feedback.hue_shift"@ {
        Some(ParamId::FbHueShift)
    } else if k == "feedback.decay"@ {
        Some(ParamId::FbDecay)
    } else if k == "feedback.offset_x"@ {
        Some(ParamId::FbOffsetX)
    } else if k == "feedback.offset_y"@ {
        Some(ParamId::FbOffsetY)
    } else if k == "feedback.saturation"@ {
        Some(ParamId::FbSaturation)
    } else if k == "output.scanlines"@ {
        Some(ParamId::OutScanlines)
    } else if k == "output.bloom"@ {
        Some(ParamId::OutBloom)
    } else if k == "output.vignette"@ {
        Some(ParamId::OutVignette)
    } else if k == "output.tracking"@ {
        Some(ParamId::OutTracking)
    } else if k == "output.chroma_shift"@ {
        Some(ParamId::OutChromaShift)
    } else if k == "output.tape_wobble"@ {
        Some(ParamId::OutTapeWobble)
    } else if k == "output.bandwidth"@ {
        Some(ParamId::OutBandwidth)
    } else if k == "output.ghosting"@ {
        Some(ParamId::OutGhosting)
    } else {
        None
    }
}

/// Resolves a "stage.field" key through the closed table.
pub fn parse_key(key: &str) -> (r: Option<ParamId>)
    ensures
        r == spec_parse_key(key@),
{
    if str_eq(key, "input.mix") {
        Some(ParamId::InputMix)
    } else if str_eq(key, "input.frequency") {
        Some(ParamId::InputFrequency)
    } else if str_eq(key, "input.phase") {
        Some(ParamId::InputPhase)
    } else if str_eq(key, "input.rotation") {
        Some(ParamId::InputRotation)
    } else if str_eq(key, "geometry.wobbulate_h") {
        Some(ParamId::GeoWobbulateH)
    } else if str_eq(key, "geometry.wobbulate_v") {
        Some(ParamId::GeoWobbulateV)
    } else if str_eq(key, "geometry.wobble_freq") {
        Some(ParamId::GeoWobbleFreq)
    } else if str_eq(key, "geometry.z_displacement") {
        Some(ParamId::GeoZDisplacement)
    } else if str_eq(key, "geometry.lissajous_x") {
        Some(ParamId::GeoLissajousX)
    } else if str_eq(key, "geometry.lissajous_y") {
        Some(ParamId::GeoLissajousY)
    } else if str_eq(key, "geometry.rotation") {
        Some(ParamId::GeoRotation)
    } else if str_eq(key, "geometry.scale") {
        Some(ParamId::GeoScale)
    } else if str_eq(key, "amplitude.fold_gain") {
        Some(ParamId::AmpFoldGain)
    } else if str_eq(key, "amplitude.fold_mix") {
        Some(ParamId::AmpFoldMix)
    } else if str_eq(key, "amplitude.quantize_levels") {
        Some(ParamId::AmpQuantizeLevels)
    } else if str_eq(key, "amplitude.quantize_mix") {
        Some(ParamId::AmpQuantizeMix)
    } else if str_eq(key, "amplitude.soft_clip") {
        Some(ParamId::AmpSoftClip)
    } else if str_eq(key, "amplitude.solarize") {
        Some(ParamId::AmpSolarize)
    } else if str_eq(key, "amplitude.gate_threshold") {
        Some(ParamId::AmpGateThreshold)
    } else if str_eq(key, "colorize.hue_offset") {
        Some(ParamId::ColorHueOffset)
    } else if str_eq(key, "colorize.saturation") {
        Some(ParamId::ColorSaturation)
    } else if str_eq(key, "colorize.levels") {
        Some(ParamId::ColorLevels)
    } else if str_eq(key, "mixer.feedback_mix") {
        Some(ParamId::MixerFeedbackMix)
    } else if str_eq(key, "mixer.key_threshold") {
        Some(ParamId::MixerKeyThreshold)
    } else if str_eq(key, "mixer.key_softness") {
        Some(ParamId::MixerKeySoftness)
    } else if str_eq(key, "mixer.layer_opacity") {
        Some(ParamId::MixerLayerOpacity)
    } else if str_eq(key, "feedback.zoom") {
        Some(ParamId::FbZoom)
    } else if str_eq(key, "feedback.rotation") {
        Some(ParamId::FbRotation)
    } else if str_eq(key, "feedback.hue_shift") {
        Some(ParamId::FbHueShift)
    } else if str_eq(key, "feedback.decay") {
        Some(ParamId::FbDecay)
    } else if str_eq(key, "feedback.offset_x") {
        Some(ParamId::FbOffsetX)
    } else if str_eq(key, "feedback.offset_y") {
        Some(ParamId::FbOffsetY)
    } else if str_eq(key, "feedback.saturation") {
        Some(ParamId::FbSaturation)
    } else if str_eq(key, "output.scanlines") {
        Some(ParamId::OutScanlines)
    } else if str_eq(key, "output.bloom") {
        Some(ParamId::OutBloom)
    } else if str_eq(key, "output.vignette") {
        Some(ParamId::OutVignette)
    } else if str_eq(key, "output.tracking") {
        Some(ParamId::OutTracking)
    } else if str_eq(key, "output.chroma_shift") {
        Some(ParamId::OutChromaShift)
    } else if str_eq(key, "output.tape_wobble") {
        Some(ParamId::OutTapeWobble)
    } else if str_eq(key, "output.bandwidth") {
        Some(ParamId::OutBandwidth)
    } else if str_eq(key, "output.ghosting") {
        Some(ParamId::OutGhosting)
    } else {
        None
    }
}

/// The model after one routed write: the addressed field holds `val`, every
/// other field is untouched.
pub open spec fn spec_write_param(s: SynthState, p: ParamId, val: u32) -> SynthState {
    match p {
        ParamId::InputMix => SynthState { input: InputStage { mix: val, ..s.input }, ..s },
        ParamId::InputFrequency => SynthState { input: InputStage { frequency: val, ..s.input }, ..s },
        ParamId::InputPhase => SynthState { input: InputStage { phase: val, ..s.input }, ..s },
        ParamId::InputRotation => SynthState { input: InputStage { rotation: val, ..s.input }, ..s },
        ParamId::GeoWobbulateH => SynthState { geometry: GeometryStage { wobbulate_h: val, ..s.geometry }, ..s },
        ParamId::GeoWobbulateV => SynthState { geometry: GeometryStage { wobbulate_v: val, ..s.geometry }, ..s },
        ParamId::GeoWobbleFreq => SynthState { geometry: GeometryStage { wobble_freq: val, ..s.geometry }, ..s },
        ParamId::GeoZDisplacement => SynthState { geometry: GeometryStage { z_displacement: val, ..s.geometry }, ..s },
        ParamId::GeoLissajousX => SynthState { geometry: GeometryStage { lissajous_x: val, ..s.geometry }, ..s },
        ParamId::GeoLissajousY => SynthState { geometry: GeometryStage { lissajous_y: val, ..s.geometry }, ..s },
        ParamId::GeoRotation => SynthState { geometry: GeometryStage { rotation: val, ..s.geometry }, ..s },
        ParamId::GeoScale => SynthState { geometry: GeometryStage { scale: val, ..s.geometry }, ..s },
        ParamId::AmpFoldGain => SynthState { amplitude: AmplitudeStage { fold_gain: val, ..s.amplitude }, ..s },
        ParamId::AmpFoldMix => SynthState { amplitude: AmplitudeStage { fold_mix: val, ..s.amplitude }, ..s },
        ParamId::AmpQuantizeLevels => SynthState { amplitude: AmplitudeStage { quantize_levels: val, ..s.amplitude }, ..s },
        ParamId::AmpQuantizeMix => SynthState { amplitude: AmplitudeStage { quantize_mix: val, ..s.amplitude }, ..s },
        ParamId::AmpSoftClip => SynthState { amplitude: AmplitudeStage { soft_clip: val, ..s.amplitude }, ..s },
        ParamId::AmpSolarize => SynthState { amplitude: AmplitudeStage { solarize: val, ..s.amplitude }, ..s },
        ParamId::AmpGateThreshold => SynthState { amplitude: AmplitudeStage { gate_threshold: val, ..s.amplitude }, ..s },
        ParamId::ColorHueOffset => SynthState { colorize: ColorizeStage { hue_offset: val, ..s.colorize }, ..s },
        ParamId::ColorSaturation => SynthState { colorize: ColorizeStage { saturation: val, ..s.colorize }, ..s },
        ParamId::ColorLevels => SynthState { colorize: ColorizeStage { levels: val, ..s.colorize }, ..s },
        ParamId::MixerFeedbackMix => SynthState { mixer: MixerStage { feedback_mix: val, ..s.mixer }, ..s },
        ParamId::MixerKeyThreshold => SynthState { mixer: MixerStage { key_threshold: val, ..s.mixer }, ..s },
        ParamId::MixerKeySoftness => SynthState { mixer: MixerStage { key_softness: val, ..s.mixer }, ..s },
        ParamId::MixerLayerOpacity => SynthState { mixer: MixerStage { layer_opacity: val, ..s.mixer }, ..s },
        ParamId::FbZoom => SynthState { feedback: FeedbackStage { zoom: val, ..s.feedback }, ..s },
        ParamId::FbRotation => SynthState { feedback: FeedbackStage { rotation: val, ..s.feedback }, ..s },
        ParamId::FbHueShift => SynthState { feedback: FeedbackStage { hue_shift: val, ..s.feedback }, ..s },
        ParamId::FbDecay => SynthState { feedback: FeedbackStage { decay: val, ..s.feedback }, ..s },
        ParamId::FbOffsetX => SynthState { feedback: FeedbackStage { offset_x: val, ..s.feedback }, ..s },
        ParamId::FbOffsetY => SynthState { feedback: FeedbackStage { offset_y: val, ..s.feedback }, ..s },
        ParamId::FbSaturation => SynthState { feedback: FeedbackStage { saturation: val, ..s.feedback }, ..s },
        ParamId::OutScanlines => SynthState { output: OutputStage { scanlines: val, ..s.output }, ..s },
        ParamId::OutBloom => SynthState { output: OutputStage { bloom: val, ..s.output }, ..s },
        ParamId::OutVignette => SynthState { output: OutputStage { vignette: val, ..s.output }, ..s },
        ParamId::OutTracking => SynthState { output: OutputStage { tracking: val, ..s.output }, ..s },
        ParamId::OutChromaShift => SynthState { output: OutputStage { chroma_shift: val, ..s.output }, ..s },
        ParamId::OutTapeWobble => SynthState { output: OutputStage { tape_wobble: val, ..s.output }, ..s },
        ParamId::OutBandwidth => SynthState { output: OutputStage { bandwidth: val, ..s.output }, ..s },
        ParamId::OutGhosting => SynthState { output: OutputStage { ghosting: val, ..s.output }, ..s },
    }
}

/// Writes `val` into the field addressed by `p`; reports whether the model
/// actually changed (the word written differed from the word held).
pub fn write_param(synth: &mut SynthState, p: ParamId, val: u32) -> (changed: bool)
    ensures
        *final(synth) == spec_write_param(*old(synth), p, val),
        changed == (*final(synth) != *old(synth)),
{
    match p {
        ParamId::InputMix => {
            let prev = synth.input.mix;
            synth.input.mix = val;
            prev != val
        },
        ParamId::InputFrequency => {
            let prev = synth.input.frequency;
            synth.input.frequency = val;
            prev != val
        },
        ParamId::InputPhase => {
            let prev = synth.input.phase;
            synth.input.phase = val;
            prev != val
        },
        ParamId::InputRotation => {
            let prev = synth.input.rotation;
            synth.input.rotation = val;
            prev != val
        },
        ParamId::GeoWobbulateH => {
            let prev = synth.geometry.wobbulate_h;
            synth.geometry.wobbulate_h = val;
            prev != val
        },
        ParamId::GeoWobbulateV => {
            let prev = synth.geometry.wobbulate_v;
            synth.geometry.wobbulate_v = val;
            prev != val
        },
        ParamId::GeoWobbleFreq => {
            let prev = synth.geometry.wobble_freq;
            synth.geometry.wobble_freq = val;
            prev != val
        },
        ParamId::GeoZDisplacement => {
            let prev = synth.geometry.z_displacement;
            synth.geometry.z_displacement = val;
            prev != val
        },
        ParamId::GeoLissajousX => {
            let prev = synth.geometry.lissajous_x;
            synth.geometry.lissajous_x = val;
            prev != val
        },
        ParamId::GeoLissajousY => {
            let prev = synth.geometry.lissajous_y;
            synth.geometry.lissajous_y = val;
            prev != val
        },
        ParamId::GeoRotation => {
            let prev = synth.geometry.rotation;
            synth.geometry.rotation = val;
            prev != val
        },
        ParamId::GeoScale => {
            let prev = synth.geometry.scale;
            synth.geometry.scale = val;
            prev != val
        },
        ParamId::AmpFoldGain => {
            let prev = synth.amplitude.fold_gain;
            synth.amplitude.fold_gain = val;
            prev != val
        },
        ParamId::AmpFoldMix => {
            let prev = synth.amplitude.fold_mix;
            synth.amplitude.fold_mix = val;
            prev != val
        },
        ParamId::AmpQuantizeLevels => {
            let prev = synth.amplitude.quantize_levels;
            synth.amplitude.quantize_levels = val;
            prev != val
        },
        ParamId::AmpQuantizeMix => {
            let prev = synth.amplitude.quantize_mix;
            synth.amplitude.quantize_mix = val;
            prev != val
        },
        ParamId::AmpSoftClip => {
            let prev = synth.amplitude.soft_clip;
            synth.amplitude.soft_clip = val;
            prev != val
        },
        ParamId::AmpSolarize => {
            let prev = synth.amplitude.solarize;
            synth.amplitude.solarize = val;
            prev != val
        },
        ParamId::AmpGateThreshold => {
            let prev = synth.amplitude.gate_threshold;
            synth.amplitude.gate_threshold = val;
            prev != val
        },
        ParamId::ColorHueOffset => {
            let prev = synth.colorize.hue_offset;
            synth.colorize.hue_offset = val;
            prev != val
        },
        ParamId::ColorSaturation => {
            let prev = synth.colorize.saturation;
            synth.colorize.saturation = val;
            prev != val
        },
        ParamId::ColorLevels => {
            let prev = synth.colorize.levels;
            synth.colorize.levels = val;
            prev != val
        },
        ParamId::MixerFeedbackMix => {
            let prev = synth.mixer.feedback_mix;
            synth.mixer.feedback_mix = val;
            prev != val
        },
        ParamId::MixerKeyThreshold => {
            let prev = synth.mixer.key_threshold;
            synth.mixer.key_threshold = val;
            prev != val
        },
        ParamId::MixerKeySoftness => {
            let prev = synth.mixer.key_softness;
            synth.mixer.key_softness = val;
            prev != val
        },
        ParamId::MixerLayerOpacity => {
            let prev = synth.mixer.layer_opacity;
            synth.mixer.layer_opacity = val;
            prev != val
        },
        ParamId::FbZoom => {
            let prev = synth.feedback.zoom;
            synth.feedback.zoom = val;
            prev != val
        },
        ParamId::FbRotation => {
            let prev = synth.feedback.rotation;
            synth.feedback.rotation = val;
            prev != val
        },
        ParamId::FbHueShift => {
            let prev = synth.feedback.hue_shift;
            synth.feedback.hue_shift = val;
            prev != val
        },
        ParamId::FbDecay => {
            let prev = synth.feedback.decay;
            synth.feedback.decay = val;
            prev != val
        },
        ParamId::FbOffsetX => {
            let prev = synth.feedback.offset_x;
            synth.feedback.offset_x = val;
            prev != val
        },
        ParamId::FbOffsetY => {
            let prev = synth.feedback.offset_y;
            synth.feedback.offset_y = val;
            prev != val
        },
        ParamId::FbSaturation => {
            let prev = synth.feedback.saturation;
            synth.feedback.saturation = val;
            prev != val
        },
        ParamId::OutScanlines => {
            let prev = synth.output.scanlines;
            synth.output.scanlines = val;
            prev != val
        },
        ParamId::OutBloom => {
            let prev = synth.output.bloom;
            synth.output.bloom = val;
            prev != val
        },
        ParamId::OutVignette => {
            let prev = synth.output.vignette;
            synth.output.vignette = val;
            prev != val
        },
        ParamId::OutTracking => {
            let prev = synth.output.tracking;
            synth.output.tracking = val;
            prev != val
        },
        ParamId::OutChromaShift => {
            let prev = synth.output.chroma_shift;
            synth.output.chroma_shift = val;
            prev != val
        },
        ParamId::OutTapeWobble => {
            let prev = synth.output.tape_wobble;
            synth.output.tape_wobble = val;
            prev != val
        },
        ParamId::OutBandwidth => {
            let prev = synth.output.bandwidth;
            synth.output.bandwidth = val;
            prev != val
        },
        ParamId::OutGhosting => {
            let prev = synth.output.ghosting;
            synth.output.ghosting = val;
            prev != val
        },
    }
}

/// Law: a key that resolves to no table entry — malformed, stale or renamed —
/// never modifies the model.
pub proof fn lemma_unrecognized_key_is_noop(s: SynthState, k: Seq<char>, val: u32)
    requires
        spec_parse_key(k) is None,
    ensures
        spec_set_param(s, k, val) == s,
{
}

/// The model after a keyed write: routed through the table when the key is
/// recognized, bit-identical otherwise.
pub open spec fn spec_set_param(s: SynthState, k: Seq<char>, val: u32) -> SynthState {
    match spec_parse_key(k) {
        Some(p) => spec_write_param(s, p, val),
        None => s,
    }
}

/// Sets the parameter addressed by `key` to `val`. A malformed or
/// unrecognized key leaves the model unmodified and raises no error; the
/// result says whether any field actually changed.
pub fn set_param(synth: &mut SynthState, key: &str, val: u32) -> (changed: bool)
    ensures
        *final(synth) == spec_set_param(*old(synth), key@, val),
        changed == (*final(synth) != *old(synth)),
        spec_parse_key(key@) is None ==> *final(synth) == *old(synth) && !changed,
{
    match parse_key(key) {
        Some(p) => write_param(synth, p, val),
        None => false,
    }
}

/// One keyed modulator.
#[derive(Clone, Debug)]
pub struct LfoEntry {
    /// The "stage.field" key the modulator drives
    pub key: String,
    pub lfo: LfoState,
}

/// No two entries share a key.
pub open spec fn keys_unique(entries: Seq<LfoEntry>) -> bool {
    forall|a: int, b: int|
        0 <= a < b < entries.len() ==> entries[a].key@ != entries[b].key@
}

/// Whether `k` keys an entry of `entries`.
pub open spec fn spec_has_key(entries: Seq<LfoEntry>, k: Seq<char>) -> bool {
    exists|i: int| 0 <= i < entries.len() && entries[i].key@ == k
}

/// The index `k` keys; under [`keys_unique`] there is exactly one.
pub open spec fn spec_index_of(entries: Seq<LfoEntry>, k: Seq<char>) -> int {
    choose|i: int| 0 <= i < entries.len() && entries[i].key@ == k
}

/// The modulator `k` keys, if any.
pub open spec fn spec_get(entries: Seq<LfoEntry>, k: Seq<char>) -> Option<LfoState> {
    if spec_has_key(entries, k) {
        Some(entries[spec_index_of(entries, k)].lfo)
    } else {
        None
    }
}

/// With unique keys, an entry holding `k` sits exactly at the chosen index.
pub proof fn lemma_key_index_unique(entries: Seq<LfoEntry>, k: Seq<char>, i: int)
    requires
        keys_unique(entries),
        0 <= i < entries.len(),
        entries[i].key@ == k,
    ensures
        spec_has_key(entries, k),
        spec_index_of(entries, k) == i,
{
    assert(spec_has_key(entries, k));
    let j = spec_index_of(entries, k);
    assert(0 <= j < entries.len() && entries[j].key@ == k);
    if i < j {
        assert(entries[i].key@ != entries[j].key@);
    } else if j < i {
        assert(entries[j].key@ != entries[i].key@);
    }
}

/// Global automation state
pub struct AutomationState {
    /// Active LFOs, one entry per "stage.param" key (e.g.
    /// "geometry.wobbulate_h"); keys are unique
    pub lfos: Vec<LfoEntry>,
    /// Global tempo word, in beats per minute
    pub global_bpm: u32,
}

/// The toggle state machine's transition for one key, as a relation between
/// the automation state before and after: leaving Off appends a fresh slow
/// modulator with the caller-supplied bounds; a slow one becomes medium, a
/// medium one fast, and a fast one is removed.
pub open spec fn spec_cycle_rel(
    pre: AutomationState,
    post: AutomationState,
    k: Seq<char>,
    min: u32,
    max: u32,
) -> bool {
    &&& post.global_bpm == pre.global_bpm
    &&& if !spec_has_key(pre.lfos@, k) {
        &&& post.lfos@.len() == pre.lfos@.len() + 1
        &&& post.lfos@.take(pre.lfos@.len() as int) == pre.lfos@
        &&& post.lfos@.last().key@ == k
        &&& post.lfos@.last().lfo == LfoState::spec_slow(min, max)
    } else {
        let i = spec_index_of(pre.lfos@, k);
        let cur = pre.lfos@[i].lfo;
        if cur.spec_tier() == LfoTier::Slow {
            post.lfos@ == pre.lfos@.update(
                i,
                LfoEntry { key: pre.lfos@[i].key, lfo: LfoState::spec_medium(min, max) },
            )
        } else if cur.spec_tier() == LfoTier::Medium {
            post.lfos@ == pre.lfos@.update(
                i,
                LfoEntry { key: pre.lfos@[i].key, lfo: LfoState::spec_fast(min, max) },
            )
        } else {
            post.lfos@ == pre.lfos@.remove(i)
        }
    }
}

impl AutomationState {
    /// Well-formed: no two modulators drive the same key.
    pub open spec fn wf(&self) -> bool {
        keys_unique(self.lfos@)
    }

    pub fn new() -> (r: Self)
        ensures
            r.lfos@.len() == 0,
            r.global_bpm == RAW_BPM_120,
            r.wf(),
    {
        AutomationState { lfos: Vec::new(), global_bpm: RAW_BPM_120 }
    }

    /// The position of the entry `key` keys, if one exists.
    fn find_index(&self, key: &str) -> (r: Option<usize>)
        ensures
            match r {
                Some(i) => i < self.lfos@.len() && self.lfos@[i as int].key@ == key@,
                None => !spec_has_key(self.lfos@, key@),
            },
    {
        let n = self.lfos.len();
        let mut i: usize = 0;
        while i < n
            invariant
                i <= n,
                n == self.lfos@.len(),
                forall|j: int| 0 <= j < i ==> self.lfos@[j].key@ != key@,
            decreases n - i,
        {
            if str_eq(self.lfos[i].key.as_str(), key) {
                return Some(i);
            }
            i = i + 1;
        }
        None
    }

    /// Check if LFO is active for a parameter
    pub fn has_lfo(&self, key: &str) -> (r: bool)
        ensures
            r == spec_has_key(self.lfos@, key@),
    {
        match self.find_index(key) {
            Some(_) => true,
            None => false,
        }
    }

    /// Get LFO state for a parameter
    pub fn get_lfo(&self, key: &str) -> (r: Option<LfoState>)
        requires
            self.wf(),
        ensures
            r == spec_get(self.lfos@, key@),
    {
        match self.find_index(key) {
            Some(i) => {
                proof {
                    lemma_key_index_unique(self.lfos@, key@, i as int);
                }
                Some(self.lfos[i].lfo)
            },
            None => None,
        }
    }

    /// Replace the modulator on `key`, if one is active; reports whether one
    /// was.
    pub fn set_lfo(&mut self, key: &str, lfo: LfoState) -> (r: bool)
        requires
            old(self).wf(),
        ensures
            final(self).wf(),
            final(self).global_bpm == old(self).global_bpm,
            r == spec_has_key(old(self).lfos@, key@),
            spec_has_key(old(self).lfos@, key@) ==> final(self).lfos@ == old(self).lfos@.update(
                spec_index_of(old(self).lfos@, key@),
                LfoEntry {
                    key: old(self).lfos@[spec_index_of(old(self).lfos@, key@)].key,
                    lfo,
                },
            ),
            !spec_has_key(old(self).lfos@, key@) ==> final(self).lfos@ == old(self).lfos@,
    {
        match self.find_index(key) {
            Some(i) => {
                proof {
                    lemma_key_index_unique(self.lfos@, key@, i as int);
                }
                self.lfos[i].lfo = lfo;
                proof {
                    assert forall|a: int, b: int|
                        0 <= a < b < self.lfos@.len() implies self.lfos@[a].key@
                        != self.lfos@[b].key@ by {
                        assert(self.lfos@[a].key@ == old(self).lfos@[a].key@);
                        assert(self.lfos@[b].key@ == old(self).lfos@[b].key@);
                        assert(old(self).lfos@[a].key@ != old(self).lfos@[b].key@);
                    }
                }
                true
            },
            None => false,
        }
    }

    /// Remove LFO from a parameter
    pub fn remove_lfo(&mut self, key: &str)
        requires
            old(self).wf(),
        ensures
            final(self).wf(),
            final(self).global_bpm == old(self).global_bpm,
            spec_has_key(old(self).lfos@, key@) ==> final(self).lfos@ == old(self).lfos@.remove(
                spec_index_of(old(self).lfos@, key@),
            ),
            !spec_has_key(old(self).lfos@, key@) ==> final(self).lfos@ == old(self).lfos@,
    {
        match self.find_index(key) {
            Some(i) => {
                proof {
                    lemma_key_index_unique(self.lfos@, key@, i as int);
                }
                self.lfos.remove(i);
                proof {
                    old(self).lfos@.remove_ensures(i as int);
                    assert forall|a: int, b: int|
                        0 <= a < b < self.lfos@.len() implies self.lfos@[a].key@
                        != self.lfos@[b].key@ by {
                        let s0 = old(self).lfos@;
                        let a0: int = if a < i { a } else { a + 1 };
                        let b0: int = if b < i { b } else { b + 1 };
                        assert(self.lfos@[a] == s0[a0]);
                        assert(self.lfos@[b] == s0[b0]);
                        assert(s0[a0].key@ != s0[b0].key@);
                    }
                }
            },
            None => {},
        }
    }

    /// Cycle LFO state: Off -> Slow -> Medium -> Fast -> Off. Leaving Off
    /// creates a fresh slow modulator over the caller-supplied `[min, max]`.
    pub fn cycle_lfo(&mut self, key: &str, min: u32, max: u32)
        requires
            old(self).wf(),
        ensures
            final(self).wf(),
            spec_cycle_rel(*old(self), *final(self), key@, min, max),
    {
        match self.find_index(key) {
            Some(i) => {
                proof {
                    lemma_key_index_unique(self.lfos@, key@, i as int);
                }
                let tier = self.lfos[i].lfo.tier();
                match tier {
                    LfoTier::Slow => {
                        self.lfos[i].lfo = LfoState::medium(min, max);
                    },
                    LfoTier::Medium => {
                        self.lfos[i].lfo = LfoState::fast(min, max);
                    },
                    LfoTier::Fast => {
                        self.lfos.remove(i);
                    },
                }
                proof {
                    if old(self).lfos@[i as int].lfo.spec_tier() == LfoTier::Fast {
                        old(self).lfos@.remove_ensures(i as int);
                        assert forall|a: int, b: int|
                            0 <= a < b < self.lfos@.len() implies self.lfos@[a].key@
                            != self.lfos@[b].key@ by {
                            let s0 = old(self).lfos@;
                            let a0: int = if a < i { a } else { a + 1 };
                            let b0: int = if b < i { b } else { b + 1 };
                            assert(self.lfos@[a] == s0[a0]);
                            assert(self.lfos@[b] == s0[b0]);
                            assert(s0[a0].key@ != s0[b0].key@);
                        }
                    } else {
                        assert forall|a: int, b: int|
                            0 <= a < b < self.lfos@.len() implies self.lfos@[a].key@
                            != self.lfos@[b].key@ by {
                            assert(self.lfos@[a].key@ == old(self).lfos@[a].key@);
                            assert(self.lfos@[b].key@ == old(self).lfos@[b].key@);
                            assert(old(self).lfos@[a].key@ != old(self).lfos@[b].key@);
                        }
                    }
                }
            },
            None => {
                // Currently off -> slow
                self.lfos.push(LfoEntry { key: key.to_owned(), lfo: LfoState::slow(min, max) });
                proof {
                    let s0 = old(self).lfos@;
                    let n = s0.len() as int;
                    assert(self.lfos@.take(n) =~= s0);
                    assert forall|j: int| 0 <= j < n implies s0[j].key@ != key@ by {
                        if s0[j].key@ == key@ {
                            assert(spec_has_key(s0, key@));
                        }
                    }
                    assert forall|a: int, b: int|
                        0 <= a < b < self.lfos@.len() implies self.lfos@[a].key@
                        != self.lfos@[b].key@ by {
                        if b < n {
                            assert(self.lfos@[a] == s0[a]);
                            assert(self.lfos@[b] == s0[b]);
                            assert(s0[a].key@ != s0[b].key@);
                        } else {
                            assert(self.lfos@[a] == s0[a]);
                            assert(self.lfos@[b].key@ == key@);
                            assert(s0[a].key@ != key@);
                        }
                    }
                }
            },
        }
    }
}

impl Default for AutomationState {
    fn default() -> (r: Self)
        ensures
            r.lfos@.len() == 0,
            r.global_bpm == RAW_BPM_120,
            r.wf(),
    {
        AutomationState::new()
    }
}

/// Law: starting from Off on a key, four toggle steps return the modulator
/// set exactly to where it started, and the first three steps leave the slow,
/// medium and fast modulator on that key respectively.
pub proof fn lemma_cycle_returns_to_off(
    s0: AutomationState,
    s1: AutomationState,
    s2: AutomationState,
    s3: AutomationState,
    s4: AutomationState,
    key: Seq<char>,
    min: u32,
    max: u32,
)
    requires
        s0.wf(),
        s1.wf(),
        s2.wf(),
        s3.wf(),
        !spec_has_key(s0.lfos@, key),
        spec_cycle_rel(s0, s1, key, min, max),
        spec_cycle_rel(s1, s2, key, min, max),
        spec_cycle_rel(s2, s3, key, min, max),
        spec_cycle_rel(s3, s4, key, min, max),
    ensures
        spec_get(s1.lfos@, key) == Some(LfoState::spec_slow(min, max)),
        spec_get(s2.lfos@, key) == Some(LfoState::spec_medium(min, max)),
        spec_get(s3.lfos@, key) == Some(LfoState::spec_fast(min, max)),
        s4.lfos@ == s0.lfos@,
        !spec_has_key(s4.lfos@, key),
{
    let n = s0.lfos@.len() as int;

    // Off -> Slow: the fresh entry sits at the end.
    assert(s1.lfos@[n].key@ == key);
    assert(s1.lfos@[n].lfo == LfoState::spec_slow(min, max));
    lemma_key_index_unique(s1.lfos@, key, n);

    // Slow -> Medium: the entry is updated in place.
    assert(RAW_SPEED_SLOW < TIER_SLOW_LIMIT);
    assert(s2.lfos@ == s1.lfos@.update(
        n,
        LfoEntry { key: s1.lfos@[n].key, lfo: LfoState::spec_medium(min, max) },
    ));
    lemma_key_index_unique(s2.lfos@, key, n);

    // Medium -> Fast: the entry is updated in place.
    assert(TIER_SLOW_LIMIT <= RAW_SPEED_MEDIUM < TIER_MEDIUM_LIMIT);
    assert(s3.lfos@ == s2.lfos@.update(
        n,
        LfoEntry { key: s2.lfos@[n].key, lfo: LfoState::spec_fast(min, max) },
    ));
    lemma_key_index_unique(s3.lfos@, key, n);

    // Fast -> Off: the entry is removed, exposing the untouched prefix.
    assert(RAW_SPEED_FAST >= TIER_MEDIUM_LIMIT);
    assert(s4.lfos@ == s3.lfos@.remove(n));
    s3.lfos@.remove_ensures(n);
    assert forall|m: int| 0 <= m < n implies s4.lfos@[m] == s0.lfos@[m] by {
        assert(s4.lfos@[m] == s3.lfos@[m]);
        assert(s3.lfos@[m] == s2.lfos@[m]);
        assert(s2.lfos@[m] == s1.lfos@[m]);
        assert(s1.lfos@[m] == s1.lfos@.take(n)[m]);
    }
    assert(s4.lfos@ =~= s0.lfos@);
}

/// The model after routing the evaluated output of every modulator, in entry
/// order.
pub open spec fn spec_apply(s: SynthState, entries: Seq<LfoEntry>, outs: Seq<u32>) -> SynthState
    decreases entries.len(),
{
    if entries.len() == 0 {
        s
    } else {
        spec_set_param(
            spec_apply(s, entries.drop_last(), outs.drop_last()),
            entries.last().key@,
            outs.last(),
        )
    }
}

/// Whether routing the evaluated outputs changes the model at any step.
pub open spec fn spec_apply_changed(
    s: SynthState,
    entries: Seq<LfoEntry>,
    outs: Seq<u32>,
) -> bool
    decreases entries.len(),
{
    if entries.len() == 0 {
        false
    } else {
        let before = spec_apply(s, entries.drop_last(), outs.drop_last());
        spec_apply_changed(s, entries.drop_last(), outs.drop_last()) || spec_set_param(
            before,
            entries.last().key@,
            outs.last(),
        ) != before
    }
}

/// Law: routing an empty modulator set reports unchanged and leaves every
/// model field bit-identical.
pub proof fn lemma_apply_empty_is_identity(s: SynthState, entries: Seq<LfoEntry>, outs: Seq<u32>)
    requires
        entries.len() == 0,
    ensures
        spec_apply(s, entries, outs) == s,
        !spec_apply_changed(s, entries, outs),
{
}

impl AutomationState {
    /// Apply all active LFOs to synth state, each with its evaluated output
    /// word (`outputs[i]` belongs to `self.lfos[i]`; the host computes it
    /// from the modulator and the clock). Returns true if any parameter
    /// actually changed. An empty modulator set reports unchanged and leaves
    /// every model field bit-identical.
    pub fn apply(&self, synth: &mut SynthState, outputs: &Vec<u32>) -> (modified: bool)
        requires
            outputs@.len() == self.lfos@.len(),
        ensures
            *final(synth) == spec_apply(*old(synth), self.lfos@, outputs@),
            modified == spec_apply_changed(*old(synth), self.lfos@, outputs@),
            self.lfos@.len() == 0 ==> !modified && *final(synth) == *old(synth),
    {
        let n = self.lfos.len();
        let mut modified = false;
        let mut i: usize = 0;
        while i < n
            invariant
                i <= n,
                n == self.lfos@.len(),
                outputs@.len() == n,
                *synth == spec_apply(*old(synth), self.lfos@.take(i as int), outputs@.take(i as int)),
                modified == spec_apply_changed(
                    *old(synth),
                    self.lfos@.take(i as int),
                    outputs@.take(i as int),
                ),
            decreases n - i,
        {
            let changed = set_param(synth, self.lfos[i].key.as_str(), outputs[i]);
            if changed {
                modified = true;
            }
            proof {
                let k = i + 1 as int;
                assert(self.lfos@.take(k).drop_last() =~= self.lfos@.take(i as int));
                assert(outputs@.take(k).drop_last() =~= outputs@.take(i as int));
                assert(self.lfos@.take(k).last() == self.lfos@[i as int]);
                assert(outputs@.take(k).last() == outputs@[i as int]);
            }
            i = i + 1;
        }
        proof {
            assert(self.lfos@.take(n as int) =~= self.lfos@);
            assert(outputs@.take(n as int) =~= outputs@);
        }
        modified
    }
}

} // verus!
