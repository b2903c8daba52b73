//! The uniform packer: field mapping, byte layout, determinism.

use phosphlux_lite::synth::BlendMode;
use phosphlux_lite::synth::SynthState;
use phosphlux_lite::synth::SynthUniforms;

#[test]
fn pack_copies_model_words_through() {
    let mut s = SynthState::default();
    s.input.mix = 0.37f32.to_bits();
    s.geometry.scale = 1.75f32.to_bits();
    s.amplitude.fold_gain = 2.5f32.to_bits();
    s.colorize.hue_offset = 0.125f32.to_bits();
    s.mixer.feedback_mix = 0.6f32.to_bits();
    s.feedback.decay = 0.91f32.to_bits();
    s.output.ghosting = 0.05f32.to_bits();
    let time = 12.5f32.to_bits();
    let u = SynthUniforms::from_state(&s, time, 42);
    assert_eq!(u.input_mix, 0.37f32.to_bits());
    assert_eq!(u.geo_scale, 1.75f32.to_bits());
    assert_eq!(u.amp_fold_gain, 2.5f32.to_bits());
    assert_eq!(u.color_hue_offset, 0.125f32.to_bits());
    assert_eq!(u.mixer_feedback_mix, 0.6f32.to_bits());
    assert_eq!(u.fb_decay, 0.91f32.to_bits());
    assert_eq!(u.out_ghosting, 0.05f32.to_bits());
    assert_eq!(u.time, 12.5f32.to_bits());
    assert_eq!(u.frame, 42);
}

#[test]
fn pack_encodes_enums_and_booleans() {
    let mut s = SynthState::default();
    s.mixer.blend_mode = BlendMode::Overlay;
    s.mixer.key_invert = true;
    s.feedback.enabled = false;
    let u = SynthUniforms::from_state(&s, 0, 0);
    assert_eq!(u.input_source_a, 0); // RampH
    assert_eq!(u.input_source_b, 3); // OscV
    assert_eq!(u.color_mode, 0); // Spectrum
    assert_eq!(u.mixer_blend_mode, 4); // Overlay
    assert_eq!(u.out_mode, 1); // CRT
    assert_eq!(u.mixer_key_invert, 1.0f32.to_bits());
    assert_eq!(u.fb_enabled, 0.0f32.to_bits());
}

#[test]
fn pack_zeroes_every_padding_word() {
    let s = SynthState::default();
    let u = SynthUniforms::from_state(&s, 1.0f32.to_bits(), 99);
    assert_eq!(u._pad0, 0);
    assert_eq!(u._pad1, 0);
    assert_eq!(u._pad2, 0);
    assert_eq!(u._pad3, 0);
    assert_eq!(u._pad4, 0);
    assert_eq!(u._pad5, 0);
    assert_eq!(u._pad6, 0);
    assert_eq!(u._pad7, 0);
    assert_eq!(u._pad8, 0);
}

#[test]
fn byte_image_is_272_little_endian_bytes() {
    let mut s = SynthState::default();
    s.input.source_b = phosphlux_lite::synth::InputSource::Checkerboard;
    let u = SynthUniforms::from_state(&s, 2.0f32.to_bits(), 0x01020304);
    let b = u.to_bytes();
    assert_eq!(b.len(), 272);
    // word 0: source_a encoding (0), little-endian
    assert_eq!(&b[0..4], &[0, 0, 0, 0]);
    // word 1: source_b encoding (10)
    assert_eq!(&b[4..8], &[10, 0, 0, 0]);
    // word 64: the time word (2.0 = 0x40000000)
    assert_eq!(&b[256..260], &[0x00, 0x00, 0x00, 0x40]);
    // word 65: the frame counter
    assert_eq!(&b[260..264], &[0x04, 0x03, 0x02, 0x01]);
    // trailing padding words
    assert_eq!(&b[264..272], &[0, 0, 0, 0, 0, 0, 0, 0]);
}

#[test]
fn packing_twice_is_byte_identical() {
    let mut s = SynthState::default();
    s.feedback.zoom = 1.04f32.to_bits();
    s.mixer.key_invert = true;
    let time = 33.25f32.to_bits();
    let u1 = SynthUniforms::from_state(&s, time, 1000);
    let u2 = SynthUniforms::from_state(&s, time, 1000);
    assert_eq!(u1, u2);
    assert_eq!(u1.to_bytes(), u2.to_bytes());
}

#[test]
fn packing_differs_when_frame_differs() {
    let s = SynthState::default();
    let u1 = SynthUniforms::from_state(&s, 0, 1);
    let u2 = SynthUniforms::from_state(&s, 0, 2);
    assert_ne!(u1.to_bytes(), u2.to_bytes());
}
