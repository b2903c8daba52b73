//! The feedback renderer's double-buffer protocol.

use phosphlux_lite::renderer::FeedbackBuffers;

#[test]
fn fresh_buffers_start_black_on_buffer_zero() {
    let fb = FeedbackBuffers::new(640, 480);
    assert_eq!(fb.current, 0);
    assert_eq!(fb.width(), 640);
    assert_eq!(fb.height(), 480);
    assert_eq!(fb.ticks, 0);
    assert_eq!(fb.stamp0, 0);
    assert_eq!(fb.stamp1, 0);
    assert_eq!(fb.display_stamp, 0);
}

#[test]
fn a_tick_reads_current_and_writes_the_other() {
    let mut fb = FeedbackBuffers::new(640, 480);
    let (read, write) = fb.render_tick();
    assert_eq!(read, 0);
    assert_eq!(write, 1);
    assert_ne!(read, write);
    assert_eq!(fb.current, 1);
    assert_eq!(fb.ticks, 1);
    assert_eq!(fb.stamp1, 1);
    assert_eq!(fb.stamp0, 0);
    assert_eq!(fb.display_stamp, 1);
}

#[test]
fn current_always_names_the_buffer_written_last() {
    let mut fb = FeedbackBuffers::new(320, 240);
    for n in 1..=10u64 {
        let (read, write) = fb.render_tick();
        assert_ne!(read, write, "tick {} must not self-alias", n);
        assert_eq!(fb.ticks, n);
        assert_eq!(fb.current, write);
        let current_stamp = if fb.current == 0 { fb.stamp0 } else { fb.stamp1 };
        assert_eq!(current_stamp, n, "after tick {} current holds that tick's frame", n);
        assert_eq!(fb.display_stamp, n);
    }
    // with two buffers the index alternates
    assert_eq!(fb.current, 0);
}

#[test]
fn each_tick_reads_the_previous_ticks_frame() {
    let mut fb = FeedbackBuffers::new(320, 240);
    fb.render_tick();
    for n in 2..=6u64 {
        let before0 = fb.stamp0;
        let before1 = fb.stamp1;
        let (read, _) = fb.render_tick();
        let read_stamp = if read == 0 { before0 } else { before1 };
        assert_eq!(read_stamp, n - 1, "tick {} must read the frame of tick {}", n, n - 1);
    }
}

#[test]
fn resize_to_the_same_size_is_a_no_op() {
    let mut fb = FeedbackBuffers::new(640, 480);
    fb.render_tick();
    fb.render_tick();
    fb.render_tick();
    let snapshot = fb;
    let realloc = fb.resize(640, 480);
    assert!(!realloc);
    assert_eq!(fb, snapshot);
}

#[test]
fn resize_to_a_new_size_resets_history() {
    let mut fb = FeedbackBuffers::new(640, 480);
    fb.render_tick();
    fb.render_tick();
    fb.render_tick();
    assert_eq!(fb.current, 1);
    let realloc = fb.resize(800, 600);
    assert!(realloc);
    assert_eq!(fb.current, 0);
    assert_eq!(fb.width(), 800);
    assert_eq!(fb.height(), 600);
    assert_eq!(fb.ticks, 0);
    assert_eq!(fb.stamp0, 0);
    assert_eq!(fb.stamp1, 0);
    assert_eq!(fb.display_stamp, 0);
}

#[test]
fn resize_changing_only_one_dimension_still_resets() {
    let mut fb = FeedbackBuffers::new(640, 480);
    fb.render_tick();
    assert!(fb.resize(640, 481));
    assert_eq!(fb.current, 0);
    assert_eq!(fb.ticks, 0);
}
