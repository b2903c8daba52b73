//! Feedback renderer protocol: the double-buffered (ping-pong) state machine.
//!
//! The GPU resources themselves — textures, pipeline, surface — belong to the
//! host; this module owns the decisions around them: which of the two
//! feedback buffers a tick reads, which it writes, when a resize request
//! reallocates and when it is a no-op. Buffer contents are modeled by stamps:
//! the number of the tick that last wrote each slot, zero meaning untouched
//! since allocation (black). The display image is a separate stable copy so
//! presentation never observes a buffer mid-swap.

use vstd::prelude::*;

verus! {

/// The two-buffer feedback state: one current-index bit selects which buffer
/// holds the last completed frame; each tick reads it and writes the other.
#[derive(Clone, Copy, Debug, PartialEq, Eq, Structural)]
pub struct FeedbackBuffers {
    /// Index of the buffer holding the last completed frame
    pub current: usize,
    pub width: u32,
    pub height: u32,
    /// Rendered ticks since the buffers were last (re)allocated
    pub ticks: u64,
    /// Tick that last wrote buffer zero (zero = never, still black)
    pub stamp0: u64,
    /// Tick that last wrote buffer one (zero = never, still black)
    pub stamp1: u64,
    /// Tick whose result the display image holds (zero = never)
    pub display_stamp: u64,
}

/// The stamp of buffer `i`.
pub open spec fn spec_stamp(s: FeedbackBuffers, i: int) -> u64 {
    if i == 0 {
        s.stamp0
    } else {
        s.stamp1
    }
}

/// The buffer a tick on `s` reads: the current one.
pub open spec fn spec_read_index(s: FeedbackBuffers) -> int {
    s.current as int
}

/// The buffer a tick on `s` writes: the other one.
pub open spec fn spec_write_index(s: FeedbackBuffers) -> int {
    1 - s.current as int
}

/// The state after one rendered tick: the written buffer carries the new
/// tick's stamp, the display image carries the same, and the written buffer
/// becomes current.
pub open spec fn spec_tick(s: FeedbackBuffers) -> FeedbackBuffers {
    FeedbackBuffers {
        current: (1 - s.current) as usize,
        ticks: (s.ticks + 1) as u64,
        stamp0: if s.current == 1 {
            (s.ticks + 1) as u64
        } else {
            s.stamp0
        },
        stamp1: if s.current == 0 {
            (s.ticks + 1) as u64
        } else {
            s.stamp1
        },
        display_stamp: (s.ticks + 1) as u64,
        ..s
    }
}

/// The state after a resize request: a request matching the current size is
/// a no-op; a new size discards the buffers, resetting the current index and
/// every stamp (feedback history restarts from black).
pub open spec fn spec_resize(s: FeedbackBuffers, w: u32, h: u32) -> FeedbackBuffers {
    if w == s.width && h == s.height {
        s
    } else {
        FeedbackBuffers {
            current: 0,
            width: w,
            height: h,
            ticks: 0,
            stamp0: 0,
            stamp1: 0,
            display_stamp: 0,
        }
    }
}

impl FeedbackBuffers {
    /// Well-formed: the index is a single bit, the current buffer is the one
    /// the latest tick wrote, the other buffer is older, and the display
    /// image holds the latest tick's result.
    pub open spec fn wf(&self) -> bool {
        &&& self.current <= 1
        &&& spec_stamp(*self, self.current as int) == self.ticks
        &&& spec_stamp(*self, 1 - self.current as int) <= self.ticks
        &&& self.display_stamp == self.ticks
    }

    /// Freshly allocated buffers: both black, buffer zero current.
    pub fn new(width: u32, height: u32) -> (r: Self)
        ensures
            r == (FeedbackBuffers {
                current: 0,
                width,
                height,
                ticks: 0,
                stamp0: 0,
                stamp1: 0,
                display_stamp: 0,
            }),
            r.wf(),
    {
        FeedbackBuffers {
            current: 0,
            width,
            height,
            ticks: 0,
            stamp0: 0,
            stamp1: 0,
            display_stamp: 0,
        }
    }

    pub fn width(&self) -> (w: u32)
        ensures
            w == self.width,
    {
        self.width
    }

    pub fn height(&self) -> (h: u32)
        ensures
            h == self.height,
    {
        self.height
    }

    /// One rendered tick. Returns `(read, write)`: the tick reads the
    /// previous frame from `read`, writes the new frame into `write`
    /// (never the same buffer), copies `write` into the display image, and
    /// leaves `write` as the current buffer.
    pub fn render_tick(&mut self) -> (idx: (usize, usize))
        requires
            old(self).wf(),
            old(self).ticks < u64::MAX,
        ensures
            final(self).wf(),
            idx.0 as int == spec_read_index(*old(self)),
            idx.1 as int == spec_write_index(*old(self)),
            idx.0 != idx.1,
            *final(self) == spec_tick(*old(self)),
            // the buffer read is the one the previous tick wrote
            spec_stamp(*old(self), idx.0 as int) == old(self).ticks,
            // the buffer written now carries this tick's stamp and is current
            spec_stamp(*final(self), idx.1 as int) == final(self).ticks,
            final(self).current == idx.1,
            final(self).ticks == old(self).ticks + 1,
            final(self).width == old(self).width,
            final(self).height == old(self).height,
    {
        let read = self.current;
        let write = 1 - self.current;
        self.ticks = self.ticks + 1;
        if write == 0 {
            self.stamp0 = self.ticks;
        } else {
            self.stamp1 = self.ticks;
        }
        self.display_stamp = self.ticks;
        self.current = write;
        (read, write)
    }

    /// Handle a resize request. Returns whether the buffers must be
    /// reallocated: false when the request matches the current size (the
    /// state, the buffers and the display image stay untouched), true when
    /// the size is new (history is discarded and buffer zero becomes
    /// current).
    pub fn resize(&mut self, new_width: u32, new_height: u32) -> (changed: bool)
        requires
            old(self).wf(),
        ensures
            final(self).wf(),
            *final(self) == spec_resize(*old(self), new_width, new_height),
            changed == !(new_width == old(self).width && new_height == old(self).height),
            !changed ==> *final(self) == *old(self),
    {
        if new_width == self.width && new_height == self.height {
            return false;
        }
        self.width = new_width;
        self.height = new_height;
        self.ticks = 0;
        self.stamp0 = 0;
        self.stamp1 = 0;
        self.display_stamp = 0;
        self.current = 0;
        true
    }
}

/// Law: a tick never reads the buffer it writes; after the tick, `current`
/// names exactly the buffer written during it, and the buffer that was read
/// is the one the previous tick wrote.
pub proof fn lemma_tick_never_self_aliases(s: FeedbackBuffers)
    requires
        s.wf(),
        s.ticks < u64::MAX,
    ensures
        spec_read_index(s) != spec_write_index(s),
        spec_tick(s).current as int == spec_write_index(s),
        spec_stamp(spec_tick(s), spec_write_index(s)) == s.ticks + 1,
        spec_stamp(s, spec_read_index(s)) == s.ticks,
{
}

/// Law: after any number of rendered ticks, `current` names the buffer
/// written during the latest tick, and the display image holds that tick's
/// result.
pub proof fn lemma_current_is_latest_write(s: FeedbackBuffers)
    requires
        s.wf(),
    ensures
        spec_stamp(s, s.current as int) == s.ticks,
        s.display_stamp == s.ticks,
{
}

/// Law: a resize to the existing size leaves the state — current index and
/// buffer stamps included — untouched.
pub proof fn lemma_resize_same_size_is_noop(s: FeedbackBuffers, w: u32, h: u32)
    requires
        s.wf(),
        w == s.width,
        h == s.height,
    ensures
        spec_resize(s, w, h) == s,
{
}

/// Law: a resize to a new size resets the current index to zero and leaves
/// both buffers and the display image black: no prior content survives.
pub proof fn lemma_resize_new_size_resets(s: FeedbackBuffers, w: u32, h: u32)
    requires
        s.wf(),
        !(w == s.width && h == s.height),
    ensures
        spec_resize(s, w, h).current == 0,
        spec_resize(s, w, h).width == w,
        spec_resize(s, w, h).height == h,
        spec_stamp(spec_resize(s, w, h), 0) == 0,
        spec_stamp(spec_resize(s, w, h), 1) == 0,
        spec_resize(s, w, h).display_stamp == 0,
        spec_resize(s, w, h).ticks == 0,
{
}

} // verus!
