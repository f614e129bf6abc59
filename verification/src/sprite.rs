//! Sprites and the frame-advance state machine that animates them.
use vstd::prelude::*;

use crate::layout::{Coordinate, MirrorDirection, MirrorDirectionValue};
use crate::renderer::{
    draw_seq, frame_covered, mirror_covers, offset_in_range, Cell, Frame, Pixel,
};
use crate::screen::{cleared, Screen};

verus! {

/// Number of microseconds in one second; frame durations and deltas are
/// counted in microseconds.
pub const MICROS_PER_SECOND: u64 = 1_000_000;

/// An animation sequence: a non-empty list of frames plus the playback
/// cursor, which is the index of the frame being shown and the time
/// accumulated since the last frame switch.
pub struct Sprite {
    /// The frames of the sequence, in play order. Never empty.
    pub frames: Vec<Frame>,
    /// Index of the frame currently shown.
    pub frame_pos: usize,
    /// Microseconds accumulated in the current frame since the last switch.
    pub timer: u64,
}

/// How long the indexed frame is shown, in microseconds: its explicit
/// duration if set, else one second divided evenly among all frames.
pub open spec fn frame_duration(frames: Seq<Frame>, pos: int) -> int {
    match frames[pos].duration {
        Some(d) => d as int,
        None => (MICROS_PER_SECOND as int) / (frames.len() as int),
    }
}

/// One step of the frame-advance state machine: the timer accumulates
/// `delta`; once it reaches the current frame's duration, the duration is
/// subtracted (carrying the remainder forward) and the cursor moves to the
/// next frame, wrapping to the first after the last.
pub open spec fn sprite_advanced(pre: Sprite, post: Sprite, delta: u64) -> bool {
    let dur = frame_duration(pre.frames@, pre.frame_pos as int);
    &&& post.frames@ == pre.frames@
    &&& if pre.timer + delta >= dur {
        &&& post.timer == pre.timer + delta - dur
        &&& post.frame_pos == (pre.frame_pos + 1) % (pre.frames@.len() as int)
    } else {
        &&& post.timer == pre.timer + delta
        &&& post.frame_pos == pre.frame_pos
    }
}

/// The frame a sprite's cursor points at.
pub open spec fn current_frame(s: Sprite) -> Frame {
    s.frames@[s.frame_pos as int]
}

/// All cells of a frame, pixel by pixel, in draw order.
pub open spec fn pixels_cells(pixels: Seq<Pixel>) -> Seq<Cell>
    decreases pixels.len(),
{
    if pixels.len() == 0 {
        Seq::empty()
    } else {
        pixels_cells(pixels.drop_last()) + pixels.last()@
    }
}

/// All cells of a frame in draw order.
pub open spec fn frame_cells(f: Frame) -> Seq<Cell> {
    pixels_cells(f.pixels@)
}

/// The mirror transform a frame is drawn with: the extent comes from the
/// frame's own stored bounding dimensions, never from the sprite or the
/// screen.
pub open spec fn mirror_value_for(m: MirrorDirection, f: Frame) -> MirrorDirectionValue {
    match m {
        MirrorDirection::FlipVertical => MirrorDirectionValue::FlipVertical(f.width),
        MirrorDirection::FlipHorizontal => MirrorDirectionValue::FlipHorizontal(f.height),
        MirrorDirection::NoMirror => MirrorDirectionValue::NoMirror,
    }
}

/// A `w * h` buffer after one play step: cleared to opaque black, then
/// overwritten with every cell of the frame, mirrored and shifted by the
/// world offset.
pub open spec fn rendered(
    buf: Seq<u8>,
    f: Frame,
    m: MirrorDirection,
    off: Coordinate,
    w: u32,
    h: u32,
) -> Seq<u8> {
    draw_seq(cleared(buf), frame_cells(f), mirror_value_for(m, f), off, w, h)
}

impl Sprite {
    /// A playable sprite: at least one frame, a cursor inside the frame
    /// list, and stored frame dimensions that cover every cell (so the
    /// mirror extents cannot be exceeded).
    pub open spec fn wf(self) -> bool {
        &&& self.frames@.len() > 0
        &&& self.frame_pos < self.frames@.len()
        &&& forall|k: int| 0 <= k < self.frames@.len() ==> frame_covered(#[trigger] self.frames@[k])
    }

    /// Builds a sprite positioned at its first frame.
    ///
    /// Fails (returning nothing) when the frame list is empty or some
    /// frame's stored dimensions do not cover its cells; both would poison
    /// playback, so they are rejected at construction.
    pub fn new(frames: Vec<Frame>) -> (s: Option<Sprite>)
        ensures
            s is Some <==> frames@.len() > 0 && (forall|k: int|
                0 <= k < frames@.len() ==> frame_covered(#[trigger] frames@[k])),
            s matches Some(sp) ==> sp.frames@ == frames@ && sp.frame_pos == 0 && sp.timer == 0
                && sp.wf(),
    {
        if frames.len() == 0 {
            return None;
        }
        let mut k: usize = 0;
        while k < frames.len()
            invariant
                k <= frames@.len(),
                forall|j: int| 0 <= j < k ==> frame_covered(#[trigger] frames@[j]),
            decreases frames@.len() - k,
        {
            if !Self::covered(&frames[k]) {
                return None;
            }
            k = k + 1;
        }
        Some(Sprite { frames, frame_pos: 0, timer: 0 })
    }

    /// Checks that the frame's stored dimensions bound every cell.
    fn covered(f: &Frame) -> (b: bool)
        ensures
            b == frame_covered(*f),
    {
        let mut i: usize = 0;
        while i < f.pixels.len()
            invariant
                i <= f.pixels@.len(),
                forall|p: int, q: int|
                    0 <= p < i && 0 <= q < f.pixels@[p]@.len() ==> (#[trigger] f.pixels@[p]@[q]).x
                        <= f.width && f.pixels@[p]@[q].y <= f.height,
            decreases f.pixels@.len() - i,
        {
            let mut j: usize = 0;
            let n = f.pixels[i].len();
            while j < n
                invariant
                    j <= n,
                    i < f.pixels@.len(),
                    n == f.pixels@[i as int]@.len(),
                    forall|q: int|
                        0 <= q < j ==> (#[trigger] f.pixels@[i as int]@[q]).x <= f.width
                            && f.pixels@[i as int]@[q].y <= f.height,
                decreases n - j,
            {
                let cx = f.pixels[i].column_pos(j);
                let cy = f.pixels[i].row_pos(j);
                match (cx, cy) {
                    (Some(x), Some(y)) => {
                        if x > f.width || y > f.height {
                            proof {
                                assert(!frame_covered(*f));
                            }
                            return false;
                        }
                    },
                    _ => {
                        proof {
                            assert(false);
                        }
                    },
                }
                j = j + 1;
            }
            i = i + 1;
        }
        true
    }

    /// Advances the playback cursor by `delta` microseconds: a single step
    /// of the frame-advance state machine (at most one frame per call,
    /// even for deltas spanning several durations).
    pub fn advance(&mut self, delta: u64)
        requires
            old(self).wf(),
            old(self).timer + delta <= u64::MAX,
        ensures
            final(self).wf(),
            sprite_advanced(*old(self), *final(self), delta),
    {
        let len = self.frames.len();
        let duration: u64 = match self.frames[self.frame_pos].duration {
            Some(d) => d,
            None => MICROS_PER_SECOND / (len as u64),
        };
        self.timer = self.timer + delta;
        if self.timer >= duration {
            self.timer = self.timer - duration;
            self.frame_pos = (self.frame_pos + 1) % len;
        }
    }

    /// Plays one animation tick: advances the cursor by `delta`
    /// microseconds, clears the screen, and draws every cell of the (now
    /// current) frame with the given mirroring and world offset.
    ///
    /// A `delta` of zero advances nothing but still redraws the frame.
    pub fn play(&mut self, delta: u64, mirror: MirrorDirection, offset: Coordinate, screen: &mut Screen)
        requires
            old(self).wf(),
            old(self).timer + delta <= u64::MAX,
            old(screen).wf(),
            offset_in_range(offset),
        ensures
            final(self).wf(),
            sprite_advanced(*old(self), *final(self), delta),
            final(screen).wf(),
            final(screen).width == old(screen).width,
            final(screen).height == old(screen).height,
            final(screen).buffer@ == rendered(
                old(screen).buffer@,
                final(self).frames@[final(self).frame_pos as int],
                mirror,
                offset,
                old(screen).width,
                old(screen).height,
            ),
    {
        self.advance(delta);
        screen.clear();
        let w = screen.width;
        let h = screen.height;
        let frame = &self.frames[self.frame_pos];
        let mval: MirrorDirectionValue = match mirror {
            MirrorDirection::FlipVertical => MirrorDirectionValue::FlipVertical(frame.width),
            MirrorDirection::FlipHorizontal => MirrorDirectionValue::FlipHorizontal(frame.height),
            MirrorDirection::NoMirror => MirrorDirectionValue::NoMirror,
        };
        let ghost buf0 = screen.buffer@;
        let mut i: usize = 0;
        while i < frame.pixels.len()
            invariant
                i <= frame.pixels@.len(),
                screen.wf(),
                screen.width == w,
                screen.height == h,
                frame_covered(*frame),
                mval == mirror_value_for(mirror, *frame),
                offset_in_range(offset),
                screen.buffer@ == draw_seq(
                    buf0,
                    pixels_cells(frame.pixels@.take(i as int)),
                    mval,
                    offset,
                    w,
                    h,
                ),
            decreases frame.pixels@.len() - i,
        {
            let ghost pre = screen.buffer@;
            proof {
                lemma_covered_pixel_mirror(*frame, mval, i as int);
            }
            frame.pixels[i].draw(screen, mval, offset);
            proof {
                assert(frame.pixels@.take(i + 1).drop_last() =~= frame.pixels@.take(i as int));
                assert(frame.pixels@.take(i + 1).last() == frame.pixels@[i as int]);
                crate::renderer::lemma_draw_seq_append(
                    buf0,
                    pixels_cells(frame.pixels@.take(i as int)),
                    frame.pixels@[i as int]@,
                    mval,
                    offset,
                    w,
                    h,
                );
            }
            i = i + 1;
        }
        proof {
            assert(frame.pixels@.take(frame.pixels@.len() as int) =~= frame.pixels@);
        }
    }
}

/// When the current frame has no explicit duration, one advance step with
/// a delta of at least one N-th of a second (N the frame count) moves the
/// cursor forward by exactly one frame, and wraps to the first frame when
/// it was on the last.
pub proof fn lemma_uniform_delta_advances_one(pre: Sprite, post: Sprite, delta: u64)
    requires
        pre.wf(),
        sprite_advanced(pre, post, delta),
        pre.frames@[pre.frame_pos as int].duration is None,
        delta >= (MICROS_PER_SECOND as int) / (pre.frames@.len() as int),
    ensures
        post.frame_pos == (pre.frame_pos + 1) % (pre.frames@.len() as int),
        pre.frame_pos + 1 == pre.frames@.len() ==> post.frame_pos == 0,
        pre.frame_pos + 1 < pre.frames@.len() ==> post.frame_pos == pre.frame_pos + 1,
{
    if pre.frame_pos + 1 == pre.frames@.len() {
        vstd::arithmetic::div_mod::lemma_mod_self_0(pre.frames@.len() as int);
    } else {
        vstd::arithmetic::div_mod::lemma_small_mod(
            (pre.frame_pos + 1) as nat,
            pre.frames@.len() as nat,
        );
    }
}

/// While the accumulated time stays below the current frame's duration,
/// an advance step leaves the cursor in place and the timer grows by
/// exactly the delta — strictly, whenever the delta is not zero.
pub proof fn lemma_small_delta_keeps_frame(pre: Sprite, post: Sprite, delta: u64)
    requires
        sprite_advanced(pre, post, delta),
        pre.timer + delta < frame_duration(pre.frames@, pre.frame_pos as int),
    ensures
        post.frame_pos == pre.frame_pos,
        post.timer == pre.timer + delta,
        delta > 0 ==> post.timer > pre.timer,
{
}

/// In a covered frame, the mirror transform built from the frame's own
/// dimensions covers the cells of each of its pixels.
proof fn lemma_covered_pixel_mirror(f: Frame, mval: MirrorDirectionValue, i: int)
    requires
        frame_covered(f),
        0 <= i < f.pixels@.len(),
        mval matches MirrorDirectionValue::FlipVertical(e) ==> e == f.width,
        mval matches MirrorDirectionValue::FlipHorizontal(e) ==> e == f.height,
    ensures
        mirror_covers(f.pixels@[i]@, mval),
{
}

} // verus!
