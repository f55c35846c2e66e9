use vstd::prelude::*;
use vstd::arithmetic::div_mod::{lemma_fundamental_div_mod, lemma_fundamental_div_mod_converse};

verus! {

/// Ticks of the fixed-rate update loop in one second.
pub const TICKS_PER_SECOND: u32 = 60;

/// Number of ticks between two frame advances for a given speed:
/// `60 / speed`, but never less than one tick.
pub open spec fn period(speed: u32) -> nat {
    if speed == 0 || TICKS_PER_SECOND / speed == 0 {
        1
    } else {
        (TICKS_PER_SECOND / speed) as nat
    }
}

/// A texture as the animation logic sees it: a handle chosen by whoever
/// loaded it, and its size in pixels.
#[derive(Clone, Copy, Debug, PartialEq, Eq)]
pub struct Texture {
    pub handle: usize,
    pub width: u32,
    pub height: u32,
}

/// An axis-aligned rectangle in pixels.
#[derive(Clone, Copy, Debug, PartialEq, Eq)]
pub struct Rect {
    pub x: i64,
    pub y: i64,
    pub width: i64,
    pub height: i64,
}

/// A point in pixels.
#[derive(Clone, Copy, Debug, PartialEq, Eq)]
pub struct Position {
    pub x: i64,
    pub y: i64,
}

/// One blit: copy `source` of texture `texture` onto `dest`, unrotated,
/// unscaled and untinted.
#[derive(Clone, Copy, Debug, PartialEq, Eq)]
pub struct Blit {
    pub texture: usize,
    pub source: Rect,
    pub dest: Rect,
}

/// One animation cycle, laid out left to right on a sprite sheet, and the
/// timer that steps through it.
pub struct SpriteAnimation {
    pub texture: Texture,
    /// Width of one frame in whole pixels: the sheet's width divided by
    /// the number of frames, rounded down.
    pub frame_width: u32,
    pub num_frames: u32,
    pub current_frame: u32,
    pub frames_counter: u32,
    pub anim_speed: u32,
}

/// The (tick counter, frame index) pair after one more tick.
pub open spec fn tick(counter: nat, frame: nat, num_frames: nat, speed: u32) -> (nat, nat) {
    if counter + 1 >= period(speed) {
        (0, if frame + 1 >= num_frames { 0 } else { frame + 1 })
    } else {
        (counter + 1, frame)
    }
}

/// The (tick counter, frame index) pair after `n` ticks, starting from
/// counter `counter` on frame `frame`.
pub open spec fn ticks_from(counter: nat, frame: nat, n: nat, num_frames: nat, speed: u32) -> (
    nat,
    nat,
)
    decreases n,
{
    if n == 0 {
        (counter, frame)
    } else {
        let prev = ticks_from(counter, frame, (n - 1) as nat, num_frames, speed);
        tick(prev.0, prev.1, num_frames, speed)
    }
}

impl SpriteAnimation {
    /// At least one frame, a positive speed, frames of equal whole-pixel
    /// width, and a frame index and tick counter in range.
    pub open spec fn wf(&self) -> bool {
        &&& self.num_frames >= 1
        &&& self.anim_speed >= 1
        &&& self.frame_width == self.texture.width / self.num_frames
        &&& self.current_frame < self.num_frames
        &&& self.frames_counter < period(self.anim_speed)
    }

    /// Horizontal offset of the current frame on the sheet.
    pub open spec fn frame_x(&self) -> int {
        self.current_frame * self.frame_width
    }

    /// The state of a fresh animation: first frame, no tick counted yet.
    pub open spec fn fresh(sprite: Texture, num_frames: u32, speed: u32) -> SpriteAnimation {
        SpriteAnimation {
            texture: sprite,
            frame_width: (sprite.width / num_frames) as u32,
            num_frames,
            current_frame: 0,
            frames_counter: 0,
            anim_speed: speed,
        }
    }

    /// A fresh animation of `num_frames` equal-width frames on `sprite`,
    /// advancing `speed` frames per second of the 60-tick loop.
    pub fn new(sprite: Texture, num_frames: u32, speed: u32) -> (r: SpriteAnimation)
        requires
            num_frames >= 1,
            speed >= 1,
        ensures
            r.wf(),
            r == SpriteAnimation::fresh(sprite, num_frames, speed),
    {
        let frame_width = sprite.width / num_frames;
        SpriteAnimation {
            texture: sprite,
            frame_width,
            num_frames,
            current_frame: 0,
            frames_counter: 0,
            anim_speed: speed,
        }
    }

    /// One tick: counts it, and on every `period`-th tick moves to the next
    /// frame, wrapping from the last to the first.
    pub fn animate(&mut self)
        requires
            old(self).wf(),
        ensures
            final(self).wf(),
            (final(self).frames_counter as nat, final(self).current_frame as nat) == tick(
                old(self).frames_counter as nat,
                old(self).current_frame as nat,
                old(self).num_frames as nat,
                old(self).anim_speed,
            ),
            final(self).texture == old(self).texture,
            final(self).frame_width == old(self).frame_width,
            final(self).num_frames == old(self).num_frames,
            final(self).anim_speed == old(self).anim_speed,
    {
        self.frames_counter = self.frames_counter + 1;
        let p = TICKS_PER_SECOND / self.anim_speed;
        if self.frames_counter >= p {
            self.frames_counter = 0;
            self.current_frame = self.current_frame + 1;
            if self.current_frame > self.num_frames - 1 {
                self.current_frame = 0;
            }
        }
    }

    /// The part of the sheet that shows the current frame.
    pub fn source_rect(&self) -> (r: Rect)
        requires
            self.wf(),
        ensures
            r.x == self.frame_x(),
            r.y == 0,
            r.width == self.frame_width,
            r.height == self.texture.height,
            0 <= r.x && r.x + r.width <= self.texture.width,
    {
        proof {
            lemma_frame_in_sheet(self.current_frame as nat, self.num_frames as nat, self.texture.width as nat);
        }
        let x = self.current_frame as u64 * self.frame_width as u64;
        Rect {
            x: x as i64,
            y: 0,
            width: self.frame_width as i64,
            height: self.texture.height as i64,
        }
    }

    /// The blit that shows the current frame with its top-left corner at
    /// `pos`, at the frame's own size.
    pub fn draw(&self, pos: Position) -> (r: Blit)
        requires
            self.wf(),
        ensures
            r.texture == self.texture.handle,
            r.source.x == self.frame_x(),
            r.source.y == 0,
            r.source.width == self.frame_width,
            r.source.height == self.texture.height,
            r.dest == (Rect {
                x: pos.x,
                y: pos.y,
                width: self.frame_width as i64,
                height: self.texture.height as i64,
            }),
    {
        let source = self.source_rect();
        let dest = Rect {
            x: pos.x,
            y: pos.y,
            width: self.frame_width as i64,
            height: self.texture.height as i64,
        };
        Blit { texture: self.texture.handle, source, dest }
    }
}

/// Every frame of a sheet split into `num_frames` frames of width
/// `width / num_frames` lies inside the sheet.
pub proof fn lemma_frame_in_sheet(frame: nat, num_frames: nat, width: nat)
    requires
        frame < num_frames,
    ensures
        frame * (width / num_frames) + width / num_frames <= width,
{
    let fw = width / num_frames;
    assert(fw * num_frames <= width) by (nonlinear_arith)
        requires
            fw == width / num_frames,
            num_frames > 0,
    ;
    assert(frame * fw + fw <= num_frames * fw) by (nonlinear_arith)
        requires
            frame < num_frames,
    ;
}

/// From any state in range, `n` ticks later the tick counter reads
/// `(counter + n) mod period` and the frame has moved on by
/// `floor((counter + n) / period)`, wrapping modulo `num_frames`.
pub proof fn lemma_ticks_from(counter: nat, frame: nat, n: nat, num_frames: nat, speed: u32)
    requires
        counter < period(speed),
        frame < num_frames,
    ensures
        ticks_from(counter, frame, n, num_frames, speed) == (
            (counter + n) % period(speed),
            (frame + (counter + n) / period(speed)) % num_frames,
        ),
    decreases n,
{
    let p = period(speed) as int;
    let nf = num_frames as int;
    let t = (counter + n) as int;
    if n == 0 {
        lemma_fundamental_div_mod_converse(t, p, 0, t);
        lemma_fundamental_div_mod_converse(frame as int, nf, 0, frame as int);
    } else {
        lemma_ticks_from(counter, frame, (n - 1) as nat, num_frames, speed);
        let m = t - 1;
        let q = m / p;
        let r = m % p;
        lemma_fundamental_div_mod(m, p);
        let g = frame + q;
        let f = g % nf;
        lemma_fundamental_div_mod(g, nf);
        if r + 1 < p {
            lemma_fundamental_div_mod_converse(t, p, q, r + 1);
        } else {
            assert(t == (q + 1) * p + 0) by (nonlinear_arith)
                requires
                    t == m + 1,
                    m == p * q + r,
                    r + 1 == p,
            ;
            lemma_fundamental_div_mod_converse(t, p, q + 1, 0);
            if f + 1 < nf {
                assert(g + 1 == (g / nf) * nf + (f + 1)) by (nonlinear_arith)
                    requires
                        g == nf * (g / nf) + f,
                ;
                lemma_fundamental_div_mod_converse(g + 1, nf, g / nf, f + 1);
            } else {
                assert(g + 1 == (g / nf + 1) * nf + 0) by (nonlinear_arith)
                    requires
                        g == nf * (g / nf) + f,
                        f + 1 == nf,
                ;
                lemma_fundamental_div_mod_converse(g + 1, nf, g / nf + 1, 0);
            }
        }
    }
}

/// The frame shown after `n` ticks from a fresh start is
/// `floor(n / period) mod num_frames`, and the tick counter then reads
/// `n mod period`.
pub proof fn lemma_frame_after_ticks(n: nat, num_frames: nat, speed: u32)
    requires
        num_frames >= 1,
    ensures
        ticks_from(0, 0, n, num_frames, speed) == (
            n % period(speed),
            (n / period(speed)) % num_frames,
        ),
{
    lemma_ticks_from(0, 0, n, num_frames, speed);
}

/// An animation comes back to the same state every `period * num_frames`
/// ticks, whatever state it starts from.
pub proof fn lemma_cycle_returns(counter: nat, frame: nat, num_frames: nat, speed: u32)
    requires
        counter < period(speed),
        frame < num_frames,
    ensures
        ticks_from(counter, frame, period(speed) * num_frames, num_frames, speed) == (
            counter,
            frame,
        ),
{
    let p = period(speed) as int;
    let nf = num_frames as int;
    let n = period(speed) * num_frames;
    lemma_ticks_from(counter, frame, n, num_frames, speed);
    assert(counter + n == nf * p + counter) by (nonlinear_arith)
        requires
            n == p * nf,
    ;
    lemma_fundamental_div_mod_converse((counter + n) as int, p, nf, counter as int);
    assert(frame + nf == 1 * nf + frame);
    lemma_fundamental_div_mod_converse(frame + nf, nf, 1, frame as int);
}

} // verus!
