//! Static and animated sprites.

use crate::constants::TILE_SIZE;
use crate::graphics::{handle_of, loaded, Blit, DrawCommand, Graphics, ImageHandle};
use crate::units::Milliseconds;
use vstd::arithmetic::div_mod::{
    lemma_basic_div, lemma_div_minus_one, lemma_fundamental_div_mod, lemma_mod_add_multiples_vanish,
    lemma_mod_bound, lemma_small_mod,
};
use vstd::prelude::*;

verus! {

/// An integer pixel box. The four values are held as they are given, a
/// width or height of zero and positions at the ends of `i32` included. A
/// renderer that accepts a narrower range clamps when the program converts
/// the box for it.
#[derive(Clone, Copy, Debug, PartialEq, Eq, Structural)]
pub struct Rect {
    pub x: i32,
    pub y: i32,
    pub width: u32,
    pub height: u32,
}

impl Rect {
    pub fn new(x: i32, y: i32, width: u32, height: u32) -> (rect: Rect)
        ensures
            rect == (Rect { x, y, width, height }),
    {
        Rect { x, y, width, height }
    }
}

/// The blit that shows the region `source` of `image` with its top left
/// corner at `(x, y)`.
pub open spec fn blit_of(image: ImageHandle, source: Rect, x: i32, y: i32) -> Blit {
    Blit {
        image,
        source,
        destination: Rect { x, y, width: source.width, height: source.height },
    }
}

/// Something that can be shown at a position.
pub trait Drawable {
    /// What `draw` asks the renderer to do.
    spec fn blit_at(&self, x: i32, y: i32) -> Blit;

    /// Queues the blit that shows `self` with its top left corner at
    /// `(x, y)`.
    fn draw(&self, graphics: &mut Graphics, x: i32, y: i32)
        ensures
            final(graphics).paths() == old(graphics).paths(),
            final(graphics).pending() == old(graphics).pending().push(
                DrawCommand::Copy(self.blit_at(x, y)),
            ),
    ;
}

/// Something that changes with time.
pub trait Updatable: Sized {
    /// The invariant that `update` needs and keeps.
    spec fn valid(&self) -> bool;

    /// The value after `elapsed_time` has passed.
    spec fn advanced(&self, elapsed_time: Milliseconds) -> Self;

    /// Lets `elapsed_time` pass.
    fn update(&mut self, elapsed_time: Milliseconds)
        requires
            old(self).valid(),
        ensures
            final(self).valid(),
            *final(self) == old(self).advanced(elapsed_time),
    ;
}

/// Both capabilities at once.
pub trait UpdateAndDrawable: Updatable + Drawable {

}

impl<T> UpdateAndDrawable for T where T: Updatable + Drawable {

}

/// A fixed region of a sprite sheet.
#[derive(Clone, Copy, Debug, PartialEq, Eq, Structural)]
pub struct Sprite {
    pub sprite_sheet: ImageHandle,
    pub source_rect: Rect,
}

impl Sprite {
    /// The region `(x, y, width, height)` of the image at `filename`.
    pub fn new(
        graphics: &mut Graphics,
        filename: &str,
        x: i32,
        y: i32,
        width: u32,
        height: u32,
    ) -> (sprite: Sprite)
        requires
            old(graphics).wf(),
        ensures
            final(graphics).wf(),
            final(graphics).paths() == loaded(old(graphics).paths(), filename@),
            final(graphics).pending() == old(graphics).pending(),
            sprite == (Sprite {
                sprite_sheet: handle_of(old(graphics).paths(), filename@),
                source_rect: Rect { x, y, width, height },
            }),
    {
        Sprite { sprite_sheet: graphics.load_image(filename), source_rect: Rect::new(x, y, width, height) }
    }
}

impl Drawable for Sprite {
    open spec fn blit_at(&self, x: i32, y: i32) -> Blit {
        blit_of(self.sprite_sheet, self.source_rect, x, y)
    }

    fn draw(&self, graphics: &mut Graphics, x: i32, y: i32) {
        graphics.blit_surface(
            self.sprite_sheet,
            self.source_rect,
            Rect::new(x, y, self.source_rect.width, self.source_rect.height),
        );
    }
}

impl Updatable for Sprite {
    open spec fn valid(&self) -> bool {
        true
    }

    open spec fn advanced(&self, elapsed_time: Milliseconds) -> Sprite {
        *self
    }

    /// A static sprite does not change.
    fn update(&mut self, elapsed_time: Milliseconds) {
    }
}

/// A row of equally wide frames on a sprite sheet, shown one after the
/// other.
#[derive(Clone, Copy, Debug, PartialEq, Eq, Structural)]
pub struct AnimatedSprite {
    pub sprite_sheet: ImageHandle,
    /// The region of the current frame.
    pub source_rect: Rect,
    /// How long one frame is shown.
    pub frame_time: Milliseconds,
    /// How long the current frame has been shown.
    pub elapsed_time: Milliseconds,
    pub num_frames: u32,
    pub current_frame: u32,
}

impl AnimatedSprite {
    /// The x coordinate of the first frame.
    pub open spec fn origin_x(self) -> int {
        self.source_rect.x - TILE_SIZE * self.current_frame
    }

    /// The current frame is one of the frames, a frame takes time, the time
    /// shown does not exceed a frame's time, and every frame's region has
    /// an x coordinate that fits its type.
    pub open spec fn wf(self) -> bool {
        &&& self.current_frame < self.num_frames
        &&& self.frame_time.0 > 0
        &&& self.elapsed_time.0 <= self.frame_time.0
        &&& i32::MIN <= self.origin_x()
        &&& self.origin_x() + TILE_SIZE * (self.num_frames - 1) <= i32::MAX
    }

    /// The sprite showing its next frame: one tile to the right, or back at
    /// the first frame after the last.
    pub open spec fn next_frame(self) -> AnimatedSprite {
        if self.current_frame + 1 < self.num_frames {
            AnimatedSprite {
                source_rect: Rect { x: (self.source_rect.x + TILE_SIZE) as i32, ..self.source_rect },
                current_frame: (self.current_frame + 1) as u32,
                ..self
            }
        } else {
            AnimatedSprite {
                source_rect: Rect {
                    x: (self.source_rect.x - TILE_SIZE * (self.num_frames - 1)) as i32,
                    ..self.source_rect
                },
                current_frame: 0,
                ..self
            }
        }
    }

    /// The sprite once `pending` milliseconds on the current frame have
    /// been worked off: while more than a frame's time is pending, the
    /// sprite moves to the next frame and a frame's time is taken off.
    pub open spec fn settled(self, pending: int) -> AnimatedSprite
        decreases pending,
    {
        if self.frame_time.0 > 0 && pending > self.frame_time.0 {
            self.next_frame().settled(pending - self.frame_time.0)
        } else {
            AnimatedSprite { elapsed_time: Milliseconds(pending as u32), ..self }
        }
    }

    /// The first of `num_frames` frames, each shown for `1000 / fps`
    /// milliseconds, of the image at `filename`. A frame takes at least a
    /// millisecond, so `fps` is at most 1000.
    pub fn new(
        graphics: &mut Graphics,
        filename: &str,
        x: i32,
        y: i32,
        width: u32,
        height: u32,
        fps: u64,
        num_frames: u32,
    ) -> (sprite: AnimatedSprite)
        requires
            old(graphics).wf(),
            1 <= fps <= 1000,
            num_frames >= 1,
            x + TILE_SIZE * (num_frames - 1) <= i32::MAX,
        ensures
            final(graphics).wf(),
            final(graphics).paths() == loaded(old(graphics).paths(), filename@),
            final(graphics).pending() == old(graphics).pending(),
            sprite.wf(),
            sprite == (AnimatedSprite {
                sprite_sheet: handle_of(old(graphics).paths(), filename@),
                source_rect: Rect { x, y, width, height },
                frame_time: Milliseconds((1000u64 / fps) as u32),
                elapsed_time: Milliseconds(0),
                num_frames,
                current_frame: 0,
            }),
    {
        let per_frame: u64 = 1_000 / fps;
        assert(1 <= per_frame <= 1000) by (nonlinear_arith)
            requires
                1 <= fps <= 1000,
                per_frame == 1000u64 / fps,
        ;
        let frame_time: u32 = per_frame as u32;
        AnimatedSprite {
            sprite_sheet: graphics.load_image(filename),
            source_rect: Rect::new(x, y, width, height),
            frame_time: Milliseconds::new(frame_time),
            elapsed_time: Milliseconds::new(0),
            num_frames,
            current_frame: 0,
        }
    }

    /// Moving to the next frame keeps the invariant and the first frame's
    /// place.
    pub proof fn lemma_next_frame(self)
        requires
            self.wf(),
        ensures
            self.next_frame().wf(),
            self.next_frame().origin_x() == self.origin_x(),
            self.next_frame().num_frames == self.num_frames,
            self.next_frame().frame_time == self.frame_time,
    {
    }

    /// Working off pending time keeps the invariant.
    pub proof fn lemma_settled_wf(self, pending: int)
        requires
            self.wf(),
            0 <= pending,
        ensures
            self.settled(pending).wf(),
            self.settled(pending).origin_x() == self.origin_x(),
            self.settled(pending).num_frames == self.num_frames,
            self.settled(pending).frame_time == self.frame_time,
        decreases pending,
    {
        if pending > self.frame_time.0 {
            self.lemma_next_frame();
            self.next_frame().lemma_settled_wf(pending - self.frame_time.0);
        }
    }
}

impl AnimatedSprite {
    /// The sprite showing frame `index`.
    pub open spec fn at_frame(self, index: int) -> AnimatedSprite {
        AnimatedSprite {
            source_rect: Rect { x: (self.origin_x() + TILE_SIZE * index) as i32, ..self.source_rect },
            current_frame: index as u32,
            ..self
        }
    }

    /// Pending time of `count` whole frames beyond a positive rest moves the
    /// sprite on by `count` frames, as long as the last frame is not passed.
    pub proof fn lemma_skip_frames(self, pending: int, count: int)
        requires
            self.wf(),
            0 < pending,
            0 <= count,
            self.current_frame + count <= self.num_frames - 1,
        ensures
            self.settled(pending + count * self.frame_time.0) == self.at_frame(
                self.current_frame + count,
            ).settled(pending),
        decreases count,
    {
        let frame = self.frame_time.0 as int;
        if count == 0 {
            assert(count * frame == 0) by (nonlinear_arith)
                requires
                    count == 0,
            ;
            assert(self.at_frame(self.current_frame as int) == self);
        } else {
            assert(count * frame == (count - 1) * frame + frame) by (nonlinear_arith);
            assert((count - 1) * frame >= 0) by (nonlinear_arith)
                requires
                    count >= 1,
                    frame > 0,
            ;
            let next = self.next_frame();
            self.lemma_next_frame();
            next.lemma_skip_frames(pending, count - 1);
            assert(next.at_frame(next.current_frame + (count - 1)) == self.at_frame(
                self.current_frame + count,
            ));
            assert(self.settled(pending + count * frame) == next.settled(
                pending + (count - 1) * frame,
            ));
        }
    }

    /// How many frames the sprite moves on when `pending` milliseconds on
    /// the current frame are worked off.
    pub open spec fn frames_due(self, pending: int) -> int {
        if pending <= self.frame_time.0 {
            0
        } else {
            (pending - 1) / (self.frame_time.0 as int)
        }
    }

    /// Working off pending time in one step: the sprite moves on by the
    /// frames that are due, around the cycle, and the rest of the time
    /// stays on the frame it arrives at.
    pub proof fn lemma_settled_in_one_step(self, pending: int)
        requires
            self.wf(),
            0 <= pending,
        ensures
            0 <= self.frames_due(pending),
            0 <= pending - self.frames_due(pending) * self.frame_time.0 <= self.frame_time.0,
            self.settled(pending) == (AnimatedSprite {
                elapsed_time: Milliseconds(
                    (pending - self.frames_due(pending) * self.frame_time.0) as u32,
                ),
                ..self.at_frame((self.current_frame + self.frames_due(pending)) % (self.num_frames as int))
            }),
        decreases pending,
    {
        let frame = self.frame_time.0 as int;
        let count = self.num_frames as int;
        let index = self.current_frame as int;
        if pending <= frame {
            lemma_small_mod(index as nat, count as nat);
            assert(self.frames_due(pending) * frame == 0) by (nonlinear_arith)
                requires
                    self.frames_due(pending) == 0,
            ;
            assert(self.at_frame(index) == self);
        } else {
            let next = self.next_frame();
            let rest = pending - frame;
            self.lemma_next_frame();
            next.lemma_settled_in_one_step(rest);
            let due = self.frames_due(pending);
            let due_next = next.frames_due(rest);
            lemma_div_minus_one(pending - 1, frame);
            assert(-frame + (pending - 1) == rest - 1);
            if rest <= frame {
                lemma_basic_div(rest - 1, frame);
            }
            assert(due == due_next + 1);
            assert(due * frame == due_next * frame + frame) by (nonlinear_arith)
                requires
                    due == due_next + 1,
            ;
            if index + 1 < count {
                assert(next.current_frame + due_next == index + due);
            } else {
                lemma_mod_add_multiples_vanish(due_next, count);
                assert(count + due_next == index + due);
            }
            lemma_mod_bound(index + due, count);
            assert(next.at_frame((index + due) % count) == self.at_frame((index + due) % count));
        }
    }

    /// Round trip: once a frame has been shown for some time, letting as
    /// much time pass as all the frames take together brings back the same
    /// frame, the same region of the sheet and the same time shown.
    pub proof fn lemma_full_cycle(self, elapsed_time: Milliseconds)
        requires
            self.wf(),
            self.elapsed_time.0 > 0,
            elapsed_time.0 == self.num_frames * self.frame_time.0,
        ensures
            self.advanced(elapsed_time) == self,
    {
        let frame = self.frame_time.0 as int;
        let count = self.num_frames as int;
        let index = self.current_frame as int;
        let shown = self.elapsed_time.0 as int;
        assert(count * frame == (index + 1) * frame + (count - 1 - index) * frame)
            by (nonlinear_arith);
        assert((index + 1) * frame == index * frame + frame) by (nonlinear_arith);
        assert(index * frame >= 0) by (nonlinear_arith)
            requires
                index >= 0,
                frame > 0,
        ;
        self.lemma_skip_frames(shown + (index + 1) * frame, count - 1 - index);
        let last = self.at_frame(count - 1);
        let first = last.next_frame();
        assert(first == self.at_frame(0));
        assert(last.settled(shown + (index + 1) * frame) == first.settled(shown + index * frame));
        first.lemma_skip_frames(shown, index);
        assert(first.at_frame(index) == self);
        assert(self.settled(shown) == self);
    }
}

impl Drawable for AnimatedSprite {
    open spec fn blit_at(&self, x: i32, y: i32) -> Blit {
        blit_of(self.sprite_sheet, self.source_rect, x, y)
    }

    fn draw(&self, graphics: &mut Graphics, x: i32, y: i32) {
        graphics.blit_surface(
            self.sprite_sheet,
            self.source_rect,
            Rect::new(x, y, self.source_rect.width, self.source_rect.height),
        );
    }
}

impl Updatable for AnimatedSprite {
    open spec fn valid(&self) -> bool {
        self.wf()
    }

    open spec fn advanced(&self, elapsed_time: Milliseconds) -> AnimatedSprite {
        self.settled(self.elapsed_time.0 + elapsed_time.0)
    }

    /// Adds `elapsed_time` to the time shown and moves on by one frame for
    /// each frame's time that it then exceeds.
    fn update(&mut self, elapsed_time: Milliseconds) {
        let pending: u64 = self.elapsed_time.value() as u64 + elapsed_time.value() as u64;
        let frame_time: u64 = self.frame_time.value() as u64;
        proof {
            self.lemma_settled_in_one_step(pending as int);
        }
        if pending > frame_time {
            let due: u64 = (pending - 1) / frame_time;
            proof {
                lemma_fundamental_div_mod(pending - 1, frame_time as int);
                lemma_mod_bound(pending - 1, frame_time as int);
                assert(frame_time * due == due * frame_time) by (nonlinear_arith);
                lemma_mod_bound(self.current_frame + due, self.num_frames as int);
            }
            let rest: u64 = pending - due * frame_time;
            let index: u64 = (self.current_frame as u64 + due) % (self.num_frames as u64);
            let tile: i64 = TILE_SIZE as i64;
            let origin: i64 = self.source_rect.x as i64 - tile * (self.current_frame as i64);
            self.source_rect.x = (origin + tile * (index as i64)) as i32;
            self.current_frame = index as u32;
            self.elapsed_time = Milliseconds::new(rest as u32);
        } else {
            self.elapsed_time = Milliseconds::new(pending as u32);
        }
    }
}

} // verus!
