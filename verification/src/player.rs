//! The player: kinematics, jump window and motion state.
//!
//! Velocities and accelerations are fixed-point integers, see
//! [`crate::constants::SPEED_SCALE`]. Positions are whole pixels.

use crate::constants::{
    GRAVITY, GROUND_Y, JUMP_SPEED, JUMP_TIME, MAX_SPEED, MAX_SPEED_Y, SLOW_DOWN, SPEED_SCALE,
    TILE_SIZE, WALKING_ACCELERATION,
};
use crate::graphics::{
    handle_of, lemma_load_again, loaded, Blit, DrawCommand, Graphics, ImageHandle,
};
use crate::sprite::{AnimatedSprite, Drawable, Rect, Sprite, Updatable};
use crate::units::Milliseconds;
use vstd::prelude::*;

verus! {

/// What the player is doing.
#[derive(Clone, Copy, Debug, PartialEq, Eq, Structural, PartialOrd, Ord)]
pub enum MotionType {
    Standing,
    Walking,
    Jumping,
    Falling,
}

/// Which way the player faces.
#[derive(Clone, Copy, Debug, PartialEq, Eq, Structural, PartialOrd, Ord)]
pub enum HorizontalFacing {
    Left,
    Right,
}

/// Where the player looks.
#[derive(Clone, Copy, Debug, PartialEq, Eq, Structural, PartialOrd, Ord)]
pub enum VerticalFacing {
    Up,
    Forward,
    Down,
}

/// Selects the visual that shows the player.
#[derive(Clone, Copy, Debug, PartialEq, Eq, Structural, PartialOrd, Ord)]
pub struct SpriteState {
    pub motion_type: MotionType,
    pub horizontal_facing: HorizontalFacing,
    pub vertical_facing: VerticalFacing,
}

/// How many sprite states there are.
pub const SPRITE_STATES: usize = 24;

impl SpriteState {
    /// The place of the state in a table of all states.
    pub open spec fn slot_index(self) -> int {
        let motion: int = match self.motion_type {
            MotionType::Standing => 0,
            MotionType::Walking => 1,
            MotionType::Jumping => 2,
            MotionType::Falling => 3,
        };
        let horizontal: int = match self.horizontal_facing {
            HorizontalFacing::Left => 0,
            HorizontalFacing::Right => 1,
        };
        let vertical: int = match self.vertical_facing {
            VerticalFacing::Up => 0,
            VerticalFacing::Forward => 1,
            VerticalFacing::Down => 2,
        };
        motion * 6 + horizontal * 3 + vertical
    }

    pub fn new(
        motion_type: MotionType,
        horizontal_facing: HorizontalFacing,
        vertical_facing: VerticalFacing,
    ) -> (state: SpriteState)
        ensures
            state == (SpriteState { motion_type, horizontal_facing, vertical_facing }),
    {
        SpriteState { motion_type, horizontal_facing, vertical_facing }
    }

    /// Standing, facing left, looking forward.
    pub fn default() -> (state: SpriteState)
        ensures
            state == (SpriteState {
                motion_type: MotionType::Standing,
                horizontal_facing: HorizontalFacing::Left,
                vertical_facing: VerticalFacing::Forward,
            }),
    {
        SpriteState {
            motion_type: MotionType::Standing,
            horizontal_facing: HorizontalFacing::Left,
            vertical_facing: VerticalFacing::Forward,
        }
    }

    /// The place of the state in a table of all states.
    pub fn slot(self) -> (index: usize)
        ensures
            index == self.slot_index(),
            index < SPRITE_STATES,
    {
        let motion: usize = match self.motion_type {
            MotionType::Standing => 0,
            MotionType::Walking => 1,
            MotionType::Jumping => 2,
            MotionType::Falling => 3,
        };
        let horizontal: usize = match self.horizontal_facing {
            HorizontalFacing::Left => 0,
            HorizontalFacing::Right => 1,
        };
        let vertical: usize = match self.vertical_facing {
            VerticalFacing::Up => 0,
            VerticalFacing::Forward => 1,
            VerticalFacing::Down => 2,
        };
        motion * 6 + horizontal * 3 + vertical
    }

    /// Different states have different places.
    pub proof fn lemma_slots_differ(self, other: SpriteState)
        ensures
            0 <= self.slot_index() < SPRITE_STATES,
            self.slot_index() == other.slot_index() ==> self == other,
    {
    }
}

/// The window of time in which a jump keeps gravity off.
#[derive(Clone, Copy, Debug, PartialEq, Eq, Structural)]
pub struct Jump {
    pub time_remaining: Milliseconds,
    pub active: bool,
}

impl Jump {
    /// An active jump has time left.
    pub open spec fn wf(self) -> bool {
        self.active ==> self.time_remaining.0 > 0
    }

    /// The jump after `elapsed_time`: an active jump loses that much of its
    /// time, and ends when none is left; an inactive one stays as it is.
    pub open spec fn advanced(self, elapsed_time: Milliseconds) -> Jump {
        if !self.active {
            self
        } else if self.time_remaining.0 > elapsed_time.0 {
            Jump { time_remaining: self.time_remaining.minus(elapsed_time), active: true }
        } else {
            Jump { time_remaining: Milliseconds(0), active: false }
        }
    }

    /// The jump taken up again: active exactly if time is left.
    pub open spec fn reactivated(self) -> Jump {
        Jump { time_remaining: self.time_remaining, active: self.time_remaining.0 > 0 }
    }

    /// The jump cut short.
    pub open spec fn deactivated(self) -> Jump {
        Jump { time_remaining: self.time_remaining, active: false }
    }

    /// A fresh jump with the whole window ahead.
    pub open spec fn fresh() -> Jump {
        Jump { time_remaining: Milliseconds(JUMP_TIME), active: true }
    }

    pub fn new() -> (jump: Jump)
        ensures
            jump == (Jump { time_remaining: Milliseconds(0), active: false }),
            jump.wf(),
    {
        Jump { time_remaining: Milliseconds::new(0), active: false }
    }

    /// Counts the window down by `elapsed_time`, never below zero.
    pub fn update(&mut self, elapsed_time: Milliseconds)
        ensures
            *final(self) == old(self).advanced(elapsed_time),
            final(self).wf(),
            final(self).time_remaining.0 <= old(self).time_remaining.0,
            final(self).time_remaining.0 == 0 ==> !final(self).active,
    {
        if self.active {
            if self.time_remaining.longer_than(elapsed_time) {
                self.time_remaining = self.time_remaining - elapsed_time;
            } else {
                self.time_remaining = Milliseconds::new(0);
                self.active = false;
            }
        }
    }

    pub fn active(&self) -> (active: bool)
        ensures
            active == self.active,
    {
        self.active
    }

    /// Starts a fresh jump.
    pub fn reset(&mut self)
        ensures
            *final(self) == Jump::fresh(),
            final(self).wf(),
    {
        self.time_remaining = Milliseconds::new(JUMP_TIME);
        self.reactivate();
    }

    /// Takes the jump up again if its window is not used up.
    pub fn reactivate(&mut self)
        ensures
            *final(self) == old(self).reactivated(),
            final(self).wf(),
    {
        self.active = self.time_remaining.longer_than(Milliseconds::new(0));
    }

    /// Cuts the jump short.
    pub fn deactivate(&mut self)
        ensures
            *final(self) == old(self).deactivated(),
            final(self).wf(),
    {
        self.active = false;
    }

    /// A jump whose window is used up is inactive, and neither the passing
    /// of time nor taking it up again nor cutting it short changes it: only
    /// a fresh jump is active again.
    pub proof fn lemma_exhausted_stays_inactive(self, elapsed_time: Milliseconds)
        requires
            self.wf(),
            self.time_remaining.0 == 0,
        ensures
            !self.active,
            self.advanced(elapsed_time) == self,
            self.reactivated() == self,
            self.deactivated() == self,
    {
    }
}

/// What shows the player in one sprite state: a fixed tile or a cycle of
/// tiles.
#[derive(Clone, Copy, Debug, PartialEq, Eq, Structural)]
pub enum Visual {
    Static(Sprite),
    Animated(AnimatedSprite),
}

impl Drawable for Visual {
    open spec fn blit_at(&self, x: i32, y: i32) -> Blit {
        match *self {
            Visual::Static(sprite) => sprite.blit_at(x, y),
            Visual::Animated(sprite) => sprite.blit_at(x, y),
        }
    }

    fn draw(&self, graphics: &mut Graphics, x: i32, y: i32) {
        match self {
            Visual::Static(sprite) => sprite.draw(graphics, x, y),
            Visual::Animated(sprite) => sprite.draw(graphics, x, y),
        }
    }
}

impl Updatable for Visual {
    open spec fn valid(&self) -> bool {
        match *self {
            Visual::Static(sprite) => sprite.valid(),
            Visual::Animated(sprite) => sprite.valid(),
        }
    }

    open spec fn advanced(&self, elapsed_time: Milliseconds) -> Visual {
        match *self {
            Visual::Static(sprite) => Visual::Static(sprite.advanced(elapsed_time)),
            Visual::Animated(sprite) => Visual::Animated(sprite.advanced(elapsed_time)),
        }
    }

    fn update(&mut self, elapsed_time: Milliseconds) {
        match *self {
            Visual::Static(sprite) => {
                let mut next = sprite;
                next.update(elapsed_time);
                *self = Visual::Static(next);
            },
            Visual::Animated(sprite) => {
                let mut next = sprite;
                next.update(elapsed_time);
                *self = Visual::Animated(next);
            },
        }
    }
}

/// Why the player could not be drawn.
#[derive(Clone, Copy, Debug, PartialEq, Eq, Structural)]
pub enum DrawError {
    /// No visual is registered for the sprite state.
    MissingVisualAsset(SpriteState),
}

/// The pixels covered in `elapsed` milliseconds at `velocity`: the product,
/// rounded to the nearest whole pixel, halves away from zero.
pub open spec fn displacement(velocity: int, elapsed: int) -> int {
    let product = velocity * elapsed;
    if product >= 0 {
        (product + SPEED_SCALE / 2) / (SPEED_SCALE as int)
    } else {
        -((-product + SPEED_SCALE / 2) / (SPEED_SCALE as int))
    }
}

/// `velocity` times the slow-down factor, rounded toward zero.
pub open spec fn slowed(velocity: int) -> int {
    if velocity >= 0 {
        velocity * SLOW_DOWN / (SPEED_SCALE as int)
    } else {
        -((-velocity) * SLOW_DOWN / (SPEED_SCALE as int))
    }
}

/// The horizontal velocity after a tick of `elapsed` milliseconds:
/// accelerated up to the largest speed in the direction of the
/// acceleration, or, without acceleration, slowed down on the ground and
/// kept in the air.
pub open spec fn next_velocity_x(
    velocity: int,
    acceleration: int,
    on_ground: bool,
    elapsed: int,
) -> int {
    if acceleration < 0 {
        if velocity + acceleration * elapsed < -MAX_SPEED {
            -MAX_SPEED as int
        } else {
            velocity + acceleration * elapsed
        }
    } else if acceleration > 0 {
        if velocity + acceleration * elapsed > MAX_SPEED {
            MAX_SPEED as int
        } else {
            velocity + acceleration * elapsed
        }
    } else if on_ground {
        slowed(velocity)
    } else {
        velocity
    }
}

/// The vertical velocity after a tick of `elapsed` milliseconds off the
/// ground: gravity pulls, up to the largest falling speed, unless a jump is
/// active.
pub open spec fn next_velocity_y(velocity: int, jump_active: bool, elapsed: int) -> int {
    if jump_active {
        velocity
    } else if velocity + GRAVITY * elapsed > MAX_SPEED_Y {
        MAX_SPEED_Y as int
    } else {
        velocity + GRAVITY * elapsed
    }
}

/// The sprite state of a player with the given acceleration, ground
/// contact and vertical velocity: walking in the direction of the
/// acceleration, else standing with the facing kept; in the air, jumping
/// while rising and falling while sinking. Where the player looks is kept.
pub open spec fn derived_state(
    previous: SpriteState,
    acceleration: int,
    on_ground: bool,
    velocity_y: int,
) -> SpriteState {
    SpriteState {
        motion_type: if !on_ground && velocity_y < 0 {
            MotionType::Jumping
        } else if !on_ground && velocity_y > 0 {
            MotionType::Falling
        } else if acceleration != 0 {
            MotionType::Walking
        } else {
            MotionType::Standing
        },
        horizontal_facing: if acceleration < 0 {
            HorizontalFacing::Left
        } else if acceleration > 0 {
            HorizontalFacing::Right
        } else {
            previous.horizontal_facing
        },
        vertical_facing: previous.vertical_facing,
    }
}

/// The horizontal speed stays within the largest speed, whatever the
/// acceleration and however long the tick.
pub proof fn lemma_velocity_x_bounded(velocity: int, acceleration: int, on_ground: bool, elapsed: int)
    requires
        -MAX_SPEED <= velocity <= MAX_SPEED,
        0 <= elapsed,
    ensures
        -MAX_SPEED <= next_velocity_x(velocity, acceleration, on_ground, elapsed) <= MAX_SPEED,
        acceleration == 0 && velocity >= 0 ==> 0 <= next_velocity_x(
            velocity,
            acceleration,
            on_ground,
            elapsed,
        ) <= velocity,
        acceleration == 0 && velocity <= 0 ==> velocity <= next_velocity_x(
            velocity,
            acceleration,
            on_ground,
            elapsed,
        ) <= 0,
        acceleration > 0 ==> velocity <= next_velocity_x(velocity, acceleration, on_ground, elapsed),
        acceleration < 0 ==> next_velocity_x(velocity, acceleration, on_ground, elapsed) <= velocity,
{
    assert(acceleration > 0 ==> acceleration * elapsed >= 0) by (nonlinear_arith)
        requires
            0 <= elapsed,
    ;
    assert(acceleration < 0 ==> acceleration * elapsed <= 0) by (nonlinear_arith)
        requires
            0 <= elapsed,
    ;
}

/// The horizontal velocity after a run of ticks of the given lengths, with
/// the acceleration and the ground contact of each tick.
pub open spec fn velocity_x_after_ticks(
    velocity: int,
    accelerations: Seq<int>,
    on_ground: Seq<bool>,
    ticks: Seq<nat>,
) -> int
    recommends
        accelerations.len() == ticks.len(),
        on_ground.len() == ticks.len(),
    decreases ticks.len(),
{
    if ticks.len() == 0 {
        velocity
    } else {
        next_velocity_x(
            velocity_x_after_ticks(
                velocity,
                accelerations.drop_last(),
                on_ground.drop_last(),
                ticks.drop_last(),
            ),
            accelerations.last(),
            on_ground.last(),
            ticks.last() as int,
        )
    }
}

/// However many ticks pass, and whatever the acceleration in each, the
/// horizontal speed stays within the largest speed.
pub proof fn lemma_velocity_x_bounded_over_ticks(
    velocity: int,
    accelerations: Seq<int>,
    on_ground: Seq<bool>,
    ticks: Seq<nat>,
)
    requires
        -MAX_SPEED <= velocity <= MAX_SPEED,
    ensures
        -MAX_SPEED <= velocity_x_after_ticks(velocity, accelerations, on_ground, ticks)
            <= MAX_SPEED,
    decreases ticks.len(),
{
    if ticks.len() > 0 {
        lemma_velocity_x_bounded_over_ticks(
            velocity,
            accelerations.drop_last(),
            on_ground.drop_last(),
            ticks.drop_last(),
        );
        lemma_velocity_x_bounded(
            velocity_x_after_ticks(
                velocity,
                accelerations.drop_last(),
                on_ground.drop_last(),
                ticks.drop_last(),
            ),
            accelerations.last(),
            on_ground.last(),
            ticks.last() as int,
        );
    }
}

/// Walking on: while every tick accelerates to the right, the horizontal
/// velocity never drops below where it began and never exceeds the largest
/// speed, however many ticks pass; to the left likewise.
pub proof fn lemma_speed_up_over_ticks(
    velocity: int,
    accelerations: Seq<int>,
    on_ground: Seq<bool>,
    ticks: Seq<nat>,
)
    requires
        -MAX_SPEED <= velocity <= MAX_SPEED,
        accelerations.len() == ticks.len(),
    ensures
        (forall|i: int| 0 <= i < accelerations.len() ==> accelerations[i] > 0) ==> velocity
            <= velocity_x_after_ticks(velocity, accelerations, on_ground, ticks) <= MAX_SPEED,
        (forall|i: int| 0 <= i < accelerations.len() ==> accelerations[i] < 0) ==> -MAX_SPEED
            <= velocity_x_after_ticks(velocity, accelerations, on_ground, ticks) <= velocity,
    decreases ticks.len(),
{
    if ticks.len() > 0 {
        let before = velocity_x_after_ticks(
            velocity,
            accelerations.drop_last(),
            on_ground.drop_last(),
            ticks.drop_last(),
        );
        assert forall|i: int| 0 <= i < accelerations.drop_last().len() implies accelerations.drop_last()[i]
            == accelerations[i] by {}
        lemma_speed_up_over_ticks(
            velocity,
            accelerations.drop_last(),
            on_ground.drop_last(),
            ticks.drop_last(),
        );
        lemma_velocity_x_bounded_over_ticks(
            velocity,
            accelerations.drop_last(),
            on_ground.drop_last(),
            ticks.drop_last(),
        );
        lemma_velocity_x_bounded(
            before,
            accelerations.last(),
            on_ground.last(),
            ticks.last() as int,
        );
    }
}

/// Slowing down: while no tick accelerates, the horizontal velocity never
/// changes its sign and never grows in size, however many ticks pass.
pub proof fn lemma_slow_down_over_ticks(
    velocity: int,
    accelerations: Seq<int>,
    on_ground: Seq<bool>,
    ticks: Seq<nat>,
)
    requires
        -MAX_SPEED <= velocity <= MAX_SPEED,
        accelerations.len() == ticks.len(),
        forall|i: int| 0 <= i < accelerations.len() ==> accelerations[i] == 0,
    ensures
        velocity >= 0 ==> 0 <= velocity_x_after_ticks(velocity, accelerations, on_ground, ticks)
            <= velocity,
        velocity <= 0 ==> velocity <= velocity_x_after_ticks(
            velocity,
            accelerations,
            on_ground,
            ticks,
        ) <= 0,
    decreases ticks.len(),
{
    if ticks.len() > 0 {
        let before = velocity_x_after_ticks(
            velocity,
            accelerations.drop_last(),
            on_ground.drop_last(),
            ticks.drop_last(),
        );
        assert forall|i: int| 0 <= i < accelerations.drop_last().len() implies accelerations.drop_last()[i]
            == 0 by {
            assert(accelerations.drop_last()[i] == accelerations[i]);
        }
        lemma_slow_down_over_ticks(
            velocity,
            accelerations.drop_last(),
            on_ground.drop_last(),
            ticks.drop_last(),
        );
        lemma_velocity_x_bounded(
            before,
            accelerations.last(),
            on_ground.last(),
            ticks.last() as int,
        );
    }
}

/// Whenever gravity acts, that is whenever no jump is active, the vertical
/// speed after the tick does not exceed the largest falling speed, whatever
/// it was before. A speed within that limit stays within it, and no tick
/// makes the player rise faster.
pub proof fn lemma_velocity_y_bounded(velocity: int, jump_active: bool, elapsed: int)
    requires
        0 <= elapsed,
    ensures
        !jump_active ==> next_velocity_y(velocity, jump_active, elapsed) <= MAX_SPEED_Y,
        velocity <= MAX_SPEED_Y ==> velocity <= next_velocity_y(velocity, jump_active, elapsed)
            <= MAX_SPEED_Y,
{
}

/// The bounds of a displacement at a speed within `limit`.
pub proof fn lemma_displacement_bounded(velocity: int, elapsed: int, limit: int)
    requires
        -limit <= velocity <= limit,
        0 <= elapsed,
    ensures
        -(limit * elapsed + SPEED_SCALE / 2) / (SPEED_SCALE as int) - 1 <= displacement(velocity, elapsed),
        displacement(velocity, elapsed) <= (limit * elapsed + SPEED_SCALE / 2) / (SPEED_SCALE as int),
        velocity >= 0 ==> displacement(velocity, elapsed) >= 0,
        velocity <= 0 ==> displacement(velocity, elapsed) <= 0,
{
    assert(-(limit * elapsed) <= velocity * elapsed <= limit * elapsed) by (nonlinear_arith)
        requires
            -limit <= velocity <= limit,
            0 <= elapsed,
    ;
    assert(velocity >= 0 ==> velocity * elapsed >= 0) by (nonlinear_arith)
        requires
            0 <= elapsed,
    ;
    assert(velocity <= 0 ==> velocity * elapsed <= 0) by (nonlinear_arith)
        requires
            0 <= elapsed,
    ;
}

/// The executable form of [`displacement`], for speeds within the largest
/// speed.
pub fn displacement_of(velocity: i64, elapsed: u32) -> (pixels: i64)
    requires
        -MAX_SPEED <= velocity <= MAX_SPEED,
    ensures
        pixels == displacement(velocity as int, elapsed as int),
        -1_395_864_372 <= pixels <= 1_395_864_371,
{
    proof {
        lemma_displacement_bounded(velocity as int, elapsed as int, MAX_SPEED as int);
        assert(0 <= MAX_SPEED * elapsed <= 325_000 * 4_294_967_295) by (nonlinear_arith)
            requires
                0 <= elapsed <= 4_294_967_295,
                MAX_SPEED == 325_000,
        ;
        assert(-(MAX_SPEED * elapsed) <= velocity * elapsed <= MAX_SPEED * elapsed) by (nonlinear_arith)
            requires
                -MAX_SPEED <= velocity <= MAX_SPEED,
                0 <= elapsed,
        ;
    }
    let product: i64 = velocity * (elapsed as i64);
    if product >= 0 {
        (product + SPEED_SCALE / 2) / SPEED_SCALE
    } else {
        -((-product + SPEED_SCALE / 2) / SPEED_SCALE)
    }
}

/// The executable form of [`next_velocity_x`].
pub fn velocity_x_after(velocity: i64, acceleration: i64, on_ground: bool, elapsed: u32) -> (next: i64)
    requires
        -MAX_SPEED <= velocity <= MAX_SPEED,
        -WALKING_ACCELERATION <= acceleration <= WALKING_ACCELERATION,
    ensures
        next == next_velocity_x(velocity as int, acceleration as int, on_ground, elapsed as int),
        -MAX_SPEED <= next <= MAX_SPEED,
{
    proof {
        lemma_velocity_x_bounded(velocity as int, acceleration as int, on_ground, elapsed as int);
        assert(-(1_200 * 4_294_967_295) <= acceleration * elapsed <= 1_200 * 4_294_967_295)
            by (nonlinear_arith)
            requires
                -1_200 <= acceleration <= 1_200,
                0 <= elapsed <= 4_294_967_295,
        ;
    }
    if acceleration < 0 {
        let raw: i64 = velocity + acceleration * (elapsed as i64);
        if raw < -MAX_SPEED {
            -MAX_SPEED
        } else {
            raw
        }
    } else if acceleration > 0 {
        let raw: i64 = velocity + acceleration * (elapsed as i64);
        if raw > MAX_SPEED {
            MAX_SPEED
        } else {
            raw
        }
    } else if on_ground {
        if velocity >= 0 {
            velocity * SLOW_DOWN / SPEED_SCALE
        } else {
            -((-velocity) * SLOW_DOWN / SPEED_SCALE)
        }
    } else {
        velocity
    }
}

/// The executable form of [`next_velocity_y`].
pub fn velocity_y_after(velocity: i64, jump_active: bool, elapsed: u32) -> (next: i64)
    requires
        -JUMP_SPEED <= velocity <= MAX_SPEED_Y,
    ensures
        next == next_velocity_y(velocity as int, jump_active, elapsed as int),
        velocity <= next <= MAX_SPEED_Y,
{
    if jump_active {
        velocity
    } else {
        let raw: i64 = velocity + GRAVITY * (elapsed as i64);
        if raw > MAX_SPEED_Y {
            MAX_SPEED_Y
        } else {
            raw
        }
    }
}

/// The path of the sheet that holds the player's tiles.
pub open spec fn sheet_path() -> Seq<char> {
    "content/MyChar.bmp"@
}

/// Which character of the sheet shows the player.
pub const PLAYER_CHARACTER: u32 = 10;

/// Frames per second of the walking cycle.
pub const WALKING_FPS: u64 = 10;

/// Number of frames of the walking cycle.
pub const WALKING_FRAMES: u32 = 3;

/// The tile column of the first tile of a row of motions, by where the
/// player looks.
pub open spec fn look_column(vertical_facing: VerticalFacing) -> int {
    match vertical_facing {
        VerticalFacing::Forward => 0,
        VerticalFacing::Up => 3,
        VerticalFacing::Down => 6,
    }
}

/// The tile row of a character, by the way it faces.
pub open spec fn facing_row(nth_character: int, horizontal_facing: HorizontalFacing) -> int {
    match horizontal_facing {
        HorizontalFacing::Left => nth_character * 2,
        HorizontalFacing::Right => nth_character * 2 + 1,
    }
}

/// The visual of a motion whose row of tiles starts at tile
/// `(x_tile_offset, y_tile_offset)` of the image `sheet`: the walking cycle
/// starts at the first tile, which also shows standing; the next tile
/// shows jumping and the one after it falling.
pub open spec fn motion_visual(
    sheet: ImageHandle,
    x_tile_offset: int,
    y_tile_offset: int,
    motion_type: MotionType,
) -> Visual {
    let column = match motion_type {
        MotionType::Walking => x_tile_offset,
        MotionType::Standing => x_tile_offset,
        MotionType::Jumping => x_tile_offset + 1,
        MotionType::Falling => x_tile_offset + 2,
    };
    let source_rect = Rect {
        x: (column * TILE_SIZE) as i32,
        y: (y_tile_offset * TILE_SIZE) as i32,
        width: TILE_SIZE,
        height: TILE_SIZE,
    };
    match motion_type {
        MotionType::Walking => Visual::Animated(
            AnimatedSprite {
                sprite_sheet: sheet,
                source_rect,
                frame_time: Milliseconds(100),
                elapsed_time: Milliseconds(0),
                num_frames: WALKING_FRAMES,
                current_frame: 0,
            },
        ),
        _ => Visual::Static(Sprite { sprite_sheet: sheet, source_rect }),
    }
}

/// The visual that shows the character `nth_character` of the image
/// `sheet` in `state`.
pub open spec fn character_visual(sheet: ImageHandle, nth_character: int, state: SpriteState) -> Visual {
    motion_visual(
        sheet,
        look_column(state.vertical_facing),
        facing_row(nth_character, state.horizontal_facing),
        state.motion_type,
    )
}

/// The player character.
pub struct Player {
    /// The visual of each sprite state, by [`SpriteState::slot_index`].
    pub sprites: Vec<Option<Visual>>,
    pub sprite_state: SpriteState,
    pub x: i32,
    pub y: i32,
    pub velocity_x: i64,
    pub acceleration_x: i64,
    pub velocity_y: i64,
    pub is_on_ground: bool,
    pub jump: Jump,
}

/// A table with a place for every sprite state, where each visual that is
/// there is valid.
pub open spec fn table_wf(sprites: Seq<Option<Visual>>) -> bool {
    &&& sprites.len() == SPRITE_STATES
    &&& forall|i: int|
        0 <= i < sprites.len() ==> match #[trigger] sprites[i] {
            Some(visual) => visual.valid(),
            None => true,
        }
}

/// The table after `elapsed_time` has passed for the visual of `state`.
pub open spec fn table_advanced(
    sprites: Seq<Option<Visual>>,
    state: SpriteState,
    elapsed_time: Milliseconds,
) -> Seq<Option<Visual>> {
    match sprites[state.slot_index()] {
        Some(visual) => sprites.update(state.slot_index(), Some(visual.advanced(elapsed_time))),
        None => sprites,
    }
}

impl Player {
    /// The table has a place for every sprite state, the speeds and the
    /// acceleration are within their limits, and the jump is well formed.
    pub open spec fn wf(&self) -> bool {
        &&& table_wf(self.sprites@)
        &&& -MAX_SPEED <= self.velocity_x <= MAX_SPEED
        &&& -WALKING_ACCELERATION <= self.acceleration_x <= WALKING_ACCELERATION
        &&& -JUMP_SPEED <= self.velocity_y <= MAX_SPEED_Y
        &&& self.jump.wf()
    }

    /// The position after a tick of `elapsed_time` fits the coordinates'
    /// type.
    pub open spec fn update_fits(&self, elapsed_time: Milliseconds) -> bool {
        &&& i32::MIN <= self.x + displacement(self.velocity_x as int, elapsed_time.0 as int)
            <= i32::MAX
        &&& i32::MIN <= self.y + displacement(self.velocity_y as int, elapsed_time.0 as int)
    }

    /// Whether [`Player::update`] may be called with `elapsed_time`.
    pub fn can_update(&self, elapsed_time: Milliseconds) -> (fits: bool)
        requires
            self.wf(),
        ensures
            fits == self.update_fits(elapsed_time),
    {
        let x: i64 = self.x as i64 + displacement_of(self.velocity_x, elapsed_time.value());
        let y: i64 = self.y as i64 + displacement_of(self.velocity_y, elapsed_time.value());
        -2_147_483_648 <= x && x <= 2_147_483_647 && -2_147_483_648 <= y
    }

    /// Whether `next` is the player one tick of `elapsed_time` after `self`:
    /// the jump window has counted down; the position has moved by the old
    /// velocities; the horizontal velocity has followed the acceleration;
    /// at or below the ground line the player has landed, with no vertical
    /// velocity left, and above it gravity has pulled unless the jump is
    /// active; the sprite state is derived anew and its visual has advanced.
    pub open spec fn steps_to(&self, next: &Player, elapsed_time: Milliseconds) -> bool {
        &&& next.jump == self.jump.advanced(elapsed_time)
        &&& next.x == self.x + displacement(
                self.velocity_x as int,
                elapsed_time.0 as int,
            )
        &&& next.acceleration_x == self.acceleration_x
        &&& next.velocity_x == next_velocity_x(
                self.velocity_x as int,
                self.acceleration_x as int,
                self.is_on_ground,
                elapsed_time.0 as int,
            )
        &&& next.is_on_ground == (self.y + displacement(
                self.velocity_y as int,
                elapsed_time.0 as int,
            ) >= GROUND_Y)
        &&& next.y == if next.is_on_ground {
                GROUND_Y as int
            } else {
                self.y + displacement(self.velocity_y as int, elapsed_time.0 as int)
            }
        &&& next.velocity_y == if next.is_on_ground {
                0
            } else {
                next_velocity_y(
                    self.velocity_y as int,
                    next.jump.active,
                    elapsed_time.0 as int,
                )
            }
        &&& next.sprite_state == derived_state(
                self.sprite_state,
                next.acceleration_x as int,
                next.is_on_ground,
                next.velocity_y as int,
            )
        &&& next.sprites@ == table_advanced(
                self.sprites@,
                next.sprite_state,
                elapsed_time,
            )
    }

    /// After a tick the player is on the ground exactly if it is at the
    /// ground line, and never below it; on the ground it has no vertical
    /// velocity and stands or walks; in the air it jumps while it rises and
    /// falls while it sinks. The speeds stay within their limits.
    pub proof fn lemma_tick_outcome(&self, next: &Player, elapsed_time: Milliseconds)
        requires
            self.wf(),
            self.steps_to(next, elapsed_time),
        ensures
            next.y <= GROUND_Y,
            next.is_on_ground <==> next.y == GROUND_Y,
            next.is_on_ground ==> next.velocity_y == 0,
            next.is_on_ground ==> next.sprite_state.motion_type == MotionType::Standing
                || next.sprite_state.motion_type == MotionType::Walking,
            !next.is_on_ground && next.velocity_y < 0 ==> next.sprite_state.motion_type
                == MotionType::Jumping,
            !next.is_on_ground && next.velocity_y > 0 ==> next.sprite_state.motion_type
                == MotionType::Falling,
            -MAX_SPEED <= next.velocity_x <= MAX_SPEED,
            -JUMP_SPEED <= next.velocity_y <= MAX_SPEED_Y,
            next.jump.wf(),
            next.jump.time_remaining.0 <= self.jump.time_remaining.0,
    {
        lemma_velocity_x_bounded(
            self.velocity_x as int,
            self.acceleration_x as int,
            self.is_on_ground,
            elapsed_time.0 as int,
        );
        lemma_velocity_y_bounded(
            self.velocity_y as int,
            next.jump.active,
            elapsed_time.0 as int,
        );
    }

    /// A tick that carries the player to the ground line or beyond it
    /// lands the player: it is put exactly on the ground line, its vertical
    /// velocity is gone, it counts as on the ground, and it is shown walking
    /// if it accelerates and standing if not. Any other tick leaves it in
    /// the air at the place the old velocity carried it to.
    pub proof fn lemma_landing(&self, next: &Player, elapsed_time: Milliseconds)
        requires
            self.wf(),
            self.steps_to(next, elapsed_time),
        ensures
            self.y + displacement(self.velocity_y as int, elapsed_time.0 as int) >= GROUND_Y ==> {
                &&& next.y == GROUND_Y
                &&& next.velocity_y == 0
                &&& next.is_on_ground
                &&& next.sprite_state.motion_type == if self.acceleration_x != 0 {
                    MotionType::Walking
                } else {
                    MotionType::Standing
                }
            },
            self.y + displacement(self.velocity_y as int, elapsed_time.0 as int) < GROUND_Y ==> {
                &&& next.y == self.y + displacement(
                    self.velocity_y as int,
                    elapsed_time.0 as int,
                )
                &&& !next.is_on_ground
            },
    {
    }

    /// The horizontal velocity over a tick. Under acceleration to the right
    /// it grows by the acceleration times the elapsed time, up to the
    /// largest speed and never beyond it; to the left likewise. Without
    /// acceleration it is multiplied by the slow-down factor on the ground,
    /// which keeps its sign and does not make it larger, and kept in the
    /// air.
    pub proof fn lemma_walking_tick(&self, next: &Player, elapsed_time: Milliseconds)
        requires
            self.wf(),
            self.steps_to(next, elapsed_time),
        ensures
            self.acceleration_x > 0 ==> {
                &&& self.velocity_x <= next.velocity_x <= MAX_SPEED
                &&& next.velocity_x == if self.velocity_x + self.acceleration_x * elapsed_time.0
                    > MAX_SPEED {
                    MAX_SPEED as int
                } else {
                    self.velocity_x + self.acceleration_x * elapsed_time.0
                }
            },
            self.acceleration_x < 0 ==> {
                &&& -MAX_SPEED <= next.velocity_x <= self.velocity_x
                &&& next.velocity_x == if self.velocity_x + self.acceleration_x * elapsed_time.0
                    < -MAX_SPEED {
                    -MAX_SPEED as int
                } else {
                    self.velocity_x + self.acceleration_x * elapsed_time.0
                }
            },
            self.acceleration_x == 0 && self.is_on_ground ==> {
                &&& next.velocity_x == slowed(self.velocity_x as int)
                &&& self.velocity_x >= 0 ==> 0 <= next.velocity_x <= self.velocity_x
                &&& self.velocity_x <= 0 ==> self.velocity_x <= next.velocity_x <= 0
                &&& self.velocity_x >= 0 ==> next.velocity_x == self.velocity_x * SLOW_DOWN
                    / (SPEED_SCALE as int)
            },
            self.acceleration_x == 0 && !self.is_on_ground ==> next.velocity_x
                == self.velocity_x,
    {
        lemma_velocity_x_bounded(
            self.velocity_x as int,
            self.acceleration_x as int,
            self.is_on_ground,
            elapsed_time.0 as int,
        );
    }

    /// Advances the player by one tick of `elapsed_time`: the jump window
    /// counts down; the position moves by the old velocities; the
    /// horizontal velocity follows the acceleration; gravity pulls unless
    /// the jump is active; at the ground line the player lands; the sprite
    /// state is derived anew and its visual advances.
    pub fn update(&mut self, elapsed_time: Milliseconds)
        requires
            old(self).wf(),
            old(self).update_fits(elapsed_time),
        ensures
            final(self).wf(),
            old(self).steps_to(final(self), elapsed_time),
            old(self).fully_registered() ==> final(self).fully_registered(),
    {
        let elapsed: u32 = elapsed_time.value();
        self.jump.update(elapsed_time);

        let moved_x: i64 = self.x as i64 + displacement_of(self.velocity_x, elapsed);
        self.x = moved_x as i32;
        self.velocity_x = velocity_x_after(
            self.velocity_x,
            self.acceleration_x,
            self.is_on_ground,
            elapsed,
        );

        let moved_y: i64 = self.y as i64 + displacement_of(self.velocity_y, elapsed);
        self.velocity_y = velocity_y_after(self.velocity_y, self.jump.active(), elapsed);

        if moved_y >= GROUND_Y as i64 {
            self.y = GROUND_Y;
            self.velocity_y = 0;
            self.is_on_ground = true;
        } else {
            self.y = moved_y as i32;
            self.is_on_ground = false;
        }

        self.update_sprite_state();

        let slot = self.sprite_state.slot();
        match self.sprites[slot] {
            Some(visual) => {
                let mut next = visual;
                next.update(elapsed_time);
                self.sprites.set(slot, Some(next));
            },
            None => {},
        }
    }

    /// Derives the sprite state from the acceleration, the ground contact
    /// and the vertical velocity.
    pub fn update_sprite_state(&mut self)
        ensures
            *final(self) == (Player {
                sprite_state: derived_state(
                    old(self).sprite_state,
                    old(self).acceleration_x as int,
                    old(self).is_on_ground,
                    old(self).velocity_y as int,
                ),
                ..*old(self)
            }),
    {
        if self.acceleration_x < 0 {
            self.sprite_state.motion_type = MotionType::Walking;
            self.sprite_state.horizontal_facing = HorizontalFacing::Left;
        } else if self.acceleration_x > 0 {
            self.sprite_state.motion_type = MotionType::Walking;
            self.sprite_state.horizontal_facing = HorizontalFacing::Right;
        } else {
            self.sprite_state.motion_type = MotionType::Standing;
        }

        if !self.is_on_ground {
            if self.velocity_y < 0 {
                self.sprite_state.motion_type = MotionType::Jumping;
            } else if self.velocity_y > 0 {
                self.sprite_state.motion_type = MotionType::Falling;
            }
        }
    }

    /// Queues the blit that shows the player: the visual of the current
    /// sprite state at the player's position. A state without a visual is
    /// an error, and queues nothing.
    pub fn draw(&self, graphics: &mut Graphics) -> (result: Result<(), DrawError>)
        requires
            self.wf(),
        ensures
            final(graphics).paths() == old(graphics).paths(),
            match self.sprites@[self.sprite_state.slot_index()] {
                Some(visual) => result == Ok::<(), DrawError>(()) && final(graphics).pending()
                    == old(graphics).pending().push(
                    DrawCommand::Copy(visual.blit_at(self.x, self.y)),
                ),
                None => result == Err::<(), DrawError>(
                    DrawError::MissingVisualAsset(self.sprite_state),
                ) && final(graphics).pending() == old(graphics).pending(),
            },
            self.fully_registered() ==> result is Ok,
    {
        let slot = self.sprite_state.slot();
        match &self.sprites[slot] {
            Some(visual) => {
                visual.draw(graphics, self.x, self.y);
                Ok(())
            },
            None => Err(DrawError::MissingVisualAsset(self.sprite_state)),
        }
    }

    pub fn start_moving_left(&mut self)
        ensures
            *final(self) == (Player { acceleration_x: (-WALKING_ACCELERATION) as i64, ..*old(self) }),
    {
        self.acceleration_x = -WALKING_ACCELERATION;
    }

    pub fn start_moving_right(&mut self)
        ensures
            *final(self) == (Player { acceleration_x: WALKING_ACCELERATION, ..*old(self) }),
    {
        self.acceleration_x = WALKING_ACCELERATION;
    }

    pub fn stop_moving(&mut self)
        ensures
            *final(self) == (Player { acceleration_x: 0, ..*old(self) }),
    {
        self.acceleration_x = 0;
    }

    pub fn look_horizontal(&mut self)
        ensures
            *final(self) == (Player {
                sprite_state: SpriteState {
                    vertical_facing: VerticalFacing::Forward,
                    ..old(self).sprite_state
                },
                ..*old(self)
            }),
    {
        self.sprite_state.vertical_facing = VerticalFacing::Forward;
    }

    pub fn look_up(&mut self)
        ensures
            *final(self) == (Player {
                sprite_state: SpriteState {
                    vertical_facing: VerticalFacing::Up,
                    ..old(self).sprite_state
                },
                ..*old(self)
            }),
    {
        self.sprite_state.vertical_facing = VerticalFacing::Up;
    }

    pub fn look_down(&mut self)
        ensures
            *final(self) == (Player {
                sprite_state: SpriteState {
                    vertical_facing: VerticalFacing::Down,
                    ..old(self).sprite_state
                },
                ..*old(self)
            }),
    {
        self.sprite_state.vertical_facing = VerticalFacing::Down;
    }

    pub fn on_ground(&self) -> (on_ground: bool)
        ensures
            on_ground == self.is_on_ground,
    {
        self.is_on_ground
    }

    /// The player after the jump key went down: on the ground a fresh jump
    /// begins at jump speed; in the air, while rising, the jump is taken up
    /// again; while falling or hanging nothing happens.
    pub open spec fn jump_started(self) -> Player {
        if self.is_on_ground {
            Player { jump: Jump::fresh(), velocity_y: (-JUMP_SPEED) as i64, ..self }
        } else if self.velocity_y < 0 {
            Player { jump: self.jump.reactivated(), ..self }
        } else {
            self
        }
    }

    /// A jump from the ground: the jump key sets the vertical velocity to
    /// the jump speed at once, and after a tick of at least two
    /// milliseconds, and shorter than the jump window, the player is in the
    /// air, still rising at jump speed, and shown jumping.
    pub proof fn lemma_jump_leaves_ground(&self, next: &Player, elapsed_time: Milliseconds)
        requires
            self.wf(),
            self.is_on_ground,
            self.y <= GROUND_Y,
            2 <= elapsed_time.0 < JUMP_TIME,
            self.jump_started().steps_to(next, elapsed_time),
        ensures
            self.jump_started().velocity_y == -JUMP_SPEED,
            self.jump_started().jump.active,
            !next.is_on_ground,
            next.y < GROUND_Y,
            next.velocity_y == -JUMP_SPEED,
            next.jump.active,
            next.sprite_state.motion_type == MotionType::Jumping,
    {
        let elapsed = elapsed_time.0 as int;
        let product = (-JUMP_SPEED as int) * elapsed;
        assert(product <= -650_000) by (nonlinear_arith)
            requires
                product == (-325_000) * elapsed,
                elapsed >= 2,
        ;
        assert((-product + 500_000) / 1_000_000 >= 1);
        assert(displacement(-JUMP_SPEED as int, elapsed) <= -1);
    }

    pub fn start_jump(&mut self)
        ensures
            *final(self) == old(self).jump_started(),
            old(self).wf() ==> final(self).wf(),
    {
        if self.is_on_ground {
            self.jump.reset();
            self.velocity_y = -JUMP_SPEED;
        } else if self.velocity_y < 0 {
            self.jump.reactivate();
        }
    }

    /// Cuts the jump short.
    pub fn stop_jump(&mut self)
        ensures
            *final(self) == (Player { jump: old(self).jump.deactivated(), ..*old(self) }),
    {
        self.jump.deactivate();
    }
}

/// The path of the sheet that holds the player's tiles.
pub fn sheet_name() -> (name: &'static str)
    ensures
        name@ == sheet_path(),
{
    "content/MyChar.bmp"
}

/// A table with an empty place for every sprite state.
pub fn empty_sprite_table() -> (table: Vec<Option<Visual>>)
    ensures
        table@.len() == SPRITE_STATES,
        forall|i: int| 0 <= i < table@.len() ==> table@[i] == None::<Visual>,
{
    let mut table: Vec<Option<Visual>> = Vec::new();
    let mut i: usize = 0;
    while i < SPRITE_STATES
        invariant
            i <= SPRITE_STATES,
            table@.len() == i,
            forall|j: int| 0 <= j < table@.len() ==> table@[j] == None::<Visual>,
        decreases SPRITE_STATES - i,
    {
        table.push(None);
        i += 1;
    }
    table
}

/// The table `sprites` with the four motions of one facing and one look
/// registered, taken from the row of tiles that starts at tile
/// `(x_tile_offset, y_tile_offset)` of the image `sheet`.
pub open spec fn with_motions(
    sprites: Seq<Option<Visual>>,
    sheet: ImageHandle,
    x_tile_offset: int,
    y_tile_offset: int,
    horizontal_facing: HorizontalFacing,
    vertical_facing: VerticalFacing,
) -> Seq<Option<Visual>> {
    Seq::new(
        sprites.len(),
        |i: int|
            if exists|motion_type: MotionType|
                (#[trigger] motion_slot(motion_type, horizontal_facing, vertical_facing)) == i {
                Some(
                    motion_visual(
                        sheet,
                        x_tile_offset,
                        y_tile_offset,
                        motion_at(i, horizontal_facing, vertical_facing),
                    ),
                )
            } else {
                sprites[i]
            },
    )
}

/// The place of the state made of the three parts.
pub open spec fn motion_slot(
    motion_type: MotionType,
    horizontal_facing: HorizontalFacing,
    vertical_facing: VerticalFacing,
) -> int {
    (SpriteState { motion_type, horizontal_facing, vertical_facing }).slot_index()
}

/// The motion whose state, with the given facing and look, has place `slot`.
pub open spec fn motion_at(
    slot: int,
    horizontal_facing: HorizontalFacing,
    vertical_facing: VerticalFacing,
) -> MotionType {
    if slot == motion_slot(MotionType::Standing, horizontal_facing, vertical_facing) {
        MotionType::Standing
    } else if slot == motion_slot(MotionType::Walking, horizontal_facing, vertical_facing) {
        MotionType::Walking
    } else if slot == motion_slot(MotionType::Jumping, horizontal_facing, vertical_facing) {
        MotionType::Jumping
    } else {
        MotionType::Falling
    }
}

/// Registers the four motions of one facing and one look.
pub fn load_motion_sprites(
    graphics: &mut Graphics,
    map: &mut Vec<Option<Visual>>,
    x_tile_offset: i32,
    y_tile_offset: i32,
    horizontal_facing: HorizontalFacing,
    vertical_facing: VerticalFacing,
)
    requires
        old(graphics).wf(),
        table_wf(old(map)@),
        i32::MIN <= x_tile_offset * TILE_SIZE,
        (x_tile_offset + 2) * TILE_SIZE <= i32::MAX,
        i32::MIN <= y_tile_offset * TILE_SIZE <= i32::MAX,
    ensures
        final(graphics).wf(),
        final(graphics).paths() == loaded(old(graphics).paths(), sheet_path()),
        final(graphics).pending() == old(graphics).pending(),
        table_wf(final(map)@),
        final(map)@ == with_motions(
            old(map)@,
            handle_of(old(graphics).paths(), sheet_path()),
            x_tile_offset as int,
            y_tile_offset as int,
            horizontal_facing,
            vertical_facing,
        ),
{
    let ghost before = graphics.paths();
    let ghost sheet = handle_of(before, sheet_path());
    let tile: i32 = TILE_SIZE as i32;
    let x: i32 = x_tile_offset * tile;
    let y: i32 = y_tile_offset * tile;
    let walking = AnimatedSprite::new(
        graphics,
        sheet_name(),
        x,
        y,
        TILE_SIZE,
        TILE_SIZE,
        WALKING_FPS,
        WALKING_FRAMES,
    );
    proof {
        lemma_load_again(before, sheet_path());
    }
    map.set(
        SpriteState::new(MotionType::Walking, horizontal_facing, vertical_facing).slot(),
        Some(Visual::Animated(walking)),
    );
    let standing = Sprite::new(graphics, sheet_name(), x, y, TILE_SIZE, TILE_SIZE);
    map.set(
        SpriteState::new(MotionType::Standing, horizontal_facing, vertical_facing).slot(),
        Some(Visual::Static(standing)),
    );
    let jumping = Sprite::new(graphics, sheet_name(), (x_tile_offset + 1) * tile, y, TILE_SIZE, TILE_SIZE);
    map.set(
        SpriteState::new(MotionType::Jumping, horizontal_facing, vertical_facing).slot(),
        Some(Visual::Static(jumping)),
    );
    let falling = Sprite::new(graphics, sheet_name(), (x_tile_offset + 2) * tile, y, TILE_SIZE, TILE_SIZE);
    map.set(
        SpriteState::new(MotionType::Falling, horizontal_facing, vertical_facing).slot(),
        Some(Visual::Static(falling)),
    );
    proof {
        let target = with_motions(
            old(map)@,
            sheet,
            x_tile_offset as int,
            y_tile_offset as int,
            horizontal_facing,
            vertical_facing,
        );
        assert forall|i: int| 0 <= i < map@.len() implies map@[i] == target[i] by {
            let standing_slot = motion_slot(MotionType::Standing, horizontal_facing, vertical_facing);
            let walking_slot = motion_slot(MotionType::Walking, horizontal_facing, vertical_facing);
            let jumping_slot = motion_slot(MotionType::Jumping, horizontal_facing, vertical_facing);
            let falling_slot = motion_slot(MotionType::Falling, horizontal_facing, vertical_facing);
            if exists|motion_type: MotionType|
                (#[trigger] motion_slot(motion_type, horizontal_facing, vertical_facing)) == i {
                let motion_type = choose|motion_type: MotionType|
                    (#[trigger] motion_slot(motion_type, horizontal_facing, vertical_facing)) == i;
                assert(motion_at(i, horizontal_facing, vertical_facing) == motion_type);
            } else {
                assert(i != standing_slot && i != walking_slot && i != jumping_slot && i
                    != falling_slot);
            }
        }
        assert(map@ =~= target);
    }
}

/// The table with every state of the character `nth_character` of the
/// image `sheet` registered.
pub open spec fn character_table(sheet: ImageHandle, nth_character: int) -> Seq<Option<Visual>> {
    Seq::new(
        SPRITE_STATES as nat,
        |i: int| Some(character_visual(sheet, nth_character, state_at(i))),
    )
}

/// The state whose place is `slot`.
pub open spec fn state_at(slot: int) -> SpriteState {
    SpriteState {
        motion_type: if slot / 6 == 0 {
            MotionType::Standing
        } else if slot / 6 == 1 {
            MotionType::Walking
        } else if slot / 6 == 2 {
            MotionType::Jumping
        } else {
            MotionType::Falling
        },
        horizontal_facing: if (slot % 6) / 3 == 0 {
            HorizontalFacing::Left
        } else {
            HorizontalFacing::Right
        },
        vertical_facing: if slot % 3 == 0 {
            VerticalFacing::Up
        } else if slot % 3 == 1 {
            VerticalFacing::Forward
        } else {
            VerticalFacing::Down
        },
    }
}

/// Every state is the state at its own place, and finds its own visual in
/// a character's table.
pub proof fn lemma_character_table_entry(sheet: ImageHandle, nth_character: int, state: SpriteState)
    ensures
        state_at(state.slot_index()) == state,
        character_table(sheet, nth_character)[state.slot_index()] == Some(
            character_visual(sheet, nth_character, state),
        ),
{
}

/// Registers every state of one character of the sheet: two rows of
/// tiles, the upper one facing left, with the looks side by side.
pub fn load_character_sprites(
    graphics: &mut Graphics,
    map: &mut Vec<Option<Visual>>,
    nth_character: u32,
)
    requires
        old(graphics).wf(),
        table_wf(old(map)@),
        (nth_character * 2 + 1) * TILE_SIZE <= i32::MAX,
    ensures
        final(graphics).wf(),
        final(graphics).paths() == loaded(old(graphics).paths(), sheet_path()),
        final(graphics).pending() == old(graphics).pending(),
        table_wf(final(map)@),
        final(map)@ == character_table(
            handle_of(old(graphics).paths(), sheet_path()),
            nth_character as int,
        ),
{
    let ghost before = graphics.paths();
    let ghost sheet = handle_of(before, sheet_path());
    proof {
        lemma_load_again(before, sheet_path());
    }
    let upper: i32 = (nth_character * 2) as i32;
    let lower: i32 = (nth_character * 2 + 1) as i32;
    load_motion_sprites(graphics, map, 0, upper, HorizontalFacing::Left, VerticalFacing::Forward);
    load_motion_sprites(graphics, map, 3, upper, HorizontalFacing::Left, VerticalFacing::Up);
    load_motion_sprites(graphics, map, 6, upper, HorizontalFacing::Left, VerticalFacing::Down);
    load_motion_sprites(graphics, map, 0, lower, HorizontalFacing::Right, VerticalFacing::Forward);
    load_motion_sprites(graphics, map, 3, lower, HorizontalFacing::Right, VerticalFacing::Up);
    load_motion_sprites(graphics, map, 6, lower, HorizontalFacing::Right, VerticalFacing::Down);
    proof {
        let target = character_table(sheet, nth_character as int);
        assert forall|i: int| 0 <= i < map@.len() implies map@[i] == target[i] by {
            let state = state_at(i);
            assert(motion_slot(state.motion_type, state.horizontal_facing, state.vertical_facing)
                == i);
        }
        assert(map@ =~= target);
    }
}

/// The table of the player's character.
pub fn create_sprite_map(graphics: &mut Graphics) -> (map: Vec<Option<Visual>>)
    requires
        old(graphics).wf(),
    ensures
        final(graphics).wf(),
        final(graphics).paths() == loaded(old(graphics).paths(), sheet_path()),
        final(graphics).pending() == old(graphics).pending(),
        table_wf(map@),
        map@ == character_table(
            handle_of(old(graphics).paths(), sheet_path()),
            PLAYER_CHARACTER as int,
        ),
{
    let mut map = empty_sprite_table();
    load_character_sprites(graphics, &mut map, PLAYER_CHARACTER);
    map
}

impl Player {
    /// Whether `self` is a player as [`Player::new`] makes it at `(x, y)`
    /// from the image `sheet`: at rest, counted as on the ground, standing,
    /// facing left and looking forward, without a jump, and with the
    /// visuals of its character for every sprite state.
    pub open spec fn is_new(&self, sheet: ImageHandle, x: i32, y: i32) -> bool {
        &&& self.sprites@ == character_table(sheet, PLAYER_CHARACTER as int)
        &&& self.sprite_state == (SpriteState {
            motion_type: MotionType::Standing,
            horizontal_facing: HorizontalFacing::Left,
            vertical_facing: VerticalFacing::Forward,
        })
        &&& self.x == x
        &&& self.y == y
        &&& self.velocity_x == 0
        &&& self.acceleration_x == 0
        &&& self.velocity_y == 0
        &&& self.is_on_ground
        &&& self.jump == (Jump { time_remaining: Milliseconds(0), active: false })
    }

    /// A player at rest at `(x, y)`, counted as on the ground, standing,
    /// facing left and looking forward, with a visual for every sprite
    /// state.
    pub fn new(graphics: &mut Graphics, x: i32, y: i32) -> (player: Player)
        requires
            old(graphics).wf(),
        ensures
            final(graphics).wf(),
            final(graphics).paths() == loaded(old(graphics).paths(), sheet_path()),
            final(graphics).pending() == old(graphics).pending(),
            player.wf(),
            player.fully_registered(),
            player.is_new(handle_of(old(graphics).paths(), sheet_path()), x, y),
    {
        Player {
            sprites: create_sprite_map(graphics),
            sprite_state: SpriteState::default(),
            x,
            y,
            velocity_x: 0,
            acceleration_x: 0,
            velocity_y: 0,
            is_on_ground: true,
            jump: Jump::new(),
        }
    }

    /// A player made by [`Player::new`] has a visual for every sprite
    /// state, and keeps them all through every tick: drawing it never
    /// fails.
    pub open spec fn fully_registered(&self) -> bool {
        forall|i: int| 0 <= i < self.sprites@.len() ==> (#[trigger] self.sprites@[i]) is Some
    }
}

} // verus!
