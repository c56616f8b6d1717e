//! Everything that lives in the world: for now, the player.

use crate::constants::{SPAWN_X, SPAWN_Y, WALKING_ACCELERATION};
use crate::graphics::{handle_of, loaded, DrawCommand, Graphics};
use crate::input::{state_in, Input, KeyState};
use crate::player::{sheet_path, DrawError, Player, SpriteState, VerticalFacing};
use crate::sprite::Drawable;
use crate::units::Milliseconds;
use vstd::prelude::*;

verus! {

/// The keys that steer the game, by identifier.
#[derive(Clone, Copy, Debug, PartialEq, Eq, Structural)]
pub struct KeyBindings {
    pub left: i32,
    pub right: i32,
    pub up: i32,
    pub down: i32,
    pub jump: i32,
    pub cancel: i32,
}

/// The horizontal acceleration that the held keys ask for: left or right
/// alone moves that way, both or neither stops.
pub open spec fn steering(left: bool, right: bool) -> int {
    if left && !right {
        -WALKING_ACCELERATION as int
    } else if right && !left {
        WALKING_ACCELERATION as int
    } else {
        0
    }
}

/// Where the held keys make the player look: up or down alone looks that
/// way, both or neither looks forward.
pub open spec fn looking(up: bool, down: bool) -> VerticalFacing {
    if up && !down {
        VerticalFacing::Up
    } else if down && !up {
        VerticalFacing::Down
    } else {
        VerticalFacing::Forward
    }
}

/// The player after the commands that the keys in `keys_now` give: the
/// walking and looking keys by their level, the jump key by its edges,
/// where a press counts before a release.
pub open spec fn routed(player: Player, keys_now: Map<i32, KeyState>, keys: KeyBindings) -> Player {
    let steered = Player {
        acceleration_x: steering(
            state_in(keys_now, keys.left).held,
            state_in(keys_now, keys.right).held,
        ) as i64,
        sprite_state: SpriteState {
            vertical_facing: looking(
                state_in(keys_now, keys.up).held,
                state_in(keys_now, keys.down).held,
            ),
            ..player.sprite_state
        },
        ..player
    };
    if state_in(keys_now, keys.jump).pressed {
        steered.jump_started()
    } else if state_in(keys_now, keys.jump).released {
        Player { jump: steered.jump.deactivated(), ..steered }
    } else {
        steered
    }
}

/// The draw commands of a frame that shows `player`: clear, the player's
/// visual, present; for a player without a visual for its state, the clear
/// alone.
pub open spec fn frame_commands(player: Player) -> Seq<DrawCommand> {
    match player.sprites@[player.sprite_state.slot_index()] {
        Some(visual) => seq![
            DrawCommand::Clear,
            DrawCommand::Copy(visual.blit_at(player.x, player.y)),
            DrawCommand::Present,
        ],
        None => seq![DrawCommand::Clear],
    }
}

/// The entities of the game.
pub struct Entities {
    pub player: Player,
}

impl Entities {
    /// The world at the start: the player at the spawn point.
    pub fn new(graphics: &mut Graphics) -> (entities: Entities)
        requires
            old(graphics).wf(),
        ensures
            final(graphics).wf(),
            final(graphics).paths() == loaded(old(graphics).paths(), sheet_path()),
            final(graphics).pending() == old(graphics).pending(),
            entities.player.wf(),
            entities.player.fully_registered(),
            entities.player.is_new(
                handle_of(old(graphics).paths(), sheet_path()),
                SPAWN_X,
                SPAWN_Y,
            ),
    {
        Entities { player: Player::new(graphics, SPAWN_X, SPAWN_Y) }
    }

    /// Turns the state of the keys into commands for the player.
    pub fn process_input(&mut self, input: &Input, keys: &KeyBindings)
        ensures
            final(self).player == routed(old(self).player, input@, *keys),
            old(self).player.wf() ==> final(self).player.wf(),
            old(self).player.fully_registered() ==> final(self).player.fully_registered(),
    {
        match (input.key_held(keys.left), input.key_held(keys.right)) {
            (true, true) => self.player.stop_moving(),
            (false, false) => self.player.stop_moving(),
            (true, false) => self.player.start_moving_left(),
            (false, true) => self.player.start_moving_right(),
        }

        match (input.key_held(keys.up), input.key_held(keys.down)) {
            (true, true) => self.player.look_horizontal(),
            (false, false) => self.player.look_horizontal(),
            (true, false) => self.player.look_up(),
            (false, true) => self.player.look_down(),
        }

        if input.key_pressed(keys.jump) {
            self.player.start_jump();
        } else if input.key_released(keys.jump) {
            self.player.stop_jump();
        }
    }

    /// Queues what shows the world: clear, the player, present. A player
    /// without a visual for its state is an error, after which only the
    /// clear is queued.
    pub fn draw(&self, graphics: &mut Graphics) -> (result: Result<(), DrawError>)
        requires
            self.player.wf(),
        ensures
            final(graphics).paths() == old(graphics).paths(),
            final(graphics).pending() == old(graphics).pending() + frame_commands(self.player),
            result == match self.player.sprites@[self.player.sprite_state.slot_index()] {
                Some(visual) => Ok::<(), DrawError>(()),
                None => Err::<(), DrawError>(
                    DrawError::MissingVisualAsset(self.player.sprite_state),
                ),
            },
            self.player.fully_registered() ==> result is Ok,
    {
        graphics.clear();
        match self.player.draw(graphics) {
            Ok(()) => {
                graphics.present();
                proof {
                    assert(graphics.pending() =~= old(graphics).pending() + frame_commands(
                        self.player,
                    ));
                }
                Ok(())
            },
            Err(error) => {
                proof {
                    assert(graphics.pending() =~= old(graphics).pending() + frame_commands(
                        self.player,
                    ));
                }
                Err(error)
            },
        }
    }

    /// Advances the world by one tick.
    pub fn update(&mut self, elapsed_time: Milliseconds)
        requires
            old(self).player.wf(),
            old(self).player.update_fits(elapsed_time),
        ensures
            final(self).player.wf(),
            old(self).player.steps_to(&final(self).player, elapsed_time),
            old(self).player.fully_registered() ==> final(self).player.fully_registered(),
    {
        self.player.update(elapsed_time);
    }
}

} // verus!
