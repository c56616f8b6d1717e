//! The game loop, as a function from what happened to what to do.
//!
//! The program around the library owns the window, the event queue and the
//! clock. Once per frame it hands the pending events and the measured time
//! to [`Game::frame`], performs the draw commands that were queued, and
//! paces itself by [`sync_duration`].

use crate::constants::{FPS, SPAWN_X, SPAWN_Y};
use crate::entities::{frame_commands, routed, Entities, KeyBindings};
use crate::graphics::{handle_of, loaded, Graphics};
use crate::input::{frame_start, key_down, key_up, state_in, Input, KeyState};
use crate::player::{sheet_path, DrawError, SpriteState};
use crate::units::Milliseconds;
use vstd::prelude::*;

verus! {

/// What the event queue can hold.
#[derive(Clone, Copy, Debug, PartialEq, Eq, Structural)]
pub enum Event {
    /// The user asked to quit.
    Quit,
    /// A key went down.
    KeyDown(i32),
    /// A key went up.
    KeyUp(i32),
    /// Anything else: ignored.
    Other,
}

/// Whether the loop goes on.
#[derive(Clone, Copy, Debug, PartialEq, Eq, Structural)]
pub enum LoopState {
    Running,
    /// The loop has ended; it does not start again.
    Stopped,
}

/// The key states after one event.
pub open spec fn after_event(keys_now: Map<i32, KeyState>, event: Event) -> Map<i32, KeyState> {
    match event {
        Event::KeyDown(key) => key_down(keys_now, key),
        Event::KeyUp(key) => key_up(keys_now, key),
        _ => keys_now,
    }
}

/// The key states after a sequence of events, first to last.
pub open spec fn after_events(keys_now: Map<i32, KeyState>, events: Seq<Event>) -> Map<i32, KeyState>
    decreases events.len(),
{
    if events.len() == 0 {
        keys_now
    } else {
        after_event(after_events(keys_now, events.drop_last()), events.last())
    }
}

/// Whether one of the events asks to quit.
pub open spec fn quit_asked(events: Seq<Event>) -> bool {
    exists|i: int| 0 <= i < events.len() && events[i] == Event::Quit
}

/// Whether `key` is held after the events, given whether it was held
/// before: the last event for the key decides, and without one nothing
/// changes.
pub open spec fn net_held(held_before: bool, events: Seq<Event>, key: i32) -> bool
    decreases events.len(),
{
    if events.len() == 0 {
        held_before
    } else if events.last() == Event::KeyDown(key) {
        true
    } else if events.last() == Event::KeyUp(key) {
        false
    } else {
        net_held(held_before, events.drop_last(), key)
    }
}

/// After any sequence of key events a key is held exactly if its last
/// event was a key-down, or, without an event of its own, if it was held
/// before.
pub proof fn lemma_held_is_net_state(keys_now: Map<i32, KeyState>, events: Seq<Event>, key: i32)
    ensures
        state_in(after_events(keys_now, events), key).held == net_held(
            state_in(keys_now, key).held,
            events,
            key,
        ),
    decreases events.len(),
{
    if events.len() > 0 {
        lemma_held_is_net_state(keys_now, events.drop_last(), key);
    }
}

/// A key that was not pressed before the events and is pressed after them
/// went down, in one of the events, from not being held. A repeated
/// key-down for a held key presses nothing.
pub proof fn lemma_pressed_needs_fresh_down(
    keys_now: Map<i32, KeyState>,
    events: Seq<Event>,
    key: i32,
)
    requires
        !state_in(keys_now, key).pressed,
        state_in(after_events(keys_now, events), key).pressed,
    ensures
        exists|i: int|
            0 <= i < events.len() && events[i] == Event::KeyDown(key) && !state_in(
                #[trigger] after_events(keys_now, events.take(i)),
                key,
            ).held,
    decreases events.len(),
{
    if events.len() > 0 {
        let front = events.drop_last();
        let last = events.len() - 1;
        assert(events.take(last) =~= front);
        if state_in(after_events(keys_now, front), key).pressed {
            lemma_pressed_needs_fresh_down(keys_now, front, key);
            let i = choose|i: int|
                0 <= i < front.len() && front[i] == Event::KeyDown(key) && !state_in(
                    #[trigger] after_events(keys_now, front.take(i)),
                    key,
                ).held;
            assert(front.take(i) =~= events.take(i));
            assert(events[i] == front[i]);
        } else {
            assert(events[last] == Event::KeyDown(key));
            assert(!state_in(after_events(keys_now, events.take(last)), key).held);
        }
    }
}

/// Applies one event to the key states.
pub fn handle_event(input: &mut Input, event: Event) -> (quit: bool)
    requires
        old(input).wf(),
    ensures
        final(input).wf(),
        final(input)@ == after_event(old(input)@, event),
        quit == (event == Event::Quit),
{
    match event {
        Event::Quit => true,
        Event::KeyDown(code) => {
            input.on_key_down(code);
            false
        },
        Event::KeyUp(code) => {
            input.on_key_up(code);
            false
        },
        Event::Other => false,
    }
}

/// Applies the pending events to the key states, first to last.
pub fn handle_events(input: &mut Input, events: &Vec<Event>) -> (quit: bool)
    requires
        old(input).wf(),
    ensures
        final(input).wf(),
        final(input)@ == after_events(old(input)@, events@),
        quit == quit_asked(events@),
{
    let mut quit = false;
    let mut i: usize = 0;
    assert(events@.take(0) =~= Seq::<Event>::empty());
    while i < events.len()
        invariant
            i <= events.len(),
            input.wf(),
            input@ == after_events(old(input)@, events@.take(i as int)),
            quit == quit_asked(events@.take(i as int)),
        decreases events.len() - i,
    {
        let ghost seen = events@.take(i as int);
        let ghost more = events@.take(i + 1);
        let asked = handle_event(input, events[i]);
        proof {
            assert(more.drop_last() =~= seen);
            assert(more.last() == events@[i as int]);
            if quit_asked(seen) {
                let j = choose|j: int| 0 <= j < seen.len() && seen[j] == Event::Quit;
                assert(more[j] == Event::Quit);
            }
            if asked {
                assert(more[i as int] == Event::Quit);
            }
            if quit_asked(more) {
                let j = choose|j: int| 0 <= j < more.len() && more[j] == Event::Quit;
                if j < i {
                    assert(seen[j] == Event::Quit);
                }
            }
        }
        quit = quit || asked;
        i += 1;
    }
    assert(events@.take(i as int) =~= events@);
    quit
}

/// Why a frame could not be finished.
#[derive(Clone, Copy, Debug, PartialEq, Eq, Structural)]
pub enum FrameError {
    /// The tick would move the player beyond the range of its coordinates;
    /// the player was not advanced.
    PositionOutOfRange,
    /// The player's sprite state has no visual.
    MissingVisualAsset(SpriteState),
}

/// The state of a running game.
pub struct Game {
    pub state: LoopState,
    pub input: Input,
    pub entities: Entities,
    pub keys: KeyBindings,
}

impl Game {
    pub open spec fn wf(&self) -> bool {
        &&& self.input.wf()
        &&& self.entities.player.wf()
    }

    /// A running game with no key seen and the world at its start.
    pub fn new(graphics: &mut Graphics, keys: KeyBindings) -> (game: Game)
        requires
            old(graphics).wf(),
        ensures
            final(graphics).wf(),
            final(graphics).paths() == loaded(old(graphics).paths(), sheet_path()),
            final(graphics).pending() == old(graphics).pending(),
            game.wf(),
            game.state == LoopState::Running,
            game.input@ == Map::<i32, KeyState>::empty(),
            game.keys == keys,
            game.entities.player.fully_registered(),
            game.entities.player.is_new(
                handle_of(old(graphics).paths(), sheet_path()),
                SPAWN_X,
                SPAWN_Y,
            ),
    {
        Game {
            state: LoopState::Running,
            input: Input::new(),
            entities: Entities::new(graphics),
            keys,
        }
    }

    /// Whether the loop goes on.
    pub fn running(&self) -> (running: bool)
        ensures
            running == (self.state == LoopState::Running),
    {
        match self.state {
            LoopState::Running => true,
            LoopState::Stopped => false,
        }
    }

    /// The loop state after a frame in which the key states became
    /// `keys_now`: a quit event or a press of the cancel key stops the
    /// loop, and a stopped loop stays stopped.
    pub open spec fn next_state(
        state: LoopState,
        quit: bool,
        keys_now: Map<i32, KeyState>,
        cancel: i32,
    ) -> LoopState {
        if quit || state_in(keys_now, cancel).pressed {
            LoopState::Stopped
        } else {
            state
        }
    }

    /// One iteration of the loop: the edges of the last frame are cleared,
    /// the pending events are applied, a quit event or the cancel key stops
    /// the loop, the keys steer the player, the world advances by
    /// `elapsed_time`, and the draw commands for the new frame are queued.
    /// A tick that would move the player out of the range of its
    /// coordinates is not made, and nothing is queued.
    pub fn frame(
        &mut self,
        graphics: &mut Graphics,
        events: &Vec<Event>,
        elapsed_time: Milliseconds,
    ) -> (result: Result<(), FrameError>)
        requires
            old(self).wf(),
        ensures
            final(self).wf(),
            final(self).keys == old(self).keys,
            final(self).input@ == after_events(frame_start(old(self).input@), events@),
            final(self).state == Game::next_state(
                old(self).state,
                quit_asked(events@),
                final(self).input@,
                old(self).keys.cancel,
            ),
            final(graphics).paths() == old(graphics).paths(),
            ({
                let steered = routed(old(self).entities.player, final(self).input@, old(self).keys);
                let player = final(self).entities.player;
                if !steered.update_fits(elapsed_time) {
                    &&& player == steered
                    &&& result == Err::<(), FrameError>(FrameError::PositionOutOfRange)
                    &&& final(graphics).pending() == old(graphics).pending()
                } else {
                    &&& steered.steps_to(&player, elapsed_time)
                    &&& final(graphics).pending() == old(graphics).pending() + frame_commands(
                        player,
                    )
                    &&& result == match player.sprites@[player.sprite_state.slot_index()] {
                        Some(visual) => Ok::<(), FrameError>(()),
                        None => Err::<(), FrameError>(
                            FrameError::MissingVisualAsset(player.sprite_state),
                        ),
                    }
                }
            }),
            old(self).entities.player.fully_registered() ==> final(self).entities.player.fully_registered(),
            old(self).entities.player.fully_registered() ==> !(result matches Err(
                FrameError::MissingVisualAsset(_),
            )),
    {
        self.input.begin_new_frame();
        let quit = handle_events(&mut self.input, events);
        let cancelled = self.input.key_pressed(self.keys.cancel);
        if quit || cancelled {
            self.state = LoopState::Stopped;
        }
        self.entities.process_input(&self.input, &self.keys);
        if !self.entities.player.can_update(elapsed_time) {
            return Err(FrameError::PositionOutOfRange);
        }
        self.entities.update(elapsed_time);
        match self.entities.draw(graphics) {
            Ok(()) => Ok(()),
            Err(DrawError::MissingVisualAsset(state)) => Err(FrameError::MissingVisualAsset(state)),
        }
    }
}

/// Nanoseconds in a second.
pub const NANOS_PER_SECOND: u64 = 1_000_000_000;

/// How much earlier than the target the coarse sleep ends.
pub const SLEEP_MARGIN_NANOS: u64 = 1_200_000;

/// How much earlier than the target the fine wait ends.
pub const SPIN_MARGIN_NANOS: u64 = 10_000;

/// The length of one short sleep of the fine wait.
pub const SPIN_STEP_NANOS: u64 = 10;

/// What to do at the end of a frame.
#[derive(Clone, Copy, Debug, PartialEq, Eq, Structural)]
pub enum Pacing {
    /// The frame has not reached its target: sleep once for `sleep_nanos`
    /// (nothing, where less than the safety margin is left), then sleep in
    /// short steps until `spin_until_nanos` have passed since the frame
    /// began.
    Wait { sleep_nanos: u64, spin_until_nanos: u64 },
    /// The frame has reached or passed its target: go on at once, and
    /// report that it ran `overrun_nanos` beyond the target.
    Overshot { overrun_nanos: u64 },
}

/// The length of the coarse sleep of a frame that has taken `elapsed_nanos`
/// so far: what is left of the target less the safety margin, and nothing
/// where no more than the margin is left.
pub open spec fn coarse_sleep(elapsed_nanos: u64, target_nanos: u64) -> int {
    if elapsed_nanos < target_nanos - SLEEP_MARGIN_NANOS {
        target_nanos - SLEEP_MARGIN_NANOS - elapsed_nanos
    } else {
        0
    }
}

/// The pacing of a frame that has taken `elapsed_nanos` so far, for a
/// target of `target_nanos` per frame: a frame short of its target waits,
/// first by a coarse sleep and then in short steps until the target less
/// the fine margin is reached; a frame at or beyond its target does not
/// wait.
pub open spec fn pacing_of(elapsed_nanos: u64, target_nanos: u64) -> Pacing {
    if elapsed_nanos < target_nanos {
        Pacing::Wait {
            sleep_nanos: coarse_sleep(elapsed_nanos, target_nanos) as u64,
            spin_until_nanos: (target_nanos - SPIN_MARGIN_NANOS) as u64,
        }
    } else {
        Pacing::Overshot { overrun_nanos: (elapsed_nanos - target_nanos) as u64 }
    }
}

/// Pacing is skipped exactly for a frame that has reached its target. A
/// frame that waits never sleeps beyond the target less the safety margin,
/// and its fine wait ends a fine margin before the target.
pub proof fn lemma_pacing(elapsed_nanos: u64, target_nanos: u64)
    requires
        target_nanos >= SLEEP_MARGIN_NANOS,
    ensures
        pacing_of(elapsed_nanos, target_nanos) is Wait <==> elapsed_nanos < target_nanos,
        pacing_of(elapsed_nanos, target_nanos) is Overshot ==> elapsed_nanos == target_nanos
            + pacing_of(elapsed_nanos, target_nanos)->overrun_nanos,
        pacing_of(elapsed_nanos, target_nanos) is Wait ==> {
            let pacing = pacing_of(elapsed_nanos, target_nanos);
            &&& pacing->spin_until_nanos + SPIN_MARGIN_NANOS == target_nanos
            &&& pacing->sleep_nanos > 0 ==> elapsed_nanos + pacing->sleep_nanos
                + SLEEP_MARGIN_NANOS == target_nanos
            &&& pacing->sleep_nanos == 0 ==> elapsed_nanos + SLEEP_MARGIN_NANOS >= target_nanos
        },
{
}

/// The length of a frame at the target frame rate, in nanoseconds.
pub fn target_frame_nanos() -> (nanos: u64)
    ensures
        nanos == NANOS_PER_SECOND / (FPS as u64),
        nanos == 16_666_666,
{
    let nanos: u64 = NANOS_PER_SECOND / (FPS as u64);
    assert(nanos == 16_666_666) by (nonlinear_arith)
        requires
            nanos == 1_000_000_000u64 / 60u64,
    ;
    nanos
}

/// Decides how to wait out the rest of a frame: a sleep for all but a
/// safety margin of what is left of the target, then a fine wait until the
/// target is reached; no wait at all, and a report, for a frame that has
/// reached or passed its target.
pub fn sync_duration(elapsed_nanos: u64, target_nanos: u64) -> (pacing: Pacing)
    requires
        target_nanos >= SLEEP_MARGIN_NANOS,
    ensures
        pacing == pacing_of(elapsed_nanos, target_nanos),
{
    if elapsed_nanos >= target_nanos {
        Pacing::Overshot { overrun_nanos: elapsed_nanos - target_nanos }
    } else {
        let approximate: u64 = target_nanos - SLEEP_MARGIN_NANOS;
        let sleep_nanos: u64 = if elapsed_nanos < approximate {
            approximate - elapsed_nanos
        } else {
            0
        };
        Pacing::Wait { sleep_nanos, spin_until_nanos: target_nanos - SPIN_MARGIN_NANOS }
    }
}

/// Whether the fine wait goes on when `elapsed_nanos` have passed since the
/// frame began.
pub fn keep_waiting(elapsed_nanos: u64, spin_until_nanos: u64) -> (wait: bool)
    ensures
        wait == (elapsed_nanos < spin_until_nanos),
{
    elapsed_nanos < spin_until_nanos
}

} // verus!
