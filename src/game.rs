use vstd::prelude::*;
use crate::grid::{Coord, on_map};
use crate::snake::{
    Direction, Snake, advance, advanced, can_step, check_self_collision, check_wall_collision,
    hits_body, hits_wall, init_snake,
};

verus! {

/// One input to a running game: a tick of the movement timer, or a
/// directional key that sets the heading.
#[derive(Clone, Copy, Debug, PartialEq, Eq, Structural)]
pub enum Event {
    Tick,
    Turn(Direction),
}

/// The whole state of a game: the snake, where it is heading, and whether
/// the game has ended.
pub struct GameState {
    pub snake: Snake,
    pub heading: Direction,
    pub game_over: bool,
}

/// Mathematical model of a [`GameState`].
pub struct GameView {
    pub segments: Seq<Coord>,
    pub heading: Direction,
    pub game_over: bool,
}

impl View for GameState {
    type V = GameView;

    open spec fn view(&self) -> GameView {
        GameView { segments: self.snake@, heading: self.heading, game_over: self.game_over }
    }
}

/// The state after one tick: a finished game stays as it is; otherwise the
/// snake advances and the game ends if the head left the map or ran into
/// the body.
pub open spec fn ticked(v: GameView) -> GameView {
    if v.game_over {
        v
    } else {
        let s = advanced(v.segments, v.heading);
        GameView { segments: s, heading: v.heading, game_over: hits_wall(s) || hits_body(s) }
    }
}

/// The state after event `e`.
pub open spec fn on_event(v: GameView, e: Event) -> GameView {
    match e {
        Event::Tick => ticked(v),
        Event::Turn(d) => GameView { heading: d, ..v },
    }
}

/// The state after the events `es`, in order.
pub open spec fn replay(v: GameView, es: Seq<Event>) -> GameView
    decreases es.len(),
{
    if es.len() == 0 {
        v
    } else {
        replay(on_event(v, es[0]), es.drop_first())
    }
}

/// A game over stays over: no sequence of ticks and turns clears it.
pub proof fn lemma_game_over_is_final(v: GameView, es: Seq<Event>)
    requires
        v.game_over,
    ensures
        replay(v, es).game_over,
    decreases es.len(),
{
    if es.len() > 0 {
        lemma_game_over_is_final(on_event(v, es[0]), es.drop_first());
    }
}

/// The heading that a key selects: W up, D right, S down, A left, in either
/// case; no other key selects one.
pub fn direction_for_key(key: char) -> (r: Option<Direction>)
    ensures
        r == (if key == 'w' || key == 'W' {
            Some(Direction::Up)
        } else if key == 'd' || key == 'D' {
            Some(Direction::Right)
        } else if key == 's' || key == 'S' {
            Some(Direction::Down)
        } else if key == 'a' || key == 'A' {
            Some(Direction::Left)
        } else {
            None::<Direction>
        }),
{
    if key == 'w' || key == 'W' {
        Some(Direction::Up)
    } else if key == 'd' || key == 'D' {
        Some(Direction::Right)
    } else if key == 's' || key == 'S' {
        Some(Direction::Down)
    } else if key == 'a' || key == 'A' {
        Some(Direction::Left)
    } else {
        None
    }
}

impl GameState {
    /// At least one segment, and while the game runs the head is on the map.
    pub open spec fn wf(&self) -> bool {
        &&& self.snake.wf()
        &&& !self.game_over ==> on_map(self.snake@.last())
    }

    /// A new game: the starting snake, heading right, not over.
    pub fn new() -> (g: GameState)
        ensures
            g.wf(),
            g@.segments == seq![(7i32, 9i32), (8i32, 9i32), (9i32, 9i32), (10i32, 9i32)],
            g@.heading == Direction::Right,
            !g@.game_over,
    {
        GameState { snake: init_snake(), heading: Direction::Right, game_over: false }
    }

    /// Sets the heading, whatever it was before; reversing into the body is
    /// allowed.
    pub fn change_direction(&mut self, d: Direction)
        ensures
            final(self)@ == on_event(old(self)@, Event::Turn(d)),
            old(self).wf() ==> final(self).wf(),
    {
        self.heading = d;
    }

    /// Advances the snake one tile along the current heading.
    pub fn move_snake_segments(&mut self)
        requires
            old(self).snake@.len() >= 1,
            can_step(old(self).snake@.last(), old(self).heading),
        ensures
            final(self)@.segments == advanced(old(self)@.segments, old(self).heading),
            final(self).heading == old(self).heading,
            final(self).game_over == old(self).game_over,
    {
        self.snake.segments = advance(&self.snake.segments, self.heading);
    }

    /// Ends the game if the head has left the map; never clears the flag.
    pub fn detect_map_collision(&mut self)
        requires
            old(self).snake@.len() >= 1,
        ensures
            final(self)@.segments == old(self)@.segments,
            final(self).heading == old(self).heading,
            final(self).game_over == (old(self).game_over || hits_wall(old(self)@.segments)),
    {
        if check_wall_collision(&self.snake.segments) {
            self.game_over = true;
        }
    }

    /// Ends the game if the head shares a tile with another segment; never
    /// clears the flag.
    pub fn detect_body_collision(&mut self)
        requires
            old(self).snake@.len() >= 1,
        ensures
            final(self)@.segments == old(self)@.segments,
            final(self).heading == old(self).heading,
            final(self).game_over == (old(self).game_over || hits_body(old(self)@.segments)),
    {
        if check_self_collision(&self.snake.segments) {
            self.game_over = true;
        }
    }

    /// One tick of the game: unless it is over, the snake advances and both
    /// collision checks run on the result.
    pub fn tick(&mut self)
        requires
            old(self).wf(),
        ensures
            final(self)@ == ticked(old(self)@),
            final(self).wf(),
    {
        if self.game_over {
            return;
        }
        self.move_snake_segments();
        self.detect_map_collision();
        self.detect_body_collision();
    }

    /// Applies one event.
    pub fn handle(&mut self, e: Event)
        requires
            old(self).wf(),
        ensures
            final(self)@ == on_event(old(self)@, e),
            final(self).wf(),
    {
        match e {
            Event::Tick => self.tick(),
            Event::Turn(d) => self.change_direction(d),
        }
    }

    /// Whether the game has ended.
    pub fn is_game_over(&self) -> (r: bool)
        ensures
            r == self.game_over,
    {
        self.game_over
    }
}

} // verus!
