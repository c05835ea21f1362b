//! The session: one active piece in the well, the bag that deals the next
//! one, the totals, and how an event becomes a move, a move a lock, and a
//! lock either cleared lines and a new piece or the end of the game.

use vstd::arithmetic::div_mod::lemma_mod_pos_bound;
use vstd::prelude::*;
use crate::bag::Bag;
use crate::draw::{draw_at, DrawCell};
use crate::game::{
    blocked, cleared, completed, empty_grid, grid_drawn, in_grid, stamped, Field,
};
use crate::score::{lemma_room_for_each, Scoreboard};
use crate::tetrimino::{
    cells_of, is_catalog, is_model_of, lemma_offsets_bounded, lemma_state_counts, rotation_states,
    Movement, Point, Shape, Tetrimino, TetriminoModel,
};
use crate::{HEIGHT, ROWS, WIDTH};

verus! {

/// Milliseconds between two gravity ticks.
pub const TICK_SPEED: u32 = 500;

/// Milliseconds between two gravity ticks while the player holds the piece down.
pub const SOFT_DROP_SPEED: u32 = TICK_SPEED / 10;

/// The anchor at which every piece starts: the middle column, one row above
/// the visible well.
pub const SPAWN_COORDS: Point = (4, 21);

/// What the platform reports to the session.
#[derive(Clone, Copy, Debug, PartialEq, Eq, Structural)]
pub enum Event {
    Quit,
    MoveLeft,
    MoveRight,
    SoftDropStart,
    SoftDropEnd,
    Rotate,
    Tick,
}

/// Where the session stands.
#[derive(Clone, Copy, Debug, PartialEq, Eq, Structural)]
pub enum Status {
    /// A piece is falling.
    Falling,
    /// A piece came to rest entirely above the visible well.
    GameOver,
    /// The player left.
    Quit,
}

/// What a move did.
#[derive(Clone, Copy, Debug, PartialEq, Eq, Structural)]
pub enum Outcome {
    /// The piece took the move.
    Moved,
    /// The move was in the way of something and was dropped.
    Blocked,
    /// The piece could not descend: it was locked, that many lines were
    /// cleared, and a new piece was spawned.
    Locked(u32),
    /// The piece could not descend and lay entirely above the visible well.
    GameOver,
}

/// Whether all of `cells` lie above the visible well.
pub open spec fn topped_out(cells: Seq<(int, int)>) -> bool {
    forall|i: int| 0 <= i < cells.len() ==> (#[trigger] cells[i]).1 >= HEIGHT
}

/// The move that waits for the next step once `event` has come in: the last
/// event that asks for a move wins.
pub open spec fn movement_after(movement: Option<Movement>, event: Event) -> Option<Movement> {
    match event {
        Event::MoveLeft => Some(Movement::Left),
        Event::MoveRight => Some(Movement::Right),
        Event::Rotate => Some(Movement::Rotate),
        Event::SoftDropStart | Event::Tick => Some(Movement::Down),
        Event::SoftDropEnd | Event::Quit => movement,
    }
}

/// The gravity interval once `event` has come in: short while the piece is
/// held down, normal again when it is let go.
pub open spec fn tick_speed_after(tick_speed: u32, event: Event) -> u32 {
    match event {
        Event::SoftDropStart => SOFT_DROP_SPEED,
        Event::SoftDropEnd => TICK_SPEED,
        _ => tick_speed,
    }
}

/// The status once `event` has come in: quitting ends a running session.
pub open spec fn status_after(status: Status, event: Event) -> Status {
    if event == Event::Quit && status == Status::Falling {
        Status::Quit
    } else {
        status
    }
}

/// A session.
pub struct Game<'a> {
    /// The catalog that the pieces are made from.
    pub models: &'a Vec<TetriminoModel>,
    /// The well with the pieces locked so far.
    pub field: Field,
    /// The piece that is falling.
    pub tetrimino: Tetrimino<'a>,
    /// The bag that deals the next piece.
    pub bag: Bag,
    /// Lines, points and level.
    pub scores: Scoreboard,
    /// The move that the next step will try.
    pub movement: Option<Movement>,
    /// Milliseconds until the next gravity tick is due.
    pub tick_speed: u32,
    /// Whether the session is running, and how it ended if it is not.
    pub status: Status,
}

impl<'a> Game<'a> {
    /// The parts are well-formed, the piece is made from its shape's catalog
    /// entry, it lies inside the well, and it is not above where it spawned.
    pub open spec fn wf(&self) -> bool {
        &&& is_catalog(self.models@)
        &&& self.field.wf()
        &&& self.tetrimino.wf()
        &&& self.bag.wf()
        &&& self.scores.wf()
        &&& is_model_of(self.tetrimino.model(), self.tetrimino.model().shape)
        &&& self.tetrimino.anchor().1 <= SPAWN_COORDS.1
        &&& in_grid(self.field@, self.tetrimino.cells())
    }

    /// Whether `piece` is a new piece of catalog entry `model`.
    pub open spec fn spawned(piece: Tetrimino<'a>, model: TetriminoModel) -> bool {
        &&& piece.anchor() == SPAWN_COORDS
        &&& piece.rotation() == 0
        &&& piece.model() == model
    }

    /// What `movement` does in this state. A move to free cells is taken. A
    /// blocked move sideways or a blocked rotation is dropped. A blocked
    /// descent ends the game if the piece lies entirely above the visible
    /// well, and locks it otherwise.
    pub open spec fn outcome_of(&self, movement: Movement) -> Outcome {
        let cells = self.tetrimino.cells();
        let locked = stamped(self.field@, cells, self.tetrimino.model().shape);
        if !blocked(self.field@, self.tetrimino.candidate(movement)) {
            Outcome::Moved
        } else if movement != Movement::Down {
            Outcome::Blocked
        } else if topped_out(cells) {
            Outcome::GameOver
        } else {
            Outcome::Locked(completed(locked, cells).len() as u32)
        }
    }

    /// Whether `movement` takes the session from `self` to `after` with
    /// `outcome`, where `next` is the shape to spawn after a lock. Says
    /// nothing of the bag and of the waiting move.
    pub open spec fn steps(
        &self,
        after: Game<'a>,
        movement: Movement,
        next: Shape,
        outcome: Outcome,
    ) -> bool {
        let cells = self.tetrimino.cells();
        let locked = stamped(self.field@, cells, self.tetrimino.model().shape);
        &&& after.models == self.models
        &&& after.tick_speed == self.tick_speed
        &&& outcome == self.outcome_of(movement)
        &&& match outcome {
            Outcome::Moved => {
                &&& after.tetrimino == self.tetrimino.after(movement)
                &&& after.tetrimino.cells() == self.tetrimino.candidate(movement)
                &&& after.field == self.field
                &&& after.scores == self.scores
                &&& after.status == self.status
            },
            Outcome::Blocked => {
                &&& after.tetrimino == self.tetrimino
                &&& after.field == self.field
                &&& after.scores == self.scores
                &&& after.status == self.status
            },
            Outcome::GameOver => {
                &&& after.tetrimino == self.tetrimino
                &&& after.field == self.field
                &&& after.scores == self.scores
                &&& after.status == Status::GameOver
            },
            Outcome::Locked(lines) => {
                &&& after.field@ == cleared(locked, cells)
                &&& after.scores == self.scores.after(lines as int)
                &&& Self::spawned(after.tetrimino, self.models@[next.position()])
                &&& after.status == self.status
            },
        }
    }

    /// Whether `movement` takes the session from `self` to `after` with
    /// `outcome`, the bag dealing the piece that a lock spawns.
    pub open spec fn plays(&self, after: Game<'a>, movement: Movement, outcome: Outcome) -> bool {
        &&& self.steps(after, movement, self.bag.upcoming(), outcome)
        &&& if outcome is Locked {
            self.bag.deals(after.bag, self.bag.upcoming())
        } else {
            after.bag == self.bag
        }
    }

    /// How far the piece of a well-formed session can reach: every cell it
    /// may move to lies at most four cells outside the walls or below the
    /// floor, and none lies above the topmost row.
    proof fn lemma_reach(&self, movement: Movement)
        requires
            self.wf(),
        ensures
            self.tetrimino.cells().len() == 4,
            self.tetrimino.candidate(movement).len() == 4,
            forall|i: int|
                0 <= i < 4 ==> {
                    let cell = #[trigger] self.tetrimino.candidate(movement)[i];
                    -4 <= cell.0 <= 13 && -4 <= cell.1 < ROWS
                },
            -2 <= self.tetrimino.anchor().0 <= 10,
            -2 <= self.tetrimino.anchor().1 <= 21,
    {
        let piece = self.tetrimino;
        let shape = piece.model().shape;
        let now = piece.rotation();
        let then = piece.next_rotation();
        lemma_state_counts(shape);
        lemma_mod_pos_bound(now + 1, rotation_states(shape).len() as int);
        lemma_offsets_bounded(shape, now, 0);
        assert forall|i: int| 0 <= i < 4 implies {
            let cell = #[trigger] piece.candidate(movement)[i];
            -4 <= cell.0 <= 13 && -4 <= cell.1 < ROWS
        } by {
            lemma_offsets_bounded(shape, now, i);
            lemma_offsets_bounded(shape, then, i);
        }
        let first = piece.cells()[0];
        assert(0 <= first.0 < WIDTH && 0 <= first.1 < ROWS);
    }

    /// A new piece of any shape lies inside the well.
    proof fn lemma_spawn_in_grid(field: Field, piece: Tetrimino<'a>)
        requires
            field.wf(),
            piece.wf(),
            is_model_of(piece.model(), piece.model().shape),
            piece.anchor() == SPAWN_COORDS,
            piece.rotation() == 0,
        ensures
            in_grid(field@, piece.cells()),
    {
        let shape = piece.model().shape;
        lemma_state_counts(shape);
        assert forall|i: int| 0 <= i < piece.cells().len() implies {
            let cell = #[trigger] piece.cells()[i];
            0 <= cell.0 < WIDTH && 0 <= cell.1 < field@.len()
        } by {
            lemma_offsets_bounded(shape, 0, i);
        }
    }

    /// A session that starts with a piece of shape `first` in an empty well.
    pub fn start(models: &'a Vec<TetriminoModel>, bag: Bag, first: Shape) -> (game: Self)
        requires
            is_catalog(models@),
            bag.wf(),
        ensures
            game.wf(),
            game.models == models,
            game.field@ == empty_grid(),
            Self::spawned(game.tetrimino, models@[first.position()]),
            game.bag == bag,
            game.scores == (Scoreboard { total_cleared_lines: 0, score: 0, level: 1 }),
            game.movement is None,
            game.tick_speed == TICK_SPEED,
            game.status == Status::Falling,
    {
        let model = &models[first.index()];
        proof {
            lemma_state_counts(first);
        }
        let game = Game {
            models,
            field: Field::new(),
            tetrimino: Tetrimino::new(SPAWN_COORDS, model),
            bag,
            scores: Scoreboard::new(),
            movement: None,
            tick_speed: TICK_SPEED,
            status: Status::Falling,
        };
        proof {
            Self::lemma_spawn_in_grid(game.field, game.tetrimino);
        }
        game
    }

    /// A session whose pieces a freshly shuffled bag deals.
    pub fn new(models: &'a Vec<TetriminoModel>) -> (game: Self)
        requires
            is_catalog(models@),
        ensures
            game.wf(),
            game.models == models,
            game.field@ == empty_grid(),
            Self::spawned(game.tetrimino, models@[game.bag.round()[0].position()]),
            game.bag.dealt() == 1,
            game.scores == (Scoreboard { total_cleared_lines: 0, score: 0, level: 1 }),
            game.movement is None,
            game.tick_speed == TICK_SPEED,
            game.status == Status::Falling,
    {
        let mut bag = Bag::new();
        let first = bag.next();
        Game::start(models, bag, first)
    }

    /// The draw instructions for one frame: the four cells of the piece,
    /// then the occupied cells of the well.
    pub fn render(&self) -> (cells: Vec<DrawCell>)
        requires
            self.wf(),
        ensures
            cells@ == self.tetrimino.cells().map_values(
                |cell: (int, int)| draw_at(self.tetrimino.model().shape, cell),
            ) + grid_drawn(self.field@, ROWS as nat),
    {
        let mut cells = self.tetrimino.render();
        let mut settled = self.field.render();
        cells.append(&mut settled);
        cells
    }

    /// Takes in one event: remembers the move it asks for, adjusts the
    /// gravity interval, or ends the session.
    pub fn handle(&mut self, event: Event)
        ensures
            final(self).movement == movement_after(old(self).movement, event),
            final(self).tick_speed == tick_speed_after(old(self).tick_speed, event),
            final(self).status == status_after(old(self).status, event),
            final(self).models == old(self).models,
            final(self).field == old(self).field,
            final(self).tetrimino == old(self).tetrimino,
            final(self).bag == old(self).bag,
            final(self).scores == old(self).scores,
            old(self).wf() ==> final(self).wf(),
    {
        match event {
            Event::Quit => {
                if self.status == Status::Falling {
                    self.status = Status::Quit;
                }
            },
            Event::MoveLeft => self.movement = Some(Movement::Left),
            Event::MoveRight => self.movement = Some(Movement::Right),
            Event::Rotate => self.movement = Some(Movement::Rotate),
            Event::SoftDropStart => {
                self.movement = Some(Movement::Down);
                self.tick_speed = SOFT_DROP_SPEED;
            },
            Event::SoftDropEnd => self.tick_speed = TICK_SPEED,
            Event::Tick => self.movement = Some(Movement::Down),
        }
    }

    /// Tries `movement`, spawning a piece of shape `next` if the piece locks.
    pub fn apply_with(&mut self, movement: Movement, next: Shape) -> (outcome: Outcome)
        requires
            old(self).wf(),
            old(self).status == Status::Falling,
            old(self).scores.has_room(),
        ensures
            final(self).wf(),
            old(self).steps(*final(self), movement, next, outcome),
            final(self).bag == old(self).bag,
            final(self).movement == old(self).movement,
    {
        proof {
            self.lemma_reach(movement);
        }
        let candidate = self.tetrimino.next_state(movement);
        if !self.field.is_occupied(candidate) {
            self.tetrimino.advance(movement);
            Outcome::Moved
        } else if movement != Movement::Down {
            Outcome::Blocked
        } else {
            let cells = self.tetrimino.current_state();
            if is_topped_out(&cells) {
                self.status = Status::GameOver;
                Outcome::GameOver
            } else {
                self.field.set_occupied(cells, self.tetrimino.shape());
                let lines = self.field.update_lines(cells);
                proof {
                    lemma_room_for_each(self.scores, lines as int);
                }
                self.scores.record(lines);
                let models = self.models;
                let model = &models[next.index()];
                proof {
                    lemma_state_counts(next);
                }
                self.tetrimino = Tetrimino::new(SPAWN_COORDS, model);
                proof {
                    Self::lemma_spawn_in_grid(self.field, self.tetrimino);
                }
                Outcome::Locked(lines)
            }
        }
    }

    /// Tries `movement`. If the piece locks, the bag deals the next one.
    pub fn apply(&mut self, movement: Movement) -> (outcome: Outcome)
        requires
            old(self).wf(),
            old(self).status == Status::Falling,
            old(self).scores.has_room(),
        ensures
            final(self).wf(),
            old(self).plays(*final(self), movement, outcome),
            final(self).movement == old(self).movement,
    {
        let next = self.bag.peek();
        let outcome = self.apply_with(movement, next);
        if let Outcome::Locked(_) = outcome {
            let _ = self.bag.next();
        }
        outcome
    }

    /// One step of the simulation: tries the move that waits, if the session
    /// is running and a move waits, and forgets it either way.
    pub fn step(&mut self) -> (outcome: Option<Outcome>)
        requires
            old(self).wf(),
            old(self).scores.has_room(),
        ensures
            final(self).wf(),
            final(self).movement is None,
            match outcome {
                Some(outcome) => {
                    &&& old(self).status == Status::Falling
                    &&& old(self).movement is Some
                    &&& old(self).plays(*final(self), old(self).movement->0, outcome)
                },
                None => {
                    &&& old(self).status != Status::Falling || old(self).movement is None
                    &&& final(self).models == old(self).models
                    &&& final(self).field == old(self).field
                    &&& final(self).tetrimino == old(self).tetrimino
                    &&& final(self).bag == old(self).bag
                    &&& final(self).scores == old(self).scores
                    &&& final(self).tick_speed == old(self).tick_speed
                    &&& final(self).status == old(self).status
                },
            },
    {
        let waiting = self.movement;
        self.movement = None;
        match waiting {
            Some(movement) => {
                if self.status == Status::Falling {
                    Some(self.apply(movement))
                } else {
                    None
                }
            },
            None => None,
        }
    }
}

/// Whether all four points lie above the visible well.
pub fn is_topped_out(points: &[Point; 4]) -> (above: bool)
    ensures
        above == topped_out(cells_of(*points)),
{
    let ghost cells = cells_of(*points);
    let mut i: usize = 0;
    while i < 4
        invariant
            i <= 4,
            cells == cells_of(*points),
            forall|k: int| 0 <= k < i ==> (#[trigger] cells[k]).1 >= HEIGHT,
        decreases 4 - i,
    {
        let (_, y): Point = points[i];
        assert(cells[i as int].1 == y);
        if y < 0 || (y as usize) < HEIGHT {
            return false;
        }
        i += 1;
    }
    true
}

} // verus!
