//! The shape catalog and the active piece.

use vstd::arithmetic::div_mod::{
    lemma_add_mod_noop_right, lemma_mod_add_multiples_vanish, lemma_mod_pos_bound,
    lemma_mod_self_0, lemma_small_mod,
};
use vstd::prelude::*;
use crate::draw::{draw_at, draw_cell, DrawCell};

verus! {

/// A grid coordinate or an offset from a pivot: `x` grows to the right, `y` upward.
pub type Point = (i8, i8);

/// A move that the player or gravity asks of the active piece.
#[derive(Clone, Copy, Debug, PartialEq, Eq, Structural)]
pub enum Movement {
    Left,
    Right,
    Down,
    Rotate,
}

/// The seven kinds of piece.
#[derive(Clone, Copy, Debug, PartialEq, Eq, Structural)]
pub enum Shape {
    O,
    I,
    S,
    Z,
    L,
    J,
    T,
}

/// The number of shapes.
pub const SHAPE_COUNT: usize = 7;

/// The seven shapes in catalog order.
pub open spec fn all_shapes() -> Seq<Shape> {
    seq![Shape::O, Shape::I, Shape::S, Shape::Z, Shape::L, Shape::J, Shape::T]
}

impl Shape {
    /// The position of the shape in catalog order.
    pub open spec fn position(self) -> int {
        match self {
            Shape::O => 0,
            Shape::I => 1,
            Shape::S => 2,
            Shape::Z => 3,
            Shape::L => 4,
            Shape::J => 5,
            Shape::T => 6,
        }
    }

    /// The seven shapes in catalog order.
    pub fn all() -> (shapes: [Shape; SHAPE_COUNT])
        ensures
            shapes@ == all_shapes(),
    {
        [Shape::O, Shape::I, Shape::S, Shape::Z, Shape::L, Shape::J, Shape::T]
    }

    /// The position of the shape in catalog order.
    pub fn index(self) -> (index: usize)
        ensures
            index == self.position(),
            index < SHAPE_COUNT,
            all_shapes()[index as int] == self,
    {
        match self {
            Shape::O => 0,
            Shape::I => 1,
            Shape::S => 2,
            Shape::Z => 3,
            Shape::L => 4,
            Shape::J => 5,
            Shape::T => 6,
        }
    }
}

/// A colour as red, green and blue intensities.
#[derive(Clone, Copy, Debug, PartialEq, Eq, Structural)]
pub struct Rgb {
    pub r: u8,
    pub g: u8,
    pub b: u8,
}

/// The colour in which a shape is drawn.
pub open spec fn color_of(shape: Shape) -> Rgb {
    match shape {
        Shape::O => Rgb { r: 0, g: 0, b: 255 },
        Shape::I => Rgb { r: 0, g: 255, b: 255 },
        Shape::S => Rgb { r: 255, g: 255, b: 0 },
        Shape::Z => Rgb { r: 0, g: 255, b: 0 },
        Shape::L => Rgb { r: 255, g: 0, b: 0 },
        Shape::J => Rgb { r: 255, g: 165, b: 0 },
        Shape::T => Rgb { r: 255, g: 0, b: 255 },
    }
}

/// A point as a pair of mathematical integers.
pub open spec fn cell_of(point: Point) -> (int, int) {
    (point.0 as int, point.1 as int)
}

/// Four points as a sequence of integer pairs.
pub open spec fn cells_of(points: [Point; 4]) -> Seq<(int, int)> {
    points@.map_values(|point: Point| cell_of(point))
}

/// The rotation states of a shape, in the order in which rotating walks
/// through them. Each state lists four offsets from the pivot.
pub open spec fn rotation_states(shape: Shape) -> Seq<Seq<(int, int)>> {
    match shape {
        Shape::O => seq![seq![(1, 1), (0, 1), (1, 0), (0, 0)]],
        Shape::I => seq![
            seq![(1, 2), (1, 1), (1, 0), (1, -1)],
            seq![(2, 0), (1, 0), (-1, 0), (0, 0)],
        ],
        Shape::S => seq![
            seq![(0, 1), (1, 0), (0, 0), (1, -1)],
            seq![(1, 0), (0, 0), (0, -1), (-1, -1)],
        ],
        Shape::Z => seq![
            seq![(1, 1), (1, 0), (0, 0), (0, -1)],
            seq![(0, 0), (-1, 0), (1, -1), (0, -1)],
        ],
        Shape::L => seq![
            seq![(0, 1), (0, 0), (1, -1), (0, -1)],
            seq![(1, 0), (0, 0), (-1, 0), (-1, -1)],
            seq![(0, 1), (-1, 1), (0, 0), (0, -1)],
            seq![(1, 1), (1, 0), (0, 0), (-1, 0)],
        ],
        Shape::J => seq![
            seq![(0, 1), (0, 0), (0, -1), (-1, -1)],
            seq![(-1, 1), (1, 0), (0, 0), (-1, 0)],
            seq![(1, 1), (0, 1), (0, 0), (0, -1)],
            seq![(1, 0), (0, 0), (-1, 0), (1, -1)],
        ],
        Shape::T => seq![
            seq![(0, 1), (1, 0), (0, 0), (-1, 0)],
            seq![(0, 1), (1, 0), (0, 0), (0, -1)],
            seq![(1, 0), (0, 0), (-1, 0), (0, -1)],
            seq![(0, 1), (0, 0), (-1, 0), (0, -1)],
        ],
    }
}

/// The number of distinct rotation states of a shape.
pub open spec fn state_count(shape: Shape) -> nat {
    match shape {
        Shape::O => 1,
        Shape::I | Shape::S | Shape::Z => 2,
        Shape::L | Shape::J | Shape::T => 4,
    }
}

/// Every shape has as many rotation states as its symmetry leaves distinct:
/// one for O, two for I, S and Z, four for L, J and T. Every state has
/// exactly four offsets.
pub proof fn lemma_state_counts(shape: Shape)
    ensures
        rotation_states(shape).len() == state_count(shape),
        forall|i: int|
            0 <= i < rotation_states(shape).len() ==> (#[trigger] rotation_states(shape)[i]).len()
                == 4,
{
}

/// No offset of any rotation state lies more than one cell left of or below
/// the pivot, nor more than two cells right of or above it.
pub proof fn lemma_offsets_bounded(shape: Shape, state: int, i: int)
    requires
        0 <= state < rotation_states(shape).len(),
        0 <= i < 4,
    ensures
        -1 <= rotation_states(shape)[state][i].0 <= 2,
        -1 <= rotation_states(shape)[state][i].1 <= 2,
{
}

/// What the catalog holds for one shape: its colour and its rotation states.
pub struct TetriminoModel {
    pub shape: Shape,
    pub color: Rgb,
    pub states: Vec<[Point; 4]>,
}

impl TetriminoModel {
    /// The rotation states as sequences of offsets.
    pub open spec fn offsets(&self) -> Seq<Seq<(int, int)>> {
        self.states@.map_values(|state: [Point; 4]| cells_of(state))
    }

    /// The catalog entry of `shape`.
    pub fn new(shape: Shape) -> (model: Self)
        ensures
            model.shape == shape,
            model.color == color_of(shape),
            model.offsets() == rotation_states(shape),
            model.states@.len() == state_count(shape),
    {
        let (color, states): (Rgb, Vec<[Point; 4]>) = match shape {
            Shape::O => (Rgb { r: 0, g: 0, b: 255 }, vec![[(1, 1), (0, 1), (1, 0), (0, 0)]]),
            Shape::I => (
                Rgb { r: 0, g: 255, b: 255 },
                vec![
                    [(1, 2), (1, 1), (1, 0), (1, -1)],
                    [(2, 0), (1, 0), (-1, 0), (0, 0)],
                ],
            ),
            Shape::S => (
                Rgb { r: 255, g: 255, b: 0 },
                vec![
                    [(0, 1), (1, 0), (0, 0), (1, -1)],
                    [(1, 0), (0, 0), (0, -1), (-1, -1)],
                ],
            ),
            Shape::Z => (
                Rgb { r: 0, g: 255, b: 0 },
                vec![
                    [(1, 1), (1, 0), (0, 0), (0, -1)],
                    [(0, 0), (-1, 0), (1, -1), (0, -1)],
                ],
            ),
            Shape::L => (
                Rgb { r: 255, g: 0, b: 0 },
                vec![
                    [(0, 1), (0, 0), (1, -1), (0, -1)],
                    [(1, 0), (0, 0), (-1, 0), (-1, -1)],
                    [(0, 1), (-1, 1), (0, 0), (0, -1)],
                    [(1, 1), (1, 0), (0, 0), (-1, 0)],
                ],
            ),
            Shape::J => (
                Rgb { r: 255, g: 165, b: 0 },
                vec![
                    [(0, 1), (0, 0), (0, -1), (-1, -1)],
                    [(-1, 1), (1, 0), (0, 0), (-1, 0)],
                    [(1, 1), (0, 1), (0, 0), (0, -1)],
                    [(1, 0), (0, 0), (-1, 0), (1, -1)],
                ],
            ),
            Shape::T => (
                Rgb { r: 255, g: 0, b: 255 },
                vec![
                    [(0, 1), (1, 0), (0, 0), (-1, 0)],
                    [(0, 1), (1, 0), (0, 0), (0, -1)],
                    [(1, 0), (0, 0), (-1, 0), (0, -1)],
                    [(0, 1), (0, 0), (-1, 0), (0, -1)],
                ],
            ),
        };
        let model = Self { shape, color, states };
        assert(model.offsets() =~~= rotation_states(shape));
        model
    }
}

/// Whether `model` is the catalog's entry for `shape`.
pub open spec fn is_model_of(model: TetriminoModel, shape: Shape) -> bool {
    &&& model.shape == shape
    &&& model.color == color_of(shape)
    &&& model.offsets() == rotation_states(shape)
}

/// Whether `models` is the catalog: the entry of every shape, in catalog order.
pub open spec fn is_catalog(models: Seq<TetriminoModel>) -> bool {
    &&& models.len() == SHAPE_COUNT
    &&& forall|i: int| 0 <= i < SHAPE_COUNT ==> is_model_of(#[trigger] models[i], all_shapes()[i])
}

/// The catalog: the entry of every shape, in catalog order.
pub fn catalog() -> (models: Vec<TetriminoModel>)
    ensures
        is_catalog(models@),
{
    let shapes = Shape::all();
    let mut models: Vec<TetriminoModel> = Vec::new();
    let mut i: usize = 0;
    while i < SHAPE_COUNT
        invariant
            i <= SHAPE_COUNT,
            shapes@ == all_shapes(),
            models@.len() == i,
            forall|k: int| 0 <= k < i ==> is_model_of(#[trigger] models@[k], all_shapes()[k]),
        decreases SHAPE_COUNT - i,
    {
        models.push(TetriminoModel::new(shapes[i]));
        i += 1;
    }
    models
}

/// `cells` shifted by `dx` columns and `dy` rows.
pub open spec fn shifted(cells: Seq<(int, int)>, dx: int, dy: int) -> Seq<(int, int)> {
    cells.map_values(|cell: (int, int)| (cell.0 + dx, cell.1 + dy))
}

/// Whether every coordinate of `cells` can be held in a `Point`.
pub open spec fn fits(cells: Seq<(int, int)>) -> bool {
    forall|i: int|
        0 <= i < cells.len() ==> i8::MIN <= (#[trigger] cells[i]).0 <= i8::MAX && i8::MIN
            <= cells[i].1 <= i8::MAX
}

/// The active piece: an anchor in the well, a catalog entry, and the index of
/// the rotation state it is in.
pub struct Tetrimino<'a> {
    coords: Point,
    model: &'a TetriminoModel,
    index: usize,
}

impl<'a> Tetrimino<'a> {
    /// The anchor: the grid position of the pivot.
    pub closed spec fn anchor(&self) -> Point {
        self.coords
    }

    /// The catalog entry that the piece was made from.
    pub closed spec fn model(&self) -> TetriminoModel {
        *self.model
    }

    /// The index of the current rotation state.
    pub closed spec fn rotation(&self) -> int {
        self.index as int
    }

    /// The rotation index is one of the model's states.
    pub open spec fn wf(&self) -> bool {
        0 <= self.rotation() < self.model().states@.len()
    }

    /// The index of the state that a rotation leads to.
    pub open spec fn next_rotation(&self) -> int {
        (self.rotation() + 1) % (self.model().states@.len() as int)
    }

    /// The four grid cells that the piece covers.
    pub open spec fn cells(&self) -> Seq<(int, int)> {
        shifted(
            self.model().offsets()[self.rotation()],
            self.anchor().0 as int,
            self.anchor().1 as int,
        )
    }

    /// The four grid cells that the piece would cover after `movement`. A
    /// move sideways or down shifts the current cells by one; a rotation
    /// places the next rotation state at the unchanged anchor.
    pub open spec fn candidate(&self, movement: Movement) -> Seq<(int, int)> {
        match movement {
            Movement::Left => shifted(self.cells(), -1, 0),
            Movement::Right => shifted(self.cells(), 1, 0),
            Movement::Down => shifted(self.cells(), 0, -1),
            Movement::Rotate => shifted(
                self.model().offsets()[self.next_rotation()],
                self.anchor().0 as int,
                self.anchor().1 as int,
            ),
        }
    }

    /// Where `movement` takes the anchor.
    pub open spec fn moved_anchor(&self, movement: Movement) -> (int, int) {
        match movement {
            Movement::Left => (self.anchor().0 - 1, self.anchor().1 as int),
            Movement::Right => (self.anchor().0 + 1, self.anchor().1 as int),
            Movement::Down => (self.anchor().0 as int, self.anchor().1 - 1),
            Movement::Rotate => (self.anchor().0 as int, self.anchor().1 as int),
        }
    }

    /// The piece after `movement` was committed.
    pub closed spec fn after(self, movement: Movement) -> Self {
        Tetrimino {
            coords: (self.moved_anchor(movement).0 as i8, self.moved_anchor(movement).1 as i8),
            model: self.model,
            index: if movement == Movement::Rotate {
                self.next_rotation() as usize
            } else {
                self.index
            },
        }
    }

    /// The piece after `turns` committed rotations.
    pub open spec fn rotated(self, turns: nat) -> Self
        decreases turns,
    {
        if turns == 0 {
            self
        } else {
            self.rotated((turns - 1) as nat).after(Movement::Rotate)
        }
    }

    /// A piece of the given model at `coords`, in the model's first rotation state.
    pub fn new(coords: Point, model: &'a TetriminoModel) -> (piece: Self)
        requires
            model.states@.len() > 0,
        ensures
            piece.wf(),
            piece.anchor() == coords,
            piece.model() == *model,
            piece.rotation() == 0,
    {
        Self { coords, model, index: 0 }
    }

    /// The shape that the piece is drawn as.
    pub fn shape(&self) -> (shape: Shape)
        ensures
            shape == self.model().shape,
    {
        self.model.shape
    }

    /// The draw instructions for the four cells of the piece, in the order of
    /// the rotation state's offsets.
    pub fn render(&self) -> (cells: Vec<DrawCell>)
        requires
            self.wf(),
        ensures
            cells@ == self.cells().map_values(|cell: (int, int)| draw_at(self.model().shape, cell)),
    {
        let state = &self.model.states[self.index];
        let mut cells: Vec<DrawCell> = Vec::new();
        let mut i: usize = 0;
        while i < 4
            invariant
                i <= 4,
                self.wf(),
                *state == self.model().states@[self.rotation()],
                cells@ == self.cells().take(i as int).map_values(
                    |cell: (int, int)| draw_at(self.model().shape, cell),
                ),
            decreases 4 - i,
        {
            let (dx, dy): Point = state[i];
            let x: i16 = dx as i16 + self.coords.0 as i16;
            let y: i16 = dy as i16 + self.coords.1 as i16;
            cells.push(draw_cell(self.model.shape, x, y));
            i += 1;
        }
        cells
    }

    /// The cells that the piece would cover after `movement`; the piece itself
    /// is left as it is.
    pub fn next_state(&self, movement: Movement) -> (cells: [Point; 4])
        requires
            self.wf(),
            fits(self.candidate(movement)),
        ensures
            cells_of(cells) == self.candidate(movement),
    {
        let (index, dx, dy): (usize, i16, i16) = match movement {
            Movement::Left => (self.index, -1, 0),
            Movement::Right => (self.index, 1, 0),
            Movement::Down => (self.index, 0, -1),
            Movement::Rotate => (self.next_index(), 0, 0),
        };
        let state = &self.model.states[index];
        let x: i16 = self.coords.0 as i16 + dx;
        let y: i16 = self.coords.1 as i16 + dy;
        assert(self.candidate(movement) =~= shifted(cells_of(*state), x as int, y as int));
        placed(state, x, y)
    }

    /// The cells that the piece covers now.
    pub fn current_state(&self) -> (cells: [Point; 4])
        requires
            self.wf(),
            fits(self.cells()),
        ensures
            cells_of(cells) == self.cells(),
    {
        let state = &self.model.states[self.index];
        placed(state, self.coords.0 as i16, self.coords.1 as i16)
    }

    /// Commits `movement`: a move sideways or down shifts the anchor by one
    /// cell, a rotation steps to the next rotation state, wrapping after the last.
    pub fn advance(&mut self, movement: Movement)
        requires
            old(self).wf(),
            i8::MIN <= old(self).moved_anchor(movement).0 <= i8::MAX,
            i8::MIN <= old(self).moved_anchor(movement).1 <= i8::MAX,
        ensures
            *final(self) == old(self).after(movement),
            final(self).wf(),
            final(self).cells() == old(self).candidate(movement),
            final(self).model() == old(self).model(),
            cell_of(final(self).anchor()) == old(self).moved_anchor(movement),
            final(self).rotation() == if movement == Movement::Rotate {
                old(self).next_rotation()
            } else {
                old(self).rotation()
            },
    {
        match movement {
            Movement::Left => self.coords.0 = self.coords.0 - 1,
            Movement::Right => self.coords.0 = self.coords.0 + 1,
            Movement::Down => self.coords.1 = self.coords.1 - 1,
            Movement::Rotate => self.index = self.next_index(),
        }
    }

    /// What `turns` rotations do to a piece: the anchor and the model stay, the
    /// rotation index moves on by `turns`, wrapping at the number of states.
    proof fn lemma_rotated(self, turns: nat)
        requires
            self.wf(),
        ensures
            self.rotated(turns).coords == self.coords,
            self.rotated(turns).model == self.model,
            self.rotated(turns).index == (self.index + turns) % (self.model.states@.len() as int),
        decreases turns,
    {
        let count = self.model.states@.len() as int;
        if turns == 0 {
            lemma_small_mod(self.index as nat, count as nat);
        } else {
            self.lemma_rotated((turns - 1) as nat);
            lemma_add_mod_noop_right(1, self.index + turns - 1, count);
            lemma_mod_pos_bound(self.index + turns, count);
            assert(count == self.model.states.len());
        }
    }

    /// Rotating a piece as many times as it has rotation states brings it back
    /// to where it started: the same rotation index and the same cells.
    pub proof fn lemma_full_cycle(self)
        requires
            self.wf(),
        ensures
            self.rotated(self.model().states@.len()) == self,
            self.rotated(self.model().states@.len()).rotation() == self.rotation(),
            self.rotated(self.model().states@.len()).cells() == self.cells(),
    {
        let count = self.model.states@.len();
        self.lemma_rotated(count);
        lemma_mod_add_multiples_vanish(self.index as int, count as int);
        lemma_small_mod(self.index as nat, count);
    }

    fn next_index(&self) -> (index: usize)
        requires
            self.wf(),
        ensures
            index == self.next_rotation(),
            index < self.model().states@.len(),
    {
        let count = self.model.states.len();
        if self.index + 1 < count {
            proof {
                lemma_small_mod((self.index + 1) as nat, count as nat);
            }
            self.index + 1
        } else {
            proof {
                lemma_mod_self_0(count as int);
            }
            0
        }
    }
}

/// The four offsets of `state` moved to the anchor `(x, y)`.
fn placed(state: &[Point; 4], x: i16, y: i16) -> (cells: [Point; 4])
    requires
        -129 <= x <= 128,
        -129 <= y <= 128,
        fits(shifted(cells_of(*state), x as int, y as int)),
    ensures
        cells_of(cells) == shifted(cells_of(*state), x as int, y as int),
{
    let ghost target = shifted(cells_of(*state), x as int, y as int);
    let cells = [
        ((state[0].0 as i16 + x) as i8, (state[0].1 as i16 + y) as i8),
        ((state[1].0 as i16 + x) as i8, (state[1].1 as i16 + y) as i8),
        ((state[2].0 as i16 + x) as i8, (state[2].1 as i16 + y) as i8),
        ((state[3].0 as i16 + x) as i8, (state[3].1 as i16 + y) as i8),
    ];
    assert(cells_of(cells) =~= target);
    cells
}

} // verus!
