//! The seven piece kinds and the tables that describe them.
//!
//! A layout names four cells of a 4×4 reference grid by their row-major
//! index:
//!
//! ```text
//!  0  1  2  3
//!  4  5  6  7
//!  8  9 10 11
//! 12 13 14 15
//! ```

use vstd::prelude::*;

verus! {

/// The kind of a piece.
#[derive(Debug, Copy, Clone, PartialEq, Eq, Structural)]
pub enum Shape {
    I,
    T,
    L,
    J,
    S,
    Z,
    O,
}

/// The direction of a quarter turn.
#[derive(Debug, Copy, Clone, PartialEq, Eq, Structural)]
pub enum Rotation {
    Right,
    Left,
}

/// Edge length, in pixels, of one tile of the sprite sheet and of the grid.
pub const TILE_SIZE: u32 = 18;

/// The layout a shape has when it is created: four cells of the reference grid.
pub open spec fn default_layout(shape: Shape) -> Seq<u8> {
    match shape {
        Shape::I => seq![4u8, 5u8, 6u8, 7u8],
        Shape::J => seq![0u8, 4u8, 5u8, 6u8],
        Shape::L => seq![3u8, 5u8, 6u8, 7u8],
        Shape::O => seq![2u8, 3u8, 6u8, 7u8],
        Shape::S => seq![2u8, 3u8, 5u8, 6u8],
        Shape::Z => seq![0u8, 1u8, 5u8, 6u8],
        Shape::T => seq![1u8, 4u8, 5u8, 6u8],
    }
}

/// The layout of a shape in each of its four orientations. The tables are
/// curated by hand; they are not derived from one another by a formula.
pub open spec fn rotation_layout(shape: Shape, angle: int) -> Seq<u8> {
    match shape {
        Shape::I => if angle == 0 {
            seq![4u8, 5u8, 6u8, 7u8]
        } else if angle == 1 {
            seq![2u8, 6u8, 10u8, 14u8]
        } else if angle == 2 {
            seq![8u8, 9u8, 10u8, 11u8]
        } else {
            seq![1u8, 5u8, 9u8, 13u8]
        },
        Shape::J => if angle == 0 {
            seq![0u8, 4u8, 5u8, 6u8]
        } else if angle == 1 {
            seq![1u8, 2u8, 5u8, 9u8]
        } else if angle == 2 {
            seq![4u8, 5u8, 6u8, 10u8]
        } else {
            seq![1u8, 5u8, 8u8, 9u8]
        },
        Shape::L => if angle == 0 {
            seq![3u8, 5u8, 6u8, 7u8]
        } else if angle == 1 {
            seq![2u8, 6u8, 10u8, 11u8]
        } else if angle == 2 {
            seq![5u8, 6u8, 7u8, 9u8]
        } else {
            seq![1u8, 2u8, 6u8, 10u8]
        },
        Shape::O => seq![2u8, 3u8, 6u8, 7u8],
        Shape::S => if angle == 0 {
            seq![2u8, 3u8, 5u8, 6u8]
        } else if angle == 1 {
            seq![2u8, 6u8, 7u8, 11u8]
        } else if angle == 2 {
            seq![6u8, 7u8, 9u8, 10u8]
        } else {
            seq![1u8, 5u8, 6u8, 10u8]
        },
        Shape::Z => if angle == 0 {
            seq![0u8, 1u8, 5u8, 6u8]
        } else if angle == 1 {
            seq![2u8, 5u8, 6u8, 9u8]
        } else if angle == 2 {
            seq![4u8, 5u8, 9u8, 10u8]
        } else {
            seq![1u8, 4u8, 5u8, 8u8]
        },
        Shape::T => if angle == 0 {
            seq![1u8, 4u8, 5u8, 6u8]
        } else if angle == 1 {
            seq![1u8, 5u8, 6u8, 9u8]
        } else if angle == 2 {
            seq![4u8, 5u8, 6u8, 9u8]
        } else {
            seq![1u8, 4u8, 5u8, 9u8]
        },
    }
}

/// The horizontal offset of a shape's tile in the sprite sheet.
pub open spec fn sprite_offset(shape: Shape) -> int {
    match shape {
        Shape::J => 0,
        Shape::T => 18,
        Shape::Z => 36,
        Shape::S => 54,
        Shape::O => 72,
        Shape::I => 90,
        Shape::L => 108,
    }
}

/// The shape that a draw of a number stands for: 0 to 5 name the first six
/// kinds, every other number the square.
pub open spec fn shape_of_roll(roll: int) -> Shape {
    if roll == 0 {
        Shape::I
    } else if roll == 1 {
        Shape::T
    } else if roll == 2 {
        Shape::L
    } else if roll == 3 {
        Shape::J
    } else if roll == 4 {
        Shape::S
    } else if roll == 5 {
        Shape::Z
    } else {
        Shape::O
    }
}

/// Draws a number from `low` up to, not including, `high` from the thread's
/// random number generator.
///
/// Trusted: this calls `rand::Rng::gen_range(low, high)` on
/// `rand::thread_rng()`. The contract claims only what `gen_range` documents
/// of every draw, that the result is at least `low` and less than `high`;
/// which number comes is left open. `gen_range` panics when `low >= high`,
/// so such bounds are not accepted.
#[verifier::external_body]
fn roll_between(low: u32, high: u32) -> (roll: u32)
    requires
        low < high,
    ensures
        low <= roll < high,
{
    rand::Rng::gen_range(&mut rand::thread_rng(), low, high)
}

/// A layout is valid when it names four different cells of the reference grid.
pub open spec fn is_valid_layout(layout: Seq<u8>) -> bool {
    &&& layout.len() == 4
    &&& forall|i: int| 0 <= i < 4 ==> #[trigger] layout[i] < 16
    &&& forall|i: int, j: int| 0 <= i < j < 4 ==> layout[i] != layout[j]
}

/// Every orientation of every shape has a valid layout, and orientation 0
/// has the layout that the shape is created with.
pub proof fn lemma_rotation_layouts_valid(shape: Shape, angle: int)
    requires
        0 <= angle < 4,
    ensures
        is_valid_layout(rotation_layout(shape, angle)),
        rotation_layout(shape, 0) == default_layout(shape),
{
    assert(rotation_layout(shape, 0) =~= default_layout(shape));
}

impl Shape {
    /// Returns the layout the shape has when it is created.
    pub fn matrix(&self) -> (layout: [u8; 4])
        ensures
            layout@ == default_layout(*self),
    {
        let layout: [u8; 4] = match self {
            Shape::I => [4, 5, 6, 7],
            Shape::J => [0, 4, 5, 6],
            Shape::L => [3, 5, 6, 7],
            Shape::O => [2, 3, 6, 7],
            Shape::S => [2, 3, 5, 6],
            Shape::Z => [0, 1, 5, 6],
            Shape::T => [1, 4, 5, 6],
        };
        assert(layout@ =~= default_layout(*self));
        layout
    }

    /// Returns the horizontal offset of the shape's tile in the sprite sheet.
    pub fn texture_offset(&self) -> (offset: u8)
        ensures
            offset == sprite_offset(*self),
    {
        match self {
            Shape::I => 5 * 18,
            Shape::J => 0,
            Shape::L => 6 * 18,
            Shape::O => 4 * 18,
            Shape::S => 3 * 18,
            Shape::Z => 2 * 18,
            Shape::T => 18,
        }
    }

    /// Returns the shape that a draw of `roll` stands for.
    pub fn from_roll(roll: u32) -> (shape: Shape)
        ensures
            shape == shape_of_roll(roll as int),
    {
        match roll {
            0 => Shape::I,
            1 => Shape::T,
            2 => Shape::L,
            3 => Shape::J,
            4 => Shape::S,
            5 => Shape::Z,
            _ => Shape::O,
        }
    }

    /// Draws a shape at random: a number below 7 is drawn and the shape it
    /// stands for returned, so that each of the seven kinds can come.
    pub fn random() -> (shape: Shape)
        ensures
            exists|roll: int| 0 <= roll < 7 && shape == shape_of_roll(roll),
    {
        let roll = roll_between(0, 7);
        Shape::from_roll(roll)
    }

    /// Returns the layout of the shape in the orientation `angle`.
    pub fn rotated_matrix(&self, angle: usize) -> (layout: [u8; 4])
        requires
            angle < 4,
        ensures
            layout@ == rotation_layout(*self, angle as int),
    {
        let variations: [[u8; 4]; 4] = match self {
            Shape::I => [[4, 5, 6, 7], [2, 6, 10, 14], [8, 9, 10, 11], [1, 5, 9, 13]],
            Shape::J => [[0, 4, 5, 6], [1, 2, 5, 9], [4, 5, 6, 10], [1, 5, 8, 9]],
            Shape::L => [[3, 5, 6, 7], [2, 6, 10, 11], [5, 6, 7, 9], [1, 2, 6, 10]],
            Shape::O => [[2, 3, 6, 7], [2, 3, 6, 7], [2, 3, 6, 7], [2, 3, 6, 7]],
            Shape::S => [[2, 3, 5, 6], [2, 6, 7, 11], [6, 7, 9, 10], [1, 5, 6, 10]],
            Shape::Z => [[0, 1, 5, 6], [2, 5, 6, 9], [4, 5, 9, 10], [1, 4, 5, 8]],
            Shape::T => [[1, 4, 5, 6], [1, 5, 6, 9], [4, 5, 6, 9], [1, 4, 5, 9]],
        };
        let layout: [u8; 4] = variations[angle];
        assert(layout@ =~= rotation_layout(*self, angle as int));
        layout
    }
}

} // verus!
