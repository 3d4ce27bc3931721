//! The mathematical model of a piece and of the rules that change it.
//!
//! Everything here is specification: the executable piece promises, call by
//! call, that its model changes as these functions say.

use crate::shape::{default_layout, rotation_layout, Rotation, Shape, TILE_SIZE};
use vstd::prelude::*;

verus! {

/// The largest anchor coordinate. From an anchor up to this one every cell of
/// the 4×4 reference grid projects to a pixel coordinate that fits in `u32`.
pub const MAX_ANCHOR: u32 = 238_609_291;

/// The column at and left of which a wall kick pushes a piece to the right.
pub const KICK_PIVOT: u32 = 9;

/// What a piece is: its kind, where it stands, how it is turned, the cells it
/// fills and the pixel positions last computed for them.
pub struct PieceModel {
    pub shape: Shape,
    pub pos_x: int,
    pub pos_y: int,
    pub tile_size: int,
    pub rotation: int,
    pub layout: Seq<u8>,
    pub tiles: Seq<(u32, u32)>,
    pub on_hold: bool,
    pub active: bool,
}

/// The pixel position of the grid cell `cell` of a piece anchored at
/// (`pos_x`, `pos_y`): the cell's column and row are added to the anchor and
/// scaled by the tile size.
pub open spec fn project_cell(tile_size: int, pos_x: int, pos_y: int, cell: u8) -> (u32, u32) {
    ((tile_size * (pos_x + cell as int % 4)) as u32, (tile_size * (pos_y + cell as int / 4)) as u32)
}

/// The pixel positions of the four cells of `layout`, in the layout's order.
pub open spec fn projection(tile_size: int, pos_x: int, pos_y: int, layout: Seq<u8>) -> Seq<
    (u32, u32),
> {
    Seq::new(4, |i: int| project_cell(tile_size, pos_x, pos_y, layout[i]))
}

/// The tile lies on or beyond the left or the right border.
pub open spec fn hits_border(tile: (u32, u32), left: u32, right: u32) -> bool {
    tile.0 <= left || tile.0 >= right
}

/// The tile lies on or below the floor.
pub open spec fn hits_floor(tile: (u32, u32), floor: u32) -> bool {
    tile.1 >= floor
}

/// The tile lies outside the frame.
pub open spec fn hits_frame(tile: (u32, u32), left: u32, right: u32, floor: u32) -> bool {
    hits_border(tile, left, right) || hits_floor(tile, floor)
}

/// Some tile lies outside the frame.
pub open spec fn collides(tiles: Seq<(u32, u32)>, left: u32, right: u32, floor: u32) -> bool {
    exists|i: int| 0 <= i < 4 && hits_frame(#[trigger] tiles[i], left, right, floor)
}

/// Some tile lies on or below the floor.
pub open spec fn grounded(tiles: Seq<(u32, u32)>, floor: u32) -> bool {
    exists|i: int| 0 <= i < 4 && hits_floor(#[trigger] tiles[i], floor)
}

/// Some tile lies on a filled cell.
pub open spec fn overlaps(tiles: Seq<(u32, u32)>, filled: Map<(u32, u32), u32>) -> bool {
    exists|i: int| 0 <= i < 4 && filled.contains_key(#[trigger] tiles[i])
}

/// Every tile lies on a filled cell.
pub open spec fn buried(tiles: Seq<(u32, u32)>, filled: Map<(u32, u32), u32>) -> bool {
    forall|i: int| 0 <= i < 4 ==> filled.contains_key(#[trigger] tiles[i])
}

/// The row against which tile `i` is compared when row changes are counted:
/// the row of the tile before it, and row 0 for the first tile.
pub open spec fn row_before(tiles: Seq<(u32, u32)>, i: int) -> int {
    if i <= 0 {
        0
    } else {
        tiles[i - 1].1 as int
    }
}

/// How many of the first `n` tiles stand in another row than the tile before.
pub open spec fn row_changes(tiles: Seq<(u32, u32)>, n: int) -> int
    decreases n,
{
    if n <= 0 {
        0
    } else {
        row_changes(tiles, n - 1) + if tiles[n - 1].1 != row_before(tiles, n - 1) {
            1int
        } else {
            0int
        }
    }
}

/// The overlap heuristic of a rotation. A piece that has turned onto filled
/// cells keeps its new orientation only when all four tiles are on filled
/// cells and the first three of them change row less than twice.
pub open spec fn overlap_tolerated(tiles: Seq<(u32, u32)>, filled: Map<(u32, u32), u32>) -> bool {
    buried(tiles, filled) && row_changes(tiles, 3) < 2
}

/// The orientation after a quarter turn: one step up or down, wrapping
/// between 3 and 0.
pub open spec fn turned_angle(angle: int, turn: Rotation) -> int {
    match turn {
        Rotation::Right => if angle < 3 {
            angle + 1
        } else {
            0
        },
        Rotation::Left => if angle > 0 {
            angle - 1
        } else {
            3
        },
    }
}

/// Where a wall kick moves an anchor column: one step towards the middle of
/// the field.
pub open spec fn nudge(pos_x: int) -> int {
    if pos_x <= KICK_PIVOT {
        pos_x + 1
    } else {
        pos_x - 1
    }
}

/// The first slot at or after `from` whose tile is `pos`, or 4 if there is none.
pub open spec fn slot_of(tiles: Seq<(u32, u32)>, pos: (u32, u32), from: int) -> int
    decreases 4 - from,
{
    if from < 0 || from >= 4 {
        4
    } else if tiles[from] == pos {
        from
    } else {
        slot_of(tiles, pos, from + 1)
    }
}

impl PieceModel {
    /// What holds of every piece: the tile size is the catalogue's, the anchor
    /// is small enough to be projected, the orientation is one of four, and
    /// the layout names four cells of the reference grid.
    pub open spec fn wf(self) -> bool {
        &&& self.tile_size == TILE_SIZE
        &&& 0 <= self.pos_x <= MAX_ANCHOR
        &&& 0 <= self.pos_y <= MAX_ANCHOR
        &&& 0 <= self.rotation < 4
        &&& self.layout.len() == 4
        &&& forall|i: int| 0 <= i < 4 ==> #[trigger] self.layout[i] < 16
        &&& self.tiles.len() == 4
    }

    /// The tiles are the projection of the anchor and the layout.
    pub open spec fn in_sync(self) -> bool {
        self.tiles == projection(self.tile_size, self.pos_x, self.pos_y, self.layout)
    }

    /// The piece with its tiles computed anew.
    pub open spec fn projected(self) -> PieceModel {
        PieceModel {
            tiles: projection(self.tile_size, self.pos_x, self.pos_y, self.layout),
            ..self
        }
    }

    /// The piece after a frame check: it is locked, no longer active, if any
    /// of its tiles lies on or below the floor.
    pub open spec fn checked(self, floor: u32) -> PieceModel {
        PieceModel { active: self.active && !grounded(self.tiles, floor), ..self }
    }

    /// The piece at another anchor, its tiles computed there.
    pub open spec fn placed(self, pos_x: int, pos_y: int) -> PieceModel {
        PieceModel { pos_x, pos_y, ..self }.projected()
    }

    /// The piece carried to a display slot or back to the start: at the given
    /// anchor, in orientation 0 and with its default layout. The tiles stay as
    /// they were.
    pub open spec fn reset_at(self, pos_x: int, pos_y: int, on_hold: bool) -> PieceModel {
        PieceModel {
            pos_x,
            pos_y,
            rotation: 0,
            on_hold,
            layout: default_layout(self.shape),
            ..self
        }
    }

    /// The anchor that a move aims at: `delta` cells along the axis (0 is
    /// horizontal, anything else vertical).
    pub open spec fn target(self, delta: int, axis: u8) -> (int, int) {
        if axis == 0 {
            (self.pos_x + delta, self.pos_y)
        } else {
            (self.pos_x, self.pos_y + delta)
        }
    }

    /// The piece after a move of `delta` cells along an axis. The piece is
    /// placed at the target and checked against the frame there. If it
    /// collides it is put back where it was, and stays locked if the check
    /// locked it.
    pub open spec fn moved(self, delta: int, axis: u8, left: u32, right: u32, floor: u32) -> PieceModel {
        let target = self.target(delta, axis);
        let tried = self.placed(target.0, target.1);
        if collides(tried.tiles, left, right, floor) {
            tried.checked(floor).placed(self.pos_x, self.pos_y)
        } else {
            tried
        }
    }

    /// The piece turned by a quarter where it stands, before any collision
    /// is looked at.
    pub open spec fn turned(self, turn: Rotation) -> PieceModel {
        let angle = turned_angle(self.rotation, turn);
        PieceModel {
            rotation: angle,
            layout: rotation_layout(self.shape, angle),
            ..self
        }.projected()
    }

    /// The piece after `n` steps of a wall kick. Each step checks the piece
    /// against the frame and moves it one column towards the middle.
    pub open spec fn kicked(self, n: nat, left: u32, right: u32, floor: u32) -> PieceModel
        decreases n,
    {
        if n == 0 {
            self
        } else {
            let before = self.kicked((n - 1) as nat, left, right, floor).checked(floor);
            before.placed(nudge(before.pos_x), before.pos_y)
        }
    }

    /// A wall kick ends where the piece is inside the frame or lies on a
    /// filled cell.
    pub open spec fn kick_stops(
        self,
        filled: Map<(u32, u32), u32>,
        left: u32,
        right: u32,
        floor: u32,
    ) -> bool {
        !collides(self.tiles, left, right, floor) || overlaps(self.tiles, filled)
    }

    /// The wall kick of this piece ends after exactly `n` steps.
    pub open spec fn kick_ends_at(
        self,
        n: nat,
        filled: Map<(u32, u32), u32>,
        left: u32,
        right: u32,
        floor: u32,
    ) -> bool {
        &&& self.kicked(n, left, right, floor).kick_stops(filled, left, right, floor)
        &&& forall|k: nat|
            k < n ==> !(#[trigger] self.kicked(k, left, right, floor)).kick_stops(
                filled,
                left,
                right,
                floor,
            )
    }

    /// The wall kick of this piece ends at all. It does not when the piece
    /// collides with the frame, clear of every filled cell, in each column
    /// between its own and the middle of the field.
    pub open spec fn kick_settles(
        self,
        filled: Map<(u32, u32), u32>,
        left: u32,
        right: u32,
        floor: u32,
    ) -> bool {
        exists|n: nat| self.kick_ends_at(n, filled, left, right, floor)
    }

    /// The piece where its wall kick ends, checked against the frame there.
    pub open spec fn settled(
        self,
        filled: Map<(u32, u32), u32>,
        left: u32,
        right: u32,
        floor: u32,
    ) -> PieceModel {
        let n = choose|n: nat| self.kick_ends_at(n, filled, left, right, floor);
        self.kicked(n, left, right, floor).checked(floor)
    }

    /// A turned and kicked piece keeps its new orientation: it is inside the
    /// frame, and it is clear of the filled cells or the overlap is tolerated.
    pub open spec fn turn_accepted(
        self,
        filled: Map<(u32, u32), u32>,
        left: u32,
        right: u32,
        floor: u32,
    ) -> bool {
        &&& !collides(self.tiles, left, right, floor)
        &&& !overlaps(self.tiles, filled) || overlap_tolerated(self.tiles, filled)
    }

    /// The piece after a turn was given up: as it was, layout included, with
    /// its tiles computed from its own anchor and layout.
    pub open spec fn turn_undone(self, active: bool) -> PieceModel {
        PieceModel { active, ..self }.projected()
    }

    /// The piece after a quarter turn. It is turned where it stands and
    /// kicked towards the middle until it is inside the frame or on a filled
    /// cell. Where that leaves it acceptable it stays; otherwise the turn is
    /// undone. A frame check on the way that locks the piece keeps it locked
    /// in either case.
    pub open spec fn rotated(
        self,
        turn: Rotation,
        filled: Map<(u32, u32), u32>,
        left: u32,
        right: u32,
        floor: u32,
    ) -> PieceModel {
        let end = self.turned(turn).settled(filled, left, right, floor);
        if end.turn_accepted(filled, left, right, floor) {
            end
        } else {
            self.turn_undone(end.active)
        }
    }

    /// The piece after the cell at `pos` was taken out of it: the first slot
    /// whose tile is `pos` has its tile and its layout cell set to zero. A
    /// piece without such a tile stays as it is.
    pub open spec fn without_tile(self, pos: (u32, u32)) -> PieceModel {
        let slot = slot_of(self.tiles, pos, 0);
        if slot < 4 {
            PieceModel {
                tiles: self.tiles.update(slot, (0u32, 0u32)),
                layout: self.layout.update(slot, 0u8),
                ..self
            }
        } else {
            self
        }
    }
}

} // verus!
