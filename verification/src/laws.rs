//! Laws of the piece rules, proved over the model.

use crate::model::{collides, grounded, hits_floor, hits_frame, overlaps, projection, PieceModel};
use crate::shape::Rotation;
use vstd::prelude::*;

verus! {

/// Computing the tiles is a function of the anchor, the layout and the tile
/// size alone, so computing them a second time changes nothing.
pub proof fn lemma_projection_repeatable(piece: PieceModel)
    ensures
        piece.projected().projected() == piece.projected(),
        piece.projected().in_sync(),
{
}

/// Two pieces with the same anchor, layout and tile size get the same tiles.
pub proof fn lemma_projection_depends_on(a: PieceModel, b: PieceModel)
    requires
        a.pos_x == b.pos_x,
        a.pos_y == b.pos_y,
        a.layout == b.layout,
        a.tile_size == b.tile_size,
    ensures
        a.projected().tiles == b.projected().tiles,
{
}

/// A piece with a tile on or below the floor collides with the frame.
pub proof fn lemma_grounded_collides(tiles: Seq<(u32, u32)>, left: u32, right: u32, floor: u32)
    requires
        grounded(tiles, floor),
    ensures
        collides(tiles, left, right, floor),
{
    let i = choose|i: int| 0 <= i < 4 && hits_floor(#[trigger] tiles[i], floor);
    assert(hits_frame(tiles[i], left, right, floor));
}

/// A frame check locks the piece whenever one of its tiles lies on or below
/// the floor, and leaves it as it is when none does, whatever the borders.
pub proof fn lemma_frame_check_locks_at_floor(piece: PieceModel, left: u32, right: u32, floor: u32)
    ensures
        grounded(piece.tiles, floor) ==> collides(piece.tiles, left, right, floor)
            && !piece.checked(floor).active,
        !grounded(piece.tiles, floor) ==> piece.checked(floor) == piece,
{
    if grounded(piece.tiles, floor) {
        lemma_grounded_collides(piece.tiles, left, right, floor);
    }
}

/// A move whose target leaves the frame is rolled back: the piece keeps its
/// anchor, and its tiles are those of that anchor.
pub proof fn lemma_blocked_move_rolls_back(
    piece: PieceModel,
    delta: int,
    axis: u8,
    left: u32,
    right: u32,
    floor: u32,
)
    requires
        ({
            let target = piece.target(delta, axis);
            collides(piece.placed(target.0, target.1).tiles, left, right, floor)
        }),
    ensures
        ({
            let after = piece.moved(delta, axis, left, right, floor);
            &&& after.pos_x == piece.pos_x
            &&& after.pos_y == piece.pos_y
            &&& after.layout == piece.layout
            &&& after.rotation == piece.rotation
            &&& after.tiles == projection(piece.tile_size, piece.pos_x, piece.pos_y, piece.layout)
        }),
{
}

/// A move whose target is inside the frame takes the piece there and
/// changes nothing else but its tiles.
pub proof fn lemma_free_move_arrives(
    piece: PieceModel,
    delta: int,
    axis: u8,
    left: u32,
    right: u32,
    floor: u32,
)
    requires
        ({
            let target = piece.target(delta, axis);
            !collides(piece.placed(target.0, target.1).tiles, left, right, floor)
        }),
    ensures
        ({
            let target = piece.target(delta, axis);
            piece.moved(delta, axis, left, right, floor) == piece.placed(target.0, target.1)
        }),
{
}

/// A turn that is given up leaves a piece whose tiles were up to date as
/// it was, but for the lock that a frame check may have set.
pub proof fn lemma_undone_turn_is_without_effect(piece: PieceModel, active: bool)
    requires
        piece.in_sync(),
    ensures
        piece.turn_undone(active) == (PieceModel { active, ..piece }),
{
}

/// The piece turns freely: turned where it stands it is inside the frame and
/// on no filled cell.
pub open spec fn turns_freely(
    piece: PieceModel,
    turn: Rotation,
    filled: Map<(u32, u32), u32>,
    left: u32,
    right: u32,
    floor: u32,
) -> bool {
    &&& !collides(piece.turned(turn).tiles, left, right, floor)
    &&& !overlaps(piece.turned(turn).tiles, filled)
}

/// A piece that turns freely is, after the turn, the piece turned where it
/// stands: no kick moves it and nothing locks it.
pub proof fn lemma_free_turn(
    piece: PieceModel,
    turn: Rotation,
    filled: Map<(u32, u32), u32>,
    left: u32,
    right: u32,
    floor: u32,
)
    requires
        turns_freely(piece, turn, filled, left, right, floor),
    ensures
        piece.turned(turn).kick_settles(filled, left, right, floor),
        piece.rotated(turn, filled, left, right, floor) == piece.turned(turn),
{
    let start = piece.turned(turn);
    assert(start.kicked(0, left, right, floor) == start);
    assert(start.kick_ends_at(0, filled, left, right, floor));
    let n = choose|n: nat| start.kick_ends_at(n, filled, left, right, floor);
    if n > 0 {
        assert(!start.kicked(0, left, right, floor).kick_stops(filled, left, right, floor));
    }
    if grounded(start.tiles, floor) {
        lemma_grounded_collides(start.tiles, left, right, floor);
    }
    assert(start.checked(floor) == start);
}

/// A turn that takes the piece out of the frame and onto a filled cell where
/// it stands is wholly undone: the piece keeps its anchor, its orientation
/// and its layout, and its tiles are those of that anchor and layout.
pub proof fn lemma_blocked_turn_is_undone(
    piece: PieceModel,
    turn: Rotation,
    filled: Map<(u32, u32), u32>,
    left: u32,
    right: u32,
    floor: u32,
)
    requires
        collides(piece.turned(turn).tiles, left, right, floor),
        overlaps(piece.turned(turn).tiles, filled),
    ensures
        piece.turned(turn).kick_settles(filled, left, right, floor),
        ({
            let after = piece.rotated(turn, filled, left, right, floor);
            &&& after.pos_x == piece.pos_x
            &&& after.pos_y == piece.pos_y
            &&& after.rotation == piece.rotation
            &&& after.layout == piece.layout
            &&& after.tiles == projection(piece.tile_size, piece.pos_x, piece.pos_y, piece.layout)
            &&& after.active == (piece.active && !grounded(piece.turned(turn).tiles, floor))
        }),
{
    let start = piece.turned(turn);
    assert(start.kicked(0, left, right, floor) == start);
    assert(start.kick_ends_at(0, filled, left, right, floor));
    let n = choose|n: nat| start.kick_ends_at(n, filled, left, right, floor);
    if n > 0 {
        assert(!start.kicked(0, left, right, floor).kick_stops(filled, left, right, floor));
    }
}

/// Four quarter turns in one direction, each of them free, bring a piece back
/// to the orientation and the anchor it had.
pub proof fn lemma_four_turns_restore(
    piece: PieceModel,
    turn: Rotation,
    filled: Map<(u32, u32), u32>,
    left: u32,
    right: u32,
    floor: u32,
)
    requires
        piece.wf(),
        ({
            let once = piece.rotated(turn, filled, left, right, floor);
            let twice = once.rotated(turn, filled, left, right, floor);
            let thrice = twice.rotated(turn, filled, left, right, floor);
            &&& turns_freely(piece, turn, filled, left, right, floor)
            &&& turns_freely(once, turn, filled, left, right, floor)
            &&& turns_freely(twice, turn, filled, left, right, floor)
            &&& turns_freely(thrice, turn, filled, left, right, floor)
        }),
    ensures
        ({
            let once = piece.rotated(turn, filled, left, right, floor);
            let twice = once.rotated(turn, filled, left, right, floor);
            let thrice = twice.rotated(turn, filled, left, right, floor);
            let last = thrice.rotated(turn, filled, left, right, floor);
            &&& last.rotation == piece.rotation
            &&& last.pos_x == piece.pos_x
            &&& last.pos_y == piece.pos_y
            &&& last.active == piece.active
        }),
{
    let once = piece.rotated(turn, filled, left, right, floor);
    let twice = once.rotated(turn, filled, left, right, floor);
    let thrice = twice.rotated(turn, filled, left, right, floor);
    lemma_free_turn(piece, turn, filled, left, right, floor);
    lemma_free_turn(once, turn, filled, left, right, floor);
    lemma_free_turn(twice, turn, filled, left, right, floor);
    lemma_free_turn(thrice, turn, filled, left, right, floor);
}

} // verus!
