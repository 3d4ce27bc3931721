//! The falling piece: its state and the commands that change it.

use crate::model::{
    buried, collides, grounded, hits_border, hits_floor, overlap_tolerated, overlaps, project_cell,
    projection, row_before, row_changes, slot_of, PieceModel, KICK_PIVOT, MAX_ANCHOR,
};
use crate::occupancy::Occupancy;
use crate::render::{blits_upto, draw_fn, TileBlit};
use crate::shape::{
    default_layout, lemma_rotation_layouts_valid, sprite_offset, Rotation, Shape, TILE_SIZE,
};
use vstd::prelude::*;

verus! {

/// One piece of the game.
#[derive(Debug, Copy, Clone, PartialEq)]
pub struct Tetromino {
    shape: Shape,
    pos_x: u32,
    pos_y: u32,
    t_size: u32,
    m_shape: [u8; 4],
    tiles: [(u32, u32); 4],
    r_angle: usize,
    color_offset: u8,
    on_hold: bool,
    active: bool,
}

impl View for Tetromino {
    type V = PieceModel;

    closed spec fn view(&self) -> PieceModel {
        PieceModel {
            shape: self.shape,
            pos_x: self.pos_x as int,
            pos_y: self.pos_y as int,
            tile_size: self.t_size as int,
            rotation: self.r_angle as int,
            layout: self.m_shape@,
            tiles: self.tiles@,
            on_hold: self.on_hold,
            active: self.active,
        }
    }
}

/// Computes the pixel position of one cell of a piece.
fn tile_at(pos_x: u32, pos_y: u32, cell: u8) -> (tile: (u32, u32))
    requires
        pos_x <= MAX_ANCHOR,
        pos_y <= MAX_ANCHOR,
        cell < 16,
    ensures
        tile == project_cell(TILE_SIZE as int, pos_x as int, pos_y as int, cell),
{
    let col: u32 = (cell % 4) as u32;
    let row: u32 = (cell / 4) as u32;
    (TILE_SIZE * (pos_x + col), TILE_SIZE * (pos_y + row))
}

/// Tells whether some of the four tiles lies on a filled cell.
fn touches(tiles: &[(u32, u32); 4], all_tiles: &Occupancy) -> (hit: bool)
    ensures
        hit == overlaps(tiles@, all_tiles@),
{
    all_tiles.contains_key(&tiles[0]) || all_tiles.contains_key(&tiles[1])
        || all_tiles.contains_key(&tiles[2]) || all_tiles.contains_key(&tiles[3])
}

/// Decides whether a piece that has turned onto filled cells may keep its
/// new orientation. The tiles are taken in order, a count is kept of how
/// often the row differs from that of the tile before (row 0 before the
/// first), and the answer is no as soon as a tile is on a free cell or the
/// count has reached 2.
pub fn overlap_is_tolerated(tiles: &[(u32, u32); 4], all_tiles: &Occupancy) -> (ok: bool)
    ensures
        ok == overlap_tolerated(tiles@, all_tiles@),
{
    let mut columns: u32 = 0;
    let mut pos_y: u32 = 0;
    let mut i: usize = 0;
    proof {
        reveal_with_fuel(row_changes, 4);
    }
    while i < 4
        invariant
            i <= 4,
            columns == row_changes(tiles@, i as int),
            pos_y == row_before(tiles@, i as int),
            i <= 3 ==> columns <= row_changes(tiles@, 3),
            i >= 1 ==> row_changes(tiles@, i as int - 1) < 2,
            i == 4 ==> row_changes(tiles@, 3) < 2,
            forall|j: int| 0 <= j < i ==> all_tiles@.contains_key(#[trigger] tiles@[j]),
        decreases 4 - i,
    {
        let tile = tiles[i];
        if all_tiles.contains_key(&tile) && columns < 2 {
            if pos_y != tile.1 {
                columns += 1;
                pos_y = tile.1;
            }
        } else {
            assert(!all_tiles@.contains_key(tiles@[i as int]) ==> !buried(tiles@, all_tiles@));
            return false;
        }
        i += 1;
        proof {
            reveal_with_fuel(row_changes, 4);
        }
    }
    true
}

/// A wall kick ends after one number of steps only.
proof fn lemma_kick_end_unique(
    piece: PieceModel,
    a: nat,
    b: nat,
    filled: Map<(u32, u32), u32>,
    left: u32,
    right: u32,
    floor: u32,
)
    requires
        piece.kick_ends_at(a, filled, left, right, floor),
        piece.kick_ends_at(b, filled, left, right, floor),
    ensures
        a == b,
{
    if a < b {
        assert(!piece.kicked(a, left, right, floor).kick_stops(filled, left, right, floor));
    }
    if b < a {
        assert(!piece.kicked(b, left, right, floor).kick_stops(filled, left, right, floor));
    }
}

/// A wall kick changes only the column, the tiles and whether the piece is
/// active, and it keeps the column between the one it began in and the
/// middle of the field.
proof fn lemma_kicked_stays(piece: PieceModel, n: nat, left: u32, right: u32, floor: u32)
    requires
        piece.wf(),
        piece.in_sync(),
    ensures
        ({
            let at = piece.kicked(n, left, right, floor);
            &&& at.wf()
            &&& at.in_sync()
            &&& at.shape == piece.shape
            &&& at.pos_y == piece.pos_y
            &&& at.layout == piece.layout
            &&& piece.pos_x <= KICK_PIVOT ==> piece.pos_x <= at.pos_x <= KICK_PIVOT + 1
            &&& piece.pos_x > KICK_PIVOT ==> KICK_PIVOT <= at.pos_x <= piece.pos_x
        }),
    decreases n,
{
    if n > 0 {
        lemma_kicked_stays(piece, (n - 1) as nat, left, right, floor);
    }
}

/// Whether a wall kick stops at a piece depends on its tiles alone.
proof fn lemma_kick_stops_by_tiles(
    a: PieceModel,
    b: PieceModel,
    filled: Map<(u32, u32), u32>,
    left: u32,
    right: u32,
    floor: u32,
)
    requires
        a.tiles == b.tiles,
    ensures
        a.kick_stops(filled, left, right, floor) == b.kick_stops(filled, left, right, floor),
{
}

impl Tetromino {
    #[verifier::type_invariant]
    closed spec fn inv(self) -> bool {
        &&& self@.wf()
        &&& self.color_offset == sprite_offset(self.shape)
    }

    /// Creates a piece of the given kind at the start: active, not on hold,
    /// in orientation 0 with its default layout, anchored at column 8 of the
    /// top row, its tiles computed.
    pub fn new(shape: Shape) -> (piece: Tetromino)
        ensures
            piece@ == (PieceModel {
                shape,
                pos_x: 8,
                pos_y: 0,
                tile_size: TILE_SIZE as int,
                rotation: 0,
                layout: default_layout(shape),
                tiles: projection(TILE_SIZE as int, 8, 0, default_layout(shape)),
                on_hold: false,
                active: true,
            }),
            piece@.wf(),
            piece@.in_sync(),
    {
        let mut t = Tetromino {
            r_angle: 0,
            m_shape: shape.matrix(),
            color_offset: shape.texture_offset(),
            shape,
            tiles: [(0, 0);4],
            pos_x: 8,
            pos_y: 0,
            t_size: TILE_SIZE,
            on_hold: false,
            active: true,
        };
        t.mut_tiles_pos();
        t
    }

    /// Computes the tiles anew from the anchor and the layout.
    pub fn mut_tiles_pos(&mut self)
        ensures
            final(self)@ == old(self)@.projected(),
            final(self)@.wf(),
    {
        proof {
            use_type_invariant(&*self);
        }
        let t0 = tile_at(self.pos_x, self.pos_y, self.m_shape[0]);
        let t1 = tile_at(self.pos_x, self.pos_y, self.m_shape[1]);
        let t2 = tile_at(self.pos_x, self.pos_y, self.m_shape[2]);
        let t3 = tile_at(self.pos_x, self.pos_y, self.m_shape[3]);
        self.tiles = [t0, t1, t2, t3];
        assert(self.tiles@ =~= projection(
            old(self)@.tile_size,
            old(self)@.pos_x,
            old(self)@.pos_y,
            old(self)@.layout,
        ));
    }

    /// Checks the four tiles against the frame and tells whether one of them
    /// lies outside it. A tile on or below the floor locks the piece as well:
    /// it is no longer active, wherever its other tiles are. A tile on or
    /// beyond a border alone does not lock it.
    pub fn collides_with_frame(&mut self, left_border: u32, right_border: u32, floor: u32) -> (hit:
        bool)
        ensures
            hit == collides(old(self)@.tiles, left_border, right_border, floor),
            final(self)@ == old(self)@.checked(floor),
            final(self)@.wf(),
            grounded(old(self)@.tiles, floor) ==> hit && !final(self)@.active,
            !grounded(old(self)@.tiles, floor) ==> final(self)@.active == old(self)@.active,
    {
        proof {
            use_type_invariant(&*self);
        }
        let coord_s = self.tiles;
        let mut on_border = false;
        let mut on_floor = false;
        let mut i: usize = 0;
        while i < 4
            invariant
                i <= 4,
                coord_s@ == old(self)@.tiles,
                *self == *old(self),
                on_border == exists|j: int|
                    0 <= j < i && hits_border(#[trigger] coord_s@[j], left_border, right_border),
                on_floor == exists|j: int| 0 <= j < i && hits_floor(#[trigger] coord_s@[j], floor),
            decreases 4 - i,
        {
            let tile_s = coord_s[i];
            if tile_s.0 <= left_border || tile_s.0 >= right_border {
                on_border = true;
            }
            if tile_s.1 >= floor {
                on_floor = true;
            }
            i += 1;
        }
        if on_floor {
            self.active = false;
        }
        on_border || on_floor
    }

    /// Moves the piece `steps * direction` cells along an axis (0 is
    /// horizontal, 1 vertical) and computes its tiles. If the piece then
    /// collides with the frame it is put back where it was; a collision with
    /// the floor locks it as well. Filled cells are not looked at.
    ///
    /// The target anchor must be one that a piece can have.
    pub fn make_move(
        &mut self,
        steps: i32,
        direction: i32,
        axis: u8,
        left_border: u32,
        right_border: u32,
        floor: u32,
    )
        requires
            axis == 0 || axis == 1,
            0 <= old(self)@.target(steps * direction, axis).0 <= MAX_ANCHOR,
            0 <= old(self)@.target(steps * direction, axis).1 <= MAX_ANCHOR,
        ensures
            final(self)@ == old(self)@.moved(
                steps * direction,
                axis,
                left_border,
                right_border,
                floor,
            ),
            final(self)@.wf(),
            final(self)@.in_sync(),
            ({
                let target = old(self)@.target(steps * direction, axis);
                let tried = old(self)@.placed(target.0, target.1);
                (exists|i: int|
                    0 <= i < 4 && hits_border(#[trigger] tried.tiles[i], left_border, right_border))
                    ==> final(self)@.pos_x == old(self)@.pos_x && final(self)@.pos_y == old(
                    self,
                )@.pos_y
            }),
    {
        proof {
            use_type_invariant(&*self);
        }
        let prev = (self.pos_x, self.pos_y);
        assert(-0x4000_0000_0000_0000 <= steps * direction <= 0x4000_0000_0000_0000)
            by (nonlinear_arith)
            requires
                -0x8000_0000 <= steps <= 0x8000_0000,
                -0x8000_0000 <= direction <= 0x8000_0000,
        ;
        let delta: i64 = steps as i64 * direction as i64;
        if axis == 0 {
            self.pos_x = (delta + self.pos_x as i64) as u32;
        } else {
            self.pos_y = (delta + self.pos_y as i64) as u32;
        }
        self.mut_tiles_pos();
        if self.collides_with_frame(left_border, right_border, floor) {
            proof {
                use_type_invariant(&*self);
            }
            self.pos_x = prev.0;
            self.pos_y = prev.1;
        }
        self.mut_tiles_pos();
    }

    /// Puts the piece back to the column, the orientation and the layout it
    /// had before a turn, and computes its tiles.
    fn undo_turn(&mut self, org_x: u32, prev_angle: usize, prev_layout: [u8; 4])
        requires
            org_x <= MAX_ANCHOR,
            prev_angle < 4,
            forall|i: int| 0 <= i < 4 ==> #[trigger] prev_layout@[i] < 16,
        ensures
            final(self)@ == (PieceModel {
                pos_x: org_x as int,
                rotation: prev_angle as int,
                layout: prev_layout@,
                ..old(self)@
            }).projected(),
            final(self)@.wf(),
    {
        proof {
            use_type_invariant(&*self);
        }
        self.pos_x = org_x;
        self.r_angle = prev_angle;
        self.m_shape = prev_layout;
        self.mut_tiles_pos();
    }

    /// Turns the piece by a quarter. The piece takes the next orientation's
    /// layout where it stands. While it then collides with the frame and
    /// lies on no filled cell, it is moved one column towards the middle of
    /// the field. Where that ends, the turn is kept if the piece is inside
    /// the frame and either clear of the filled cells or tolerated on them
    /// (see [`overlap_is_tolerated`]); otherwise the piece is put back as it
    /// was, column, orientation and layout. Each frame check on the way can
    /// lock the piece, and it then stays locked even if the turn is undone.
    ///
    /// The search for a column must be able to end: see
    /// [`PieceModel::kick_settles`] and [`Tetromino::can_rotate`].
    pub fn rotate(&mut self, r: Rotation, all_tiles: &Occupancy, lb: u32, rb: u32, f: u32)
        requires
            old(self)@.turned(r).kick_settles(all_tiles@, lb, rb, f),
        ensures
            final(self)@ == old(self)@.rotated(r, all_tiles@, lb, rb, f),
            final(self)@.wf(),
            final(self)@.in_sync(),
    {
        proof {
            use_type_invariant(&*self);
        }
        let prev_angle = self.r_angle;
        let prev_layout = self.m_shape;
        let next_angle: usize = match r {
            Rotation::Right => if prev_angle < 3 {
                prev_angle + 1
            } else {
                0
            },
            Rotation::Left => if prev_angle > 0 {
                prev_angle - 1
            } else {
                3
            },
        };
        proof {
            lemma_rotation_layouts_valid(self.shape, next_angle as int);
        }
        self.r_angle = next_angle;
        self.m_shape = self.shape.rotated_matrix(next_angle);
        self.mut_tiles_pos();
        let org_x = self.pos_x;

        let ghost start = self@;
        let ghost goal = choose|n: nat| start.kick_ends_at(n, all_tiles@, lb, rb, f);
        let ghost mut n: nat = 0;
        assert(start == old(self)@.turned(r));
        loop
            invariant_except_break
                self@ == start.kicked(n, lb, rb, f),
            invariant
                start.kick_ends_at(goal, all_tiles@, lb, rb, f),
                n <= goal,
                forall|k: nat|
                    k < n ==> !(#[trigger] start.kicked(k, lb, rb, f)).kick_stops(
                        all_tiles@,
                        lb,
                        rb,
                        f,
                    ),
                self@.shape == start.shape,
                self@.pos_y == start.pos_y,
                self@.tile_size == start.tile_size,
                self@.rotation == start.rotation,
                self@.layout == start.layout,
                self@.on_hold == start.on_hold,
                self@.in_sync(),
                org_x == old(self)@.pos_x,
                prev_angle == old(self)@.rotation,
                prev_layout@ == old(self)@.layout,
                start == old(self)@.turned(r),
                old(self)@.wf(),
            ensures
                n == goal,
                self@ == start.kicked(n, lb, rb, f).checked(f),
                !collides(self@.tiles, lb, rb, f),
            decreases goal - n,
        {
            let ghost before = self@;
            let hit = self.collides_with_frame(lb, rb, f);
            if !hit {
                proof {
                    lemma_kick_end_unique(start, n, goal, all_tiles@, lb, rb, f);
                }
                break ;
            }
            let tiles = self.tiles;
            if touches(&tiles, all_tiles) {
                proof {
                    lemma_kick_end_unique(start, n, goal, all_tiles@, lb, rb, f);
                    assert(self@ == start.settled(all_tiles@, lb, rb, f));
                    assert(!self@.turn_accepted(all_tiles@, lb, rb, f));
                }
                self.undo_turn(org_x, prev_angle, prev_layout);
                return ;
            }
            assert(!before.kick_stops(all_tiles@, lb, rb, f));
            proof {
                use_type_invariant(&*self);
            }
            if self.pos_x <= KICK_PIVOT {
                self.pos_x += 1
            } else {
                self.pos_x -= 1
            }
            self.mut_tiles_pos();
            proof {
                n = n + 1;
            }
        }
        self.mut_tiles_pos();
        assert(self@ == start.settled(all_tiles@, lb, rb, f));
        let tiles = self.tiles;
        if touches(&tiles, all_tiles) {
            if !overlap_is_tolerated(&tiles, all_tiles) {
                self.undo_turn(org_x, prev_angle, prev_layout);
            }
        }
    }

    /// Puts the piece at the start: column 8 of the top row, orientation 0,
    /// default layout, not on hold. The tiles are not computed anew.
    pub fn set_default_pos(&mut self)
        ensures
            final(self)@ == old(self)@.reset_at(8, 0, false),
            final(self)@.wf(),
    {
        proof {
            use_type_invariant(&*self);
        }
        self.pos_x = 8;
        self.pos_y = 0;
        self.r_angle = 0;
        self.on_hold = false;
        self.m_shape = self.shape.matrix();
    }

    /// Puts the piece into the preview slot: column 12 of the top row,
    /// orientation 0, default layout, on hold. The tiles are not computed
    /// anew.
    pub fn set_for_next(&mut self)
        ensures
            final(self)@ == old(self)@.reset_at(12, 0, true),
            final(self)@.wf(),
    {
        proof {
            use_type_invariant(&*self);
        }
        self.pos_x = 12;
        self.pos_y = 0;
        self.r_angle = 0;
        self.on_hold = true;
        self.m_shape = self.shape.matrix();
    }

    /// Puts the piece into the hold slot: column 13 of row 24, orientation
    /// 0, default layout. Whether it is on hold stays as it was, and the
    /// tiles are not computed anew.
    pub fn set_to_pocket(&mut self)
        ensures
            final(self)@ == old(self)@.reset_at(13, 24, old(self)@.on_hold),
            final(self)@.wf(),
    {
        proof {
            use_type_invariant(&*self);
        }
        self.pos_x = 13;
        self.pos_y = 24;
        self.r_angle = 0;
        self.m_shape = self.shape.matrix();
    }

    /// Takes the cell at pixel position `t_pos` out of the piece: the first
    /// tile at that position and its layout cell are set to zero. A piece
    /// that has no tile there stays as it is.
    pub fn delete_tile(&mut self, t_pos: (u32, u32))
        ensures
            final(self)@ == old(self)@.without_tile(t_pos),
            final(self)@.wf(),
            (forall|i: int| 0 <= i < 4 ==> old(self)@.tiles[i] != t_pos) ==> final(self)@ == old(
                self,
            )@,
    {
        proof {
            use_type_invariant(&*self);
        }
        let mut idx: usize = 0;
        while idx < 4
            invariant
                idx <= 4,
                *self == *old(self),
                forall|j: int| 0 <= j < idx ==> old(self)@.tiles[j] != t_pos,
                slot_of(old(self)@.tiles, t_pos, 0) == slot_of(old(self)@.tiles, t_pos, idx as int),
            decreases 4 - idx,
        {
            let t = self.tiles[idx];
            if t.0 == t_pos.0 && t.1 == t_pos.1 {
                proof {
                    use_type_invariant(&*self);
                }
                self.tiles[idx] = (0, 0);
                self.m_shape[idx] = 0;
                assert(self@.tiles =~= old(self)@.tiles.update(idx as int, (0u32, 0u32)));
                assert(self@.layout =~= old(self)@.layout.update(idx as int, 0u8));
                return ;
            }
            idx += 1;
        }
    }

    /// Returns the kind of the piece.
    pub fn id(&self) -> (shape: &Shape)
        ensures
            *shape == self@.shape,
    {
        &self.shape
    }

    /// Returns the kind of the piece.
    pub fn get_shape(&self) -> (shape: Shape)
        ensures
            shape == self@.shape,
    {
        self.shape
    }

    /// Tells whether the piece is still falling.
    pub fn is_active(&self) -> (active: bool)
        ensures
            active == self@.active,
    {
        self.active
    }

    /// Locks the piece.
    pub fn deactivate(&mut self)
        ensures
            final(self)@ == (PieceModel { active: false, ..old(self)@ }),
            final(self)@.wf(),
    {
        proof {
            use_type_invariant(&*self);
        }
        self.active = false
    }

    /// Returns the pixel positions last computed for the four cells.
    pub fn get_tiles_pos(&self) -> (tiles: [(u32, u32); 4])
        ensures
            tiles@ == self@.tiles,
    {
        self.tiles
    }

    /// Returns the anchor: the grid column and row of the reference grid's
    /// top-left cell.
    pub fn anchor(&self) -> (pos: (u32, u32))
        ensures
            pos.0 == self@.pos_x,
            pos.1 == self@.pos_y,
    {
        (self.pos_x, self.pos_y)
    }

    /// Returns the orientation, 0 to 3.
    pub fn rotation_index(&self) -> (angle: usize)
        ensures
            angle == self@.rotation,
            angle < 4,
    {
        proof {
            use_type_invariant(self);
        }
        self.r_angle
    }

    /// Returns the four cells of the reference grid that the piece fills.
    pub fn current_layout(&self) -> (layout: [u8; 4])
        ensures
            layout@ == self@.layout,
    {
        self.m_shape
    }

    /// Tells whether the piece is shown in the preview rather than falling.
    pub fn is_held(&self) -> (held: bool)
        ensures
            held == self@.on_hold,
    {
        self.on_hold
    }

    /// Tells whether [`Tetromino::rotate`] may be called: whether the search
    /// for a column that a turn starts would end. It tries every column
    /// between the piece's own and the middle of the field. The piece itself
    /// is not changed.
    pub fn can_rotate(&self, r: Rotation, all_tiles: &Occupancy, lb: u32, rb: u32, f: u32) -> (ok:
        bool)
        ensures
            ok == self@.turned(r).kick_settles(all_tiles@, lb, rb, f),
    {
        proof {
            use_type_invariant(self);
        }
        let mut probe = *self;
        let next_angle: usize = match r {
            Rotation::Right => if probe.r_angle < 3 {
                probe.r_angle + 1
            } else {
                0
            },
            Rotation::Left => if probe.r_angle > 0 {
                probe.r_angle - 1
            } else {
                3
            },
        };
        proof {
            lemma_rotation_layouts_valid(self.shape, next_angle as int);
        }
        probe.r_angle = next_angle;
        probe.m_shape = probe.shape.rotated_matrix(next_angle);
        probe.mut_tiles_pos();
        let org_x = probe.pos_x;
        let rightwards = org_x <= KICK_PIVOT;

        let ghost start = probe@;
        let ghost mut n: nat = 0;
        loop
            invariant
                start == self@.turned(r),
                start.wf(),
                start.in_sync(),
                org_x == start.pos_x,
                rightwards == (org_x <= KICK_PIVOT),
                probe@ == start.kicked(n, lb, rb, f),
                rightwards ==> probe@.pos_x == org_x + n && probe@.pos_x <= KICK_PIVOT + 1,
                !rightwards ==> probe@.pos_x == org_x - n && probe@.pos_x >= KICK_PIVOT,
                forall|k: nat|
                    k < n ==> !(#[trigger] start.kicked(k, lb, rb, f)).kick_stops(
                        all_tiles@,
                        lb,
                        rb,
                        f,
                    ),
                forall|k: nat|
                    k <= n ==> (#[trigger] start.kicked(k, lb, rb, f)).pos_x == if rightwards {
                        org_x + k
                    } else {
                        org_x - k
                    },
            decreases
                    if rightwards {
                        KICK_PIVOT + 1 - probe@.pos_x
                    } else {
                        probe@.pos_x - KICK_PIVOT
                    },
        {
            let ghost before = probe@;
            let hit = probe.collides_with_frame(lb, rb, f);
            let tiles = probe.tiles;
            if !hit || touches(&tiles, all_tiles) {
                assert(start.kick_ends_at(n, all_tiles@, lb, rb, f));
                return true;
            }
            assert(!before.kick_stops(all_tiles@, lb, rb, f));
            proof {
                use_type_invariant(&probe);
            }
            if (probe.pos_x <= KICK_PIVOT) != rightwards {
                proof {
                    assert forall|m: nat|
                        !(#[trigger] start.kicked(m, lb, rb, f)).kick_stops(
                            all_tiles@,
                            lb,
                            rb,
                            f,
                        ) by {
                        lemma_kicked_stays(start, m, lb, rb, f);
                        let at = start.kicked(m, lb, rb, f);
                        let k: nat = if rightwards {
                            (at.pos_x - org_x) as nat
                        } else {
                            (org_x - at.pos_x) as nat
                        };
                        lemma_kicked_stays(start, k, lb, rb, f);
                        let seen = start.kicked(k, lb, rb, f);
                        assert(seen.pos_x == at.pos_x);
                        assert(seen.tiles == at.tiles);
                        lemma_kick_stops_by_tiles(seen, at, all_tiles@, lb, rb, f);
                    }
                    assert(!start.kick_settles(all_tiles@, lb, rb, f)) by {
                        if start.kick_settles(all_tiles@, lb, rb, f) {
                            let e = choose|e: nat| start.kick_ends_at(e, all_tiles@, lb, rb, f);
                            assert(start.kicked(e, lb, rb, f).kick_stops(all_tiles@, lb, rb, f));
                        }
                    }
                }
                return false;
            }
            if probe.pos_x <= KICK_PIVOT {
                probe.pos_x += 1
            } else {
                probe.pos_x -= 1
            }
            probe.mut_tiles_pos();
            proof {
                n = n + 1;
            }
        }
    }

    /// Lists what is to be drawn for the piece: one blit for each cell that
    /// is shown, in the order of the layout. A cell is shown if the piece is
    /// on hold or the cell stands below the three topmost rows.
    pub fn draw(&self) -> (blits: Vec<TileBlit>)
        ensures
            blits@ == blits_upto(self@, 4),
    {
        proof {
            use_type_invariant(self);
        }
        let mut blits: Vec<TileBlit> = Vec::new();
        let mut i: usize = 0;
        while i < 4
            invariant
                i <= 4,
                self.inv(),
                blits@ == blits_upto(self@, i as int),
            decreases 4 - i,
        {
            let tile = self.m_shape[i];
            let y = self.pos_y + (tile / 4) as u32;
            if y > 2 || self.on_hold {
                let pos = tile_at(self.pos_x, self.pos_y, tile);
                blits.push(draw_fn(pos, self.color_offset as u32, self.t_size));
            }
            i += 1;
        }
        blits
    }
}

} // verus!
