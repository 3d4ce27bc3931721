//! What a renderer is asked to draw for a piece.
//!
//! Nothing here touches a window. A piece is turned into a list of blits,
//! each a square of the sprite sheet and the square of the screen it is
//! copied to; carrying them out is the renderer's part.

use crate::model::{project_cell, PieceModel};
use crate::shape::sprite_offset;
use vstd::prelude::*;

verus! {

/// A rectangle in pixels.
#[derive(Debug, Copy, Clone, PartialEq, Eq)]
pub struct Region {
    pub x: u32,
    pub y: u32,
    pub width: u32,
    pub height: u32,
}

/// One copy from the sprite sheet to the screen.
#[derive(Debug, Copy, Clone, PartialEq, Eq)]
pub struct TileBlit {
    pub source: Region,
    pub target: Region,
}

/// The blit that draws one tile at pixel position `pos`: the square of edge
/// `t_size` at horizontal offset `offset` in the top row of the sprite sheet,
/// copied to the square of the same size at `pos`.
pub open spec fn tile_blit(pos: (u32, u32), offset: u32, t_size: u32) -> TileBlit {
    TileBlit {
        source: Region { x: offset, y: 0, width: t_size, height: t_size },
        target: Region { x: pos.0, y: pos.1, width: t_size, height: t_size },
    }
}

/// The cell in slot `i` of the piece is drawn: the piece is on hold, or the
/// cell stands below the three topmost rows of the grid.
pub open spec fn cell_shown(piece: PieceModel, i: int) -> bool {
    piece.on_hold || piece.pos_y + piece.layout[i] as int / 4 > 2
}

/// The blit for the cell in slot `i` of the piece. Its position is computed
/// from the anchor and the layout, not taken from the piece's tiles.
pub open spec fn cell_blit(piece: PieceModel, i: int) -> TileBlit {
    tile_blit(
        project_cell(piece.tile_size, piece.pos_x, piece.pos_y, piece.layout[i]),
        sprite_offset(piece.shape) as u32,
        piece.tile_size as u32,
    )
}

/// The blits for the first `n` slots of the piece: those of the cells that
/// are drawn, in the order of the slots.
pub open spec fn blits_upto(piece: PieceModel, n: int) -> Seq<TileBlit>
    decreases n,
{
    if n <= 0 {
        Seq::empty()
    } else if cell_shown(piece, n - 1) {
        blits_upto(piece, n - 1).push(cell_blit(piece, n - 1))
    } else {
        blits_upto(piece, n - 1)
    }
}

/// Builds the blit that draws one tile at pixel position `pos`.
pub fn draw_fn(pos: (u32, u32), offset: u32, t_size: u32) -> (blit: TileBlit)
    ensures
        blit == tile_blit(pos, offset, t_size),
{
    TileBlit {
        source: Region { x: offset, y: 0, width: t_size, height: t_size },
        target: Region { x: pos.0, y: pos.1, width: t_size, height: t_size },
    }
}

} // verus!
