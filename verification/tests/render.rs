use tetromino::piece::Tetromino;
use tetromino::render::{draw_fn, Region, TileBlit};
use tetromino::shape::Shape;

fn blit(offset: u32, x: u32, y: u32) -> TileBlit {
    TileBlit {
        source: Region { x: offset, y: 0, width: 18, height: 18 },
        target: Region { x, y, width: 18, height: 18 },
    }
}

#[test]
fn draw_fn_pairs_sprite_and_screen_square() {
    let b = draw_fn((5, 6), 36, 18);
    assert_eq!(b.source, Region { x: 36, y: 0, width: 18, height: 18 });
    assert_eq!(b.target, Region { x: 5, y: 6, width: 18, height: 18 });
    let b = draw_fn((100, 200), 90, 20);
    assert_eq!(b.source, Region { x: 90, y: 0, width: 20, height: 20 });
    assert_eq!(b.target, Region { x: 100, y: 200, width: 20, height: 20 });
}

#[test]
fn falling_piece_is_hidden_in_the_top_rows() {
    let piece = Tetromino::new(Shape::T);
    assert_eq!(piece.draw(), vec![]);
}

#[test]
fn falling_piece_shows_the_cells_below_row_two() {
    let mut piece = Tetromino::new(Shape::T);
    piece.make_move(2, 1, 1, 0, 396, 468);
    assert_eq!(piece.draw(), vec![blit(18, 144, 54), blit(18, 162, 54), blit(18, 180, 54)]);
    piece.make_move(1, 1, 1, 0, 396, 468);
    assert_eq!(
        piece.draw(),
        vec![blit(18, 162, 54), blit(18, 144, 72), blit(18, 162, 72), blit(18, 180, 72)]
    );
}

#[test]
fn held_piece_is_drawn_whole() {
    let mut piece = Tetromino::new(Shape::I);
    piece.set_for_next();
    assert_eq!(
        piece.draw(),
        vec![blit(90, 216, 18), blit(90, 234, 18), blit(90, 252, 18), blit(90, 270, 18)]
    );
}

#[test]
fn draw_reads_anchor_and_layout_not_the_tiles() {
    let mut piece = Tetromino::new(Shape::O);
    piece.set_to_pocket();
    assert_eq!(piece.get_tiles_pos(), [(180, 0), (198, 0), (180, 18), (198, 18)]);
    assert_eq!(
        piece.draw(),
        vec![blit(72, 270, 432), blit(72, 288, 432), blit(72, 270, 450), blit(72, 288, 450)]
    );
}
