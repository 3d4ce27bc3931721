use tetromino::occupancy::Occupancy;
use tetromino::piece::{overlap_is_tolerated, Tetromino};
use tetromino::shape::{Rotation, Shape};

const LEFT: u32 = 0;
const RIGHT: u32 = 396;
const FLOOR: u32 = 468;

fn turn(piece: &mut Tetromino, direction: Rotation, board: &Occupancy) {
    assert!(piece.can_rotate(direction, board, LEFT, RIGHT, FLOOR));
    piece.rotate(direction, board, LEFT, RIGHT, FLOOR);
}

#[test]
fn new_piece_is_active_at_the_spawn_anchor() {
    let piece = Tetromino::new(Shape::T);
    assert_eq!(piece.get_shape(), Shape::T);
    assert_eq!(*piece.id(), Shape::T);
    assert_eq!(piece.anchor(), (8, 0));
    assert_eq!(piece.rotation_index(), 0);
    assert_eq!(piece.current_layout(), [1, 4, 5, 6]);
    assert!(piece.is_active());
    assert!(!piece.is_held());
    assert_eq!(piece.get_tiles_pos(), [(162, 0), (144, 18), (162, 18), (180, 18)]);
}

#[test]
fn tiles_are_tile_size_times_anchor_plus_cell() {
    let piece = Tetromino::new(Shape::I);
    assert_eq!(piece.get_tiles_pos(), [(144, 18), (162, 18), (180, 18), (198, 18)]);
    let piece = Tetromino::new(Shape::O);
    assert_eq!(piece.get_tiles_pos(), [(180, 0), (198, 0), (180, 18), (198, 18)]);
}

#[test]
fn projecting_twice_gives_the_same_tiles() {
    let mut piece = Tetromino::new(Shape::S);
    piece.set_default_pos();
    piece.mut_tiles_pos();
    let once = piece;
    piece.mut_tiles_pos();
    assert_eq!(piece, once);
    assert_eq!(piece.get_tiles_pos(), [(180, 0), (198, 0), (162, 18), (180, 18)]);
}

#[test]
fn set_default_pos_leaves_tiles_until_projected() {
    let mut piece = Tetromino::new(Shape::T);
    turn(&mut piece, Rotation::Right, &Occupancy::new());
    piece.make_move(3, 1, 0, LEFT, RIGHT, FLOOR);
    let stale = piece.get_tiles_pos();
    assert_eq!(stale, [(216, 0), (216, 18), (234, 18), (216, 36)]);
    piece.set_default_pos();
    assert_eq!(piece.anchor(), (8, 0));
    assert_eq!(piece.rotation_index(), 0);
    assert_eq!(piece.current_layout(), [1, 4, 5, 6]);
    assert!(!piece.is_held());
    assert_eq!(piece.get_tiles_pos(), stale);
    piece.mut_tiles_pos();
    assert_eq!(piece.get_tiles_pos(), [(162, 0), (144, 18), (162, 18), (180, 18)]);
}

#[test]
fn set_for_next_holds_the_piece_in_the_preview() {
    let mut piece = Tetromino::new(Shape::L);
    turn(&mut piece, Rotation::Left, &Occupancy::new());
    piece.set_for_next();
    assert_eq!(piece.anchor(), (12, 0));
    assert_eq!(piece.rotation_index(), 0);
    assert_eq!(piece.current_layout(), [3, 5, 6, 7]);
    assert!(piece.is_held());
    assert!(piece.is_active());
    piece.set_default_pos();
    assert!(!piece.is_held());
}

#[test]
fn set_to_pocket_keeps_the_hold_flag() {
    let mut piece = Tetromino::new(Shape::Z);
    piece.set_to_pocket();
    assert_eq!(piece.anchor(), (13, 24));
    assert_eq!(piece.rotation_index(), 0);
    assert_eq!(piece.current_layout(), [0, 1, 5, 6]);
    assert!(!piece.is_held());
    piece.set_for_next();
    piece.set_to_pocket();
    assert_eq!(piece.anchor(), (13, 24));
    assert!(piece.is_held());
}

#[test]
fn deactivate_locks_the_piece() {
    let mut piece = Tetromino::new(Shape::J);
    let before = piece;
    piece.deactivate();
    assert!(!piece.is_active());
    assert_eq!(piece.anchor(), before.anchor());
    assert_eq!(piece.get_tiles_pos(), before.get_tiles_pos());
    assert_eq!(piece.current_layout(), before.current_layout());
}

#[test]
fn frame_check_reports_nothing_inside_the_frame() {
    let mut piece = Tetromino::new(Shape::T);
    let before = piece;
    assert!(!piece.collides_with_frame(LEFT, RIGHT, FLOOR));
    assert_eq!(piece, before);
}

#[test]
fn floor_collision_locks_the_piece() {
    let mut piece = Tetromino::new(Shape::T);
    assert!(piece.collides_with_frame(LEFT, RIGHT, 18));
    assert!(!piece.is_active());
    assert_eq!(piece.anchor(), (8, 0));
    assert_eq!(piece.get_tiles_pos(), [(162, 0), (144, 18), (162, 18), (180, 18)]);
}

#[test]
fn border_collision_does_not_lock_the_piece() {
    let mut piece = Tetromino::new(Shape::T);
    let before = piece;
    assert!(piece.collides_with_frame(144, RIGHT, FLOOR));
    assert!(piece.is_active());
    assert!(piece.collides_with_frame(LEFT, 180, FLOOR));
    assert!(piece.is_active());
    assert_eq!(piece, before);
}

#[test]
fn floor_locks_whatever_the_borders() {
    // The first tile is on the left border, the other three at the floor.
    let mut piece = Tetromino::new(Shape::T);
    assert!(piece.collides_with_frame(162, RIGHT, 18));
    assert!(!piece.is_active());
    // Every tile is beyond a border and at the floor.
    let mut piece = Tetromino::new(Shape::T);
    assert!(piece.collides_with_frame(200, RIGHT, 0));
    assert!(!piece.is_active());
    // Only the last tile is at the floor, the first one beyond the right
    // border.
    let mut piece = Tetromino::new(Shape::T);
    piece.delete_tile((144, 18));
    piece.delete_tile((162, 18));
    assert_eq!(piece.get_tiles_pos(), [(162, 0), (0, 0), (0, 0), (180, 18)]);
    assert!(piece.collides_with_frame(LEFT, 162, 18));
    assert!(!piece.is_active());
}

#[test]
fn frame_check_keeps_a_locked_piece_locked() {
    let mut piece = Tetromino::new(Shape::T);
    piece.deactivate();
    assert!(!piece.collides_with_frame(LEFT, RIGHT, FLOOR));
    assert!(!piece.is_active());
}

#[test]
fn move_left_is_blocked_at_the_leftmost_column() {
    let mut piece = Tetromino::new(Shape::T);
    piece.make_move(7, -1, 0, LEFT, RIGHT, FLOOR);
    assert_eq!(piece.anchor(), (1, 0));
    piece.make_move(1, -1, 0, LEFT, RIGHT, FLOOR);
    assert_eq!(piece.anchor(), (1, 0));
    assert!(piece.is_active());
    assert_eq!(piece.get_tiles_pos(), [(36, 0), (18, 18), (36, 18), (54, 18)]);
}

#[test]
fn move_left_succeeds_one_column_further_right() {
    let mut piece = Tetromino::new(Shape::T);
    piece.make_move(6, -1, 0, LEFT, RIGHT, FLOOR);
    assert_eq!(piece.anchor(), (2, 0));
    piece.make_move(1, -1, 0, LEFT, RIGHT, FLOOR);
    assert_eq!(piece.anchor(), (1, 0));
    assert_eq!(piece.get_tiles_pos(), [(36, 0), (18, 18), (36, 18), (54, 18)]);
}

#[test]
fn move_right_is_blocked_at_the_rightmost_column() {
    let mut piece = Tetromino::new(Shape::T);
    piece.make_move(11, 1, 0, LEFT, RIGHT, FLOOR);
    assert_eq!(piece.anchor(), (19, 0));
    piece.make_move(1, 1, 0, LEFT, RIGHT, FLOOR);
    assert_eq!(piece.anchor(), (19, 0));
    assert!(piece.is_active());
    assert_eq!(piece.get_tiles_pos(), [(360, 0), (342, 18), (360, 18), (378, 18)]);
}

#[test]
fn move_down_is_blocked_by_the_floor_and_locks() {
    let mut piece = Tetromino::new(Shape::T);
    piece.make_move(24, 1, 1, LEFT, RIGHT, FLOOR);
    assert_eq!(piece.anchor(), (8, 24));
    assert!(piece.is_active());
    piece.make_move(1, 1, 1, LEFT, RIGHT, FLOOR);
    assert_eq!(piece.anchor(), (8, 24));
    assert!(!piece.is_active());
    assert_eq!(piece.get_tiles_pos(), [(162, 432), (144, 450), (162, 450), (180, 450)]);
}

#[test]
fn move_up_is_blocked_beside_a_border() {
    let mut piece = Tetromino::new(Shape::T);
    piece.make_move(3, 1, 1, LEFT, RIGHT, FLOOR);
    assert_eq!(piece.anchor(), (8, 3));
    piece.make_move(1, -1, 1, 144, RIGHT, FLOOR);
    assert_eq!(piece.anchor(), (8, 3));
    assert!(piece.is_active());
    assert_eq!(piece.get_tiles_pos(), [(162, 54), (144, 72), (162, 72), (180, 72)]);
    piece.make_move(1, -1, 1, LEFT, RIGHT, FLOOR);
    assert_eq!(piece.anchor(), (8, 2));
}

#[test]
fn move_ignores_filled_cells() {
    // A move is checked against the frame only.
    let mut piece = Tetromino::new(Shape::O);
    piece.make_move(2, 1, 1, LEFT, RIGHT, FLOOR);
    assert_eq!(piece.anchor(), (8, 2));
    assert_eq!(piece.get_tiles_pos(), [(180, 36), (198, 36), (180, 54), (198, 54)]);
}

#[test]
fn move_of_several_steps_is_all_or_nothing() {
    let mut piece = Tetromino::new(Shape::T);
    piece.make_move(8, -1, 0, LEFT, RIGHT, FLOOR);
    assert_eq!(piece.anchor(), (8, 0));
    piece.make_move(5, -1, 0, LEFT, RIGHT, FLOOR);
    assert_eq!(piece.anchor(), (3, 0));
    piece.make_move(17, 1, 0, LEFT, RIGHT, FLOOR);
    assert_eq!(piece.anchor(), (3, 0));
    piece.make_move(16, 1, 0, LEFT, RIGHT, FLOOR);
    assert_eq!(piece.anchor(), (19, 0));
}

#[test]
fn delete_tile_zeroes_tile_and_cell() {
    let mut piece = Tetromino::new(Shape::T);
    piece.delete_tile((162, 18));
    assert_eq!(piece.get_tiles_pos(), [(162, 0), (144, 18), (0, 0), (180, 18)]);
    assert_eq!(piece.current_layout(), [1, 4, 0, 6]);
    assert_eq!(piece.anchor(), (8, 0));
    assert!(piece.is_active());
}

#[test]
fn delete_tile_of_absent_coordinate_changes_nothing() {
    let mut piece = Tetromino::new(Shape::T);
    let before = piece;
    piece.delete_tile((162, 36));
    assert_eq!(piece, before);
    piece.delete_tile((0, 0));
    assert_eq!(piece, before);
    assert_eq!(piece.get_tiles_pos(), [(162, 0), (144, 18), (162, 18), (180, 18)]);
    assert_eq!(piece.current_layout(), [1, 4, 5, 6]);
}

#[test]
fn delete_tile_takes_the_first_match_only() {
    let mut piece = Tetromino::new(Shape::T);
    piece.delete_tile((162, 0));
    piece.delete_tile((144, 18));
    assert_eq!(piece.get_tiles_pos(), [(0, 0), (0, 0), (162, 18), (180, 18)]);
    piece.delete_tile((0, 0));
    assert_eq!(piece.get_tiles_pos(), [(0, 0), (0, 0), (162, 18), (180, 18)]);
    assert_eq!(piece.current_layout(), [0, 0, 5, 6]);
}

#[test]
fn rotate_right_takes_the_next_layout() {
    let mut piece = Tetromino::new(Shape::T);
    let board = Occupancy::new();
    turn(&mut piece, Rotation::Right, &board);
    assert_eq!(piece.rotation_index(), 1);
    assert_eq!(piece.current_layout(), [1, 5, 6, 9]);
    assert_eq!(piece.anchor(), (8, 0));
    assert_eq!(piece.get_tiles_pos(), [(162, 0), (162, 18), (180, 18), (162, 36)]);
    assert!(piece.is_active());
}

#[test]
fn rotate_left_wraps_from_zero_to_three() {
    let mut piece = Tetromino::new(Shape::T);
    let board = Occupancy::new();
    turn(&mut piece, Rotation::Left, &board);
    assert_eq!(piece.rotation_index(), 3);
    assert_eq!(piece.current_layout(), [1, 4, 5, 9]);
    turn(&mut piece, Rotation::Right, &board);
    assert_eq!(piece.rotation_index(), 0);
    assert_eq!(piece.current_layout(), [1, 4, 5, 6]);
}

#[test]
fn four_turns_restore_orientation_and_anchor() {
    let board = Occupancy::new();
    for shape in [Shape::I, Shape::T, Shape::L, Shape::J, Shape::S, Shape::Z, Shape::O] {
        for direction in [Rotation::Right, Rotation::Left] {
            let mut piece = Tetromino::new(shape);
            let before = piece;
            for _ in 0..4 {
                turn(&mut piece, direction, &board);
            }
            assert_eq!(piece.rotation_index(), 0);
            assert_eq!(piece.anchor(), (8, 0));
            assert_eq!(piece, before);
        }
    }
}

#[test]
fn square_keeps_its_layout_at_every_rotation_index() {
    let board = Occupancy::new();
    let mut piece = Tetromino::new(Shape::O);
    assert_eq!(piece.anchor(), (8, 0));
    assert_eq!(piece.current_layout(), [2, 3, 6, 7]);
    for expected in [1, 2, 3, 0] {
        turn(&mut piece, Rotation::Right, &board);
        assert_eq!(piece.rotation_index(), expected);
        assert_eq!(piece.current_layout(), [2, 3, 6, 7]);
        assert_eq!(piece.get_tiles_pos(), [(180, 0), (198, 0), (180, 18), (198, 18)]);
    }
    for expected in [3, 2, 1, 0] {
        turn(&mut piece, Rotation::Left, &board);
        assert_eq!(piece.rotation_index(), expected);
        assert_eq!(piece.current_layout(), [2, 3, 6, 7]);
    }
}

fn upright_bar_at_the_left_wall() -> Tetromino {
    let mut piece = Tetromino::new(Shape::I);
    turn(&mut piece, Rotation::Right, &Occupancy::new());
    piece.make_move(8, -1, 0, LEFT, RIGHT, FLOOR);
    assert_eq!(piece.anchor(), (0, 0));
    assert_eq!(piece.get_tiles_pos(), [(36, 0), (36, 18), (36, 36), (36, 54)]);
    piece
}

#[test]
fn rotate_kicks_away_from_the_left_wall() {
    let mut piece = upright_bar_at_the_left_wall();
    turn(&mut piece, Rotation::Right, &Occupancy::new());
    assert_eq!(piece.rotation_index(), 2);
    assert_eq!(piece.anchor(), (1, 0));
    assert_eq!(piece.current_layout(), [8, 9, 10, 11]);
    assert_eq!(piece.get_tiles_pos(), [(18, 36), (36, 36), (54, 36), (72, 36)]);
    assert!(piece.is_active());
}

#[test]
fn rotate_kicks_away_from_the_right_wall() {
    let board = Occupancy::new();
    let mut piece = Tetromino::new(Shape::I);
    turn(&mut piece, Rotation::Left, &board);
    piece.make_move(12, 1, 0, LEFT, RIGHT, FLOOR);
    assert_eq!(piece.anchor(), (20, 0));
    turn(&mut piece, Rotation::Left, &board);
    assert_eq!(piece.rotation_index(), 2);
    assert_eq!(piece.anchor(), (18, 0));
    assert_eq!(piece.get_tiles_pos(), [(324, 36), (342, 36), (360, 36), (378, 36)]);
}

#[test]
fn rotate_is_undone_when_wall_and_filled_cell_meet() {
    let mut piece = upright_bar_at_the_left_wall();
    let mut board = Occupancy::new();
    board.insert((18, 36), 1);
    turn(&mut piece, Rotation::Right, &board);
    assert_eq!(piece.rotation_index(), 1);
    assert_eq!(piece.anchor(), (0, 0));
    assert_eq!(piece.current_layout(), [2, 6, 10, 14]);
    assert_eq!(piece.get_tiles_pos(), [(36, 0), (36, 18), (36, 36), (36, 54)]);
    assert!(piece.is_active());
}

#[test]
fn rotate_is_undone_when_the_kick_lands_on_a_filled_cell() {
    let mut piece = upright_bar_at_the_left_wall();
    let mut board = Occupancy::new();
    board.insert((72, 36), 1);
    turn(&mut piece, Rotation::Right, &board);
    assert_eq!(piece.rotation_index(), 1);
    assert_eq!(piece.anchor(), (0, 0));
    assert_eq!(piece.current_layout(), [2, 6, 10, 14]);
    assert_eq!(piece.get_tiles_pos(), [(36, 0), (36, 18), (36, 36), (36, 54)]);
}

#[test]
fn rotate_onto_a_filled_cell_is_undone() {
    let mut piece = Tetromino::new(Shape::T);
    let before = piece;
    let mut board = Occupancy::new();
    board.insert((162, 36), 1);
    turn(&mut piece, Rotation::Right, &board);
    assert_eq!(piece, before);
}

#[test]
fn rotate_onto_four_filled_cells_in_few_rows_is_kept() {
    let mut piece = Tetromino::new(Shape::T);
    let mut board = Occupancy::new();
    for cell in [(162, 0), (162, 18), (180, 18), (162, 36)] {
        board.insert(cell, 1);
    }
    turn(&mut piece, Rotation::Right, &board);
    assert_eq!(piece.rotation_index(), 1);
    assert_eq!(piece.current_layout(), [1, 5, 6, 9]);
    assert_eq!(piece.get_tiles_pos(), [(162, 0), (162, 18), (180, 18), (162, 36)]);
}

#[test]
fn rotate_onto_four_filled_cells_in_many_rows_is_undone() {
    let mut piece = Tetromino::new(Shape::I);
    let before = piece;
    let mut board = Occupancy::new();
    for cell in [(180, 0), (180, 18), (180, 36), (180, 54)] {
        board.insert(cell, 1);
    }
    turn(&mut piece, Rotation::Right, &board);
    assert_eq!(piece, before);
}

#[test]
fn rotate_into_the_floor_cannot_settle_on_an_empty_board() {
    let mut piece = Tetromino::new(Shape::I);
    piece.make_move(24, 1, 1, LEFT, RIGHT, FLOOR);
    assert_eq!(piece.anchor(), (8, 24));
    let before = piece;
    assert!(!piece.can_rotate(Rotation::Right, &Occupancy::new(), LEFT, RIGHT, FLOOR));
    assert!(!piece.can_rotate(Rotation::Left, &Occupancy::new(), LEFT, RIGHT, FLOOR));
    assert_eq!(piece, before);
}

#[test]
fn rotate_into_the_floor_on_a_filled_cell_is_undone_and_locks() {
    let mut piece = Tetromino::new(Shape::I);
    piece.make_move(24, 1, 1, LEFT, RIGHT, FLOOR);
    let mut board = Occupancy::new();
    board.insert((180, 432), 1);
    turn(&mut piece, Rotation::Right, &board);
    assert_eq!(piece.rotation_index(), 0);
    assert_eq!(piece.anchor(), (8, 24));
    assert_eq!(piece.current_layout(), [4, 5, 6, 7]);
    assert_eq!(piece.get_tiles_pos(), [(144, 450), (162, 450), (180, 450), (198, 450)]);
    assert!(!piece.is_active());
}

#[test]
fn rotate_kick_finds_a_filled_cell_on_its_way() {
    // Turned into the floor, the piece is moved towards the middle until it
    // lies on a filled cell; the turn is then undone.
    let mut piece = Tetromino::new(Shape::I);
    piece.make_move(24, 1, 1, LEFT, RIGHT, FLOOR);
    piece.make_move(6, 1, 0, LEFT, RIGHT, FLOOR);
    assert_eq!(piece.anchor(), (14, 24));
    let mut board = Occupancy::new();
    board.insert((18 * 13, 450), 1);
    assert!(piece.can_rotate(Rotation::Right, &board, LEFT, RIGHT, FLOOR));
    piece.rotate(Rotation::Right, &board, LEFT, RIGHT, FLOOR);
    assert_eq!(piece.rotation_index(), 0);
    assert_eq!(piece.anchor(), (14, 24));
    assert!(!piece.is_active());
    let mut far = Occupancy::new();
    far.insert((18 * 17, 450), 1);
    assert!(!piece.can_rotate(Rotation::Right, &far, LEFT, RIGHT, FLOOR));
}

#[test]
fn undone_rotate_keeps_a_deleted_cell_deleted() {
    let mut piece = Tetromino::new(Shape::T);
    piece.delete_tile((162, 0));
    assert_eq!(piece.current_layout(), [0, 4, 5, 6]);
    let mut board = Occupancy::new();
    board.insert((162, 36), 1);
    turn(&mut piece, Rotation::Right, &board);
    assert_eq!(piece.rotation_index(), 0);
    assert_eq!(piece.anchor(), (8, 0));
    assert_eq!(piece.current_layout(), [0, 4, 5, 6]);
    assert_eq!(piece.get_tiles_pos(), [(144, 0), (144, 18), (162, 18), (180, 18)]);
    assert!(piece.is_active());
}

#[test]
fn undone_rotate_at_the_wall_keeps_a_deleted_cell_deleted() {
    let mut piece = upright_bar_at_the_left_wall();
    piece.delete_tile((36, 54));
    assert_eq!(piece.current_layout(), [2, 6, 10, 0]);
    let mut board = Occupancy::new();
    board.insert((18, 36), 1);
    turn(&mut piece, Rotation::Right, &board);
    assert_eq!(piece.rotation_index(), 1);
    assert_eq!(piece.anchor(), (0, 0));
    assert_eq!(piece.current_layout(), [2, 6, 10, 0]);
    assert_eq!(piece.get_tiles_pos(), [(36, 0), (36, 18), (36, 36), (0, 0)]);
}

#[test]
fn overlap_needs_all_four_tiles_on_filled_cells() {
    let tiles = [(198, 0), (198, 18), (216, 18), (198, 36)];
    let mut board = Occupancy::new();
    assert!(!overlap_is_tolerated(&tiles, &board));
    board.insert((198, 0), 1);
    board.insert((198, 18), 1);
    board.insert((216, 18), 1);
    assert!(!overlap_is_tolerated(&tiles, &board));
    board.insert((198, 36), 1);
    assert!(overlap_is_tolerated(&tiles, &board));
}

#[test]
fn overlap_counts_row_changes_of_the_first_three_tiles() {
    let mut board = Occupancy::new();
    for x in [0u32, 18, 36, 54] {
        for y in [0u32, 18, 36, 54] {
            board.insert((x, y), 1);
        }
    }
    // No change, as the count starts from row 0.
    assert!(overlap_is_tolerated(&[(0, 0), (18, 0), (36, 0), (54, 0)], &board));
    // One change at the first tile.
    assert!(overlap_is_tolerated(&[(0, 18), (18, 18), (36, 18), (54, 18)], &board));
    // One change among the first three, a second one at the last tile.
    assert!(overlap_is_tolerated(&[(0, 0), (0, 18), (18, 18), (18, 36)], &board));
    // Two changes among the first three.
    assert!(!overlap_is_tolerated(&[(0, 0), (0, 18), (0, 36), (0, 54)], &board));
    assert!(!overlap_is_tolerated(&[(0, 18), (18, 36), (36, 36), (54, 36)], &board));
    // Back to an earlier row counts as a change.
    assert!(!overlap_is_tolerated(&[(0, 18), (18, 0), (36, 0), (54, 0)], &board));
}
