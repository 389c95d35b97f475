//! Toroidal movement, checked exhaustively on an 8x8 grid.

use snake_core::Direction;
use snake_core::World;

const WIDTH: usize = 8;
const SIZE: usize = WIDTH * WIDTH;

fn next_from(head: usize, direction: &Direction) -> usize {
    // A one-segment snake puts the head on any chosen cell.
    let world = World::new(WIDTH, head, 1);
    world.gen_next_snake_cell(direction)
}

#[test]
fn next_cell_stays_on_grid_and_keeps_the_orthogonal_coordinate() {
    for head in 0..SIZE {
        for direction in [Direction::Up, Direction::Right, Direction::Down, Direction::Left] {
            let next = next_from(head, &direction);
            assert!(next < SIZE);
            match direction {
                Direction::Left | Direction::Right => {
                    assert_eq!(next / WIDTH, head / WIDTH);
                }
                Direction::Up | Direction::Down => {
                    assert_eq!(next % WIDTH, head % WIDTH);
                }
            }
        }
    }
}

#[test]
fn right_then_left_and_left_then_right_round_trip() {
    for head in 0..SIZE {
        let right = next_from(head, &Direction::Right);
        assert_eq!(next_from(right, &Direction::Left), head);
        let left = next_from(head, &Direction::Left);
        assert_eq!(next_from(left, &Direction::Right), head);
    }
}

#[test]
fn up_then_down_and_down_then_up_round_trip() {
    for head in 0..SIZE {
        let up = next_from(head, &Direction::Up);
        assert_eq!(next_from(up, &Direction::Down), head);
        let down = next_from(head, &Direction::Down);
        assert_eq!(next_from(down, &Direction::Up), head);
    }
}

#[test]
fn moving_right_off_the_row_wraps_to_its_first_cell() {
    // Head on the rightmost cell of the top row: one move Right re-enters
    // the same row on the left, not the next row.
    assert_eq!(next_from(7, &Direction::Right), 0);
    assert_eq!(next_from(15, &Direction::Right), 8);
    assert_eq!(next_from(63, &Direction::Right), 56);
}

#[test]
fn vertical_wrap_keeps_the_column() {
    assert_eq!(next_from(3, &Direction::Up), 59);
    assert_eq!(next_from(59, &Direction::Down), 3);
}
