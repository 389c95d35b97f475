//! The world state machine: construction, direction control, ticks,
//! growth, winning and losing.

use snake_core::Direction;
use snake_core::GameStatus;
use snake_core::World;

#[test]
fn new_world_spawns_the_snake_and_places_the_reward_off_it() {
    let world = World::new(8, 20, 3);
    assert_eq!(world.get_snake_cells().as_slice(), &[20, 19, 18]);
    assert_eq!(world.get_snake_head_idx(), 20);
    assert_eq!(world.get_snake_length(), 3);
    assert_eq!(world.get_points(), 0);
    assert!(world.get_game_status().is_none());
    let reward = world.get_reward_cell();
    assert!(reward < 64);
    assert!(!world.get_snake_cells().contains(&reward));
}

#[test]
fn first_step_moves_the_head_right_and_shifts_the_body() {
    let mut world = World::new(8, 20, 3);
    let reward = world.get_reward_cell();
    world.start_game();
    world.step();
    assert_eq!(world.get_snake_head_idx(), 21);
    if reward != 21 {
        // No reward collision: length unchanged, every segment moved up
        // into its predecessor's cell.
        assert_eq!(world.get_snake_cells().as_slice(), &[21, 20, 19]);
        assert_eq!(world.get_points(), 0);
    }
}

#[test]
fn stepping_before_the_game_starts_changes_nothing() {
    let mut world = World::new(8, 20, 3);
    world.step();
    assert_eq!(world.get_snake_cells().as_slice(), &[20, 19, 18]);
    assert!(world.get_game_status().is_none());
}

#[test]
fn reversal_into_the_neck_is_rejected() {
    let mut world = World::new(8, 20, 3);
    world.start_game();
    // The candidate next cell for Left is 19, the second body segment:
    // the call must change neither heading nor pending head.
    world.set_snake_direction(Direction::Left);
    world.step();
    assert_eq!(world.get_snake_head_idx(), 21);
}

#[test]
fn an_accepted_turn_takes_effect_on_the_next_tick() {
    let mut world = World::new(8, 20, 3);
    world.start_game();
    world.set_snake_direction(Direction::Up);
    world.step();
    assert_eq!(world.get_snake_head_idx(), 12);
}

#[test]
fn eating_the_reward_grows_scores_and_replaces_the_reward() {
    // On a 2x2 board a two-segment snake leaves two free cells, so the
    // reward is either 2 or 3 and the snake can be steered onto it.
    let mut world = World::new(2, 1, 2);
    let reward = world.get_reward_cell();
    assert!(reward == 2 || reward == 3);
    world.start_game();
    world.set_snake_direction(Direction::Down);
    world.step();
    if reward == 2 {
        // Head is now 3; one wrapping move Right reaches cell 2.
        assert_eq!(world.get_snake_head_idx(), 3);
        assert_eq!(world.get_points(), 0);
        world.set_snake_direction(Direction::Right);
        world.step();
    }
    assert_eq!(world.get_points(), 1);
    assert_eq!(world.get_snake_length(), 3);
    let fresh = world.get_reward_cell();
    assert_ne!(fresh, reward);
    assert!(fresh < 4);
    assert!(!world.get_snake_cells().contains(&fresh));
    assert!(matches!(world.get_game_status(), Some(GameStatus::Played)));
}

#[test]
fn filling_the_board_wins_and_parks_the_reward_out_of_range() {
    // Three of four cells occupied: the reward can only sit on cell 3,
    // one move Right from the head.
    let mut world = World::new(2, 2, 3);
    assert_eq!(world.get_reward_cell(), 3);
    world.start_game();
    world.step();
    assert!(matches!(world.get_game_status(), Some(GameStatus::Won)));
    assert_eq!(world.get_points(), 1);
    assert_eq!(world.get_snake_length(), 4);
    assert_eq!(world.get_snake_cells().as_slice(), &[3, 2, 1, 0]);
    assert_eq!(world.get_reward_cell(), usize::MAX);
}

#[test]
fn running_into_the_body_loses_and_stops_the_tick() {
    // Eight of nine cells occupied forces the reward onto cell 8; a move
    // Up from the head lands on a cell the shifted body still holds.
    let mut world = World::new(3, 7, 8);
    assert_eq!(world.get_reward_cell(), 8);
    world.start_game();
    world.set_snake_direction(Direction::Up);
    world.step();
    assert!(matches!(world.get_game_status(), Some(GameStatus::Lost)));
    assert_eq!(world.get_snake_cells().as_slice(), &[4, 7, 6, 5, 4, 3, 2, 1]);
    assert_eq!(world.get_points(), 0);
    assert_eq!(world.get_reward_cell(), 8);
}

#[test]
fn an_adopted_heading_persists_over_later_ticks() {
    let mut world = World::new(8, 20, 3);
    world.start_game();
    world.set_snake_direction(Direction::Up);
    world.step();
    assert_eq!(world.get_snake_head_idx(), 12);
    world.step();
    assert_eq!(world.get_snake_head_idx(), 4);
    world.step();
    assert_eq!(world.get_snake_head_idx(), 60);
}

#[test]
fn status_text_follows_the_game_status() {
    let mut world = World::new(2, 2, 3);
    assert_eq!(world.game_status_text(), "No Status");
    world.start_game();
    assert_eq!(world.game_status_text(), "Playing");
    world.step();
    assert_eq!(world.game_status_text(), "You have won!");

    let mut lost = World::new(3, 7, 8);
    lost.start_game();
    lost.set_snake_direction(Direction::Up);
    lost.step();
    assert_eq!(lost.game_status_text(), "You have lost!");
}

#[test]
fn finished_games_ignore_further_ticks() {
    let mut world = World::new(2, 2, 3);
    world.start_game();
    world.step();
    assert!(matches!(world.get_game_status(), Some(GameStatus::Won)));
    let body: Vec<usize> = world.get_snake_cells().clone();
    let points = world.get_points();
    world.step();
    assert_eq!(world.get_snake_cells().as_slice(), body.as_slice());
    assert_eq!(world.get_points(), points);
    assert!(matches!(world.get_game_status(), Some(GameStatus::Won)));
}
