use ruscii::spatial::Vec2;
use snake3d::cell::Cell;
use snake3d::coord::Vec3;
use snake3d::direction::Direction;
use snake3d::draw::Draw;
use snake3d::game::{GameError, GameState};
use snake3d::grid::Grid;

/// A level with a floor of blocks at z = 0 and empty space above it.
fn floored(dims: Vec3) -> Grid {
    let mut grid = Grid::empty(dims);
    for x in 0..dims.0 {
        for y in 0..dims.1 {
            grid.set((x, y, 0), Cell::Block).unwrap();
        }
    }
    grid
}

fn body_of(game: &GameState) -> Vec<Vec3> {
    game.snake().body().iter().copied().collect()
}

fn cells_of(game: &GameState, dims: Vec3) -> Vec<Option<Cell>> {
    let mut all = Vec::new();
    for z in 0..dims.2 {
        for y in 0..dims.1 {
            for x in 0..dims.0 {
                all.push(game.grid().get((x, y, z)));
            }
        }
    }
    all
}

#[test]
fn a_new_game_has_the_level_and_a_snake_of_one_voxel() {
    let mut level = floored((5, 5, 2));
    level.set((2, 2, 1), Cell::Food).unwrap();
    let game = GameState::new((0, 0, 1), level);
    assert_eq!(body_of(&game), vec![(0, 0, 1)]);
    assert_eq!(game.snake().direction(), Direction::Unset);
    assert_eq!(game.grid().get((2, 2, 1)), Some(Cell::Food));
    assert_eq!(game.grid().get((0, 0, 0)), Some(Cell::Block));
    assert_eq!(game.grid().get((0, 0, 1)), Some(Cell::Empty));
}

#[test]
fn a_walk_to_the_food_and_on() {
    let mut level = floored((5, 5, 2));
    level.set((2, 2, 1), Cell::Food).unwrap();
    let mut game = GameState::new((0, 0, 1), level);

    assert_eq!(game.update(Direction::East), Ok(()));
    assert_eq!(body_of(&game), vec![(1, 0, 1)]);
    assert_eq!(game.update(Direction::East), Ok(()));
    assert_eq!(body_of(&game), vec![(2, 0, 1)]);

    assert_eq!(game.update(Direction::South), Ok(()));
    assert_eq!(body_of(&game), vec![(2, 1, 1)]);
    assert_eq!(game.grid().get((2, 2, 1)), Some(Cell::Food));
    assert_eq!(game.update(Direction::South), Ok(()));
    assert_eq!(body_of(&game), vec![(2, 2, 1), (2, 1, 1)]);
    assert_eq!(game.grid().get((2, 2, 1)), Some(Cell::Empty));

    // The floor carries the snake wherever it goes on this level.
    assert_eq!(game.update(Direction::East), Ok(()));
    assert_eq!(body_of(&game), vec![(3, 2, 1), (2, 2, 1)]);
}

#[test]
fn a_walk_to_the_food_and_over_the_edge_of_the_floor() {
    let mut level = floored((5, 5, 2));
    level.set((2, 2, 1), Cell::Food).unwrap();
    level.set((3, 2, 0), Cell::Void).unwrap();
    let mut game = GameState::new((0, 0, 1), level);

    assert_eq!(game.update(Direction::East), Ok(()));
    assert_eq!(game.update(Direction::East), Ok(()));
    assert_eq!(game.update(Direction::South), Ok(()));
    assert_eq!(game.update(Direction::South), Ok(()));
    assert_eq!(body_of(&game), vec![(2, 2, 1), (2, 1, 1)]);
    assert_eq!(game.grid().get((2, 2, 1)), Some(Cell::Empty));

    assert_eq!(
        game.update(Direction::East),
        Err(GameError::SnakeFell { head: (2, 2, 1), attempted_move: (3, 2, 1) })
    );
    assert_eq!(body_of(&game), vec![(2, 2, 1), (2, 1, 1)]);
    assert_eq!(game.snake().direction(), Direction::East);
}

#[test]
fn no_input_keeps_the_heading() {
    let mut game = GameState::new((0, 0, 1), floored((5, 5, 2)));
    assert_eq!(game.update(Direction::East), Ok(()));
    assert_eq!(game.snake().direction(), Direction::East);
    assert_eq!(game.update(Direction::Unset), Ok(()));
    assert_eq!(body_of(&game), vec![(2, 0, 1)]);
    assert_eq!(game.update(Direction::Unset), Ok(()));
    assert_eq!(body_of(&game), vec![(3, 0, 1)]);
    assert_eq!(game.snake().direction(), Direction::East);
    assert_eq!(game.update(Direction::South), Ok(()));
    assert_eq!(game.update(Direction::Unset), Ok(()));
    assert_eq!(body_of(&game), vec![(3, 2, 1)]);
    assert_eq!(game.snake().direction(), Direction::South);
}

#[test]
fn a_snake_without_heading_and_input_stays_where_it_is() {
    let mut game = GameState::new((1, 1, 1), floored((3, 3, 2)));
    assert_eq!(game.update(Direction::Unset), Ok(()));
    assert_eq!(body_of(&game), vec![(1, 1, 1)]);
    assert_eq!(game.snake().direction(), Direction::Unset);
}

#[test]
fn a_block_in_the_way_is_a_collision_and_changes_nothing() {
    let dims = (5, 5, 2);
    let mut level = floored(dims);
    level.set((1, 0, 1), Cell::Block).unwrap();
    level.set((2, 2, 1), Cell::Food).unwrap();
    let mut game = GameState::new((0, 0, 1), level);
    let cells = cells_of(&game, dims);
    assert_eq!(
        game.update(Direction::East),
        Err(GameError::SnakeCollision { head: (0, 0, 1), attempted_move: (1, 0, 1) })
    );
    assert_eq!(body_of(&game), vec![(0, 0, 1)]);
    assert_eq!(cells_of(&game, dims), cells);
}

#[test]
fn the_edge_of_the_grid_is_a_collision() {
    let dims = (5, 5, 2);
    let mut game = GameState::new((0, 0, 1), floored(dims));
    let cells = cells_of(&game, dims);
    assert_eq!(
        game.update(Direction::West),
        Err(GameError::SnakeCollision { head: (0, 0, 1), attempted_move: (-1, 0, 1) })
    );
    assert_eq!(
        game.update(Direction::North),
        Err(GameError::SnakeCollision { head: (0, 0, 1), attempted_move: (0, -1, 1) })
    );
    assert_eq!(
        game.update(Direction::Up),
        Err(GameError::SnakeCollision { head: (0, 0, 1), attempted_move: (0, 0, 2) })
    );
    assert_eq!(body_of(&game), vec![(0, 0, 1)]);
    assert_eq!(cells_of(&game, dims), cells);
}

#[test]
fn the_floor_beneath_is_a_collision() {
    let mut game = GameState::new((2, 2, 1), floored((5, 5, 2)));
    assert_eq!(
        game.update(Direction::Down),
        Err(GameError::SnakeCollision { head: (2, 2, 1), attempted_move: (2, 2, 0) })
    );
    assert_eq!(body_of(&game), vec![(2, 2, 1)]);
}

#[test]
fn a_void_target_is_a_collision() {
    let mut level = floored((5, 5, 2));
    level.set((1, 0, 1), Cell::Void).unwrap();
    let mut game = GameState::new((0, 0, 1), level);
    assert_eq!(
        game.update(Direction::East),
        Err(GameError::SnakeCollision { head: (0, 0, 1), attempted_move: (1, 0, 1) })
    );
    assert_eq!(body_of(&game), vec![(0, 0, 1)]);
}

#[test]
fn a_collision_still_takes_the_heading() {
    let mut level = floored((5, 5, 2));
    level.set((1, 1, 1), Cell::Block).unwrap();
    let mut game = GameState::new((0, 0, 1), level);
    assert_eq!(game.update(Direction::East), Ok(()));
    assert_eq!(game.snake().direction(), Direction::East);
    assert_eq!(
        game.update(Direction::South),
        Err(GameError::SnakeCollision { head: (1, 0, 1), attempted_move: (1, 1, 1) })
    );
    assert_eq!(game.snake().direction(), Direction::South);
    assert_eq!(body_of(&game), vec![(1, 0, 1)]);
}

#[test]
fn a_collision_under_the_same_heading_changes_nothing_at_all() {
    let mut level = floored((5, 5, 2));
    level.set((2, 0, 1), Cell::Block).unwrap();
    let mut game = GameState::new((0, 0, 1), level);
    assert_eq!(game.update(Direction::East), Ok(()));
    let collision = Err(GameError::SnakeCollision { head: (1, 0, 1), attempted_move: (2, 0, 1) });
    assert_eq!(game.update(Direction::East), collision);
    assert_eq!(game.update(Direction::Unset), collision);
    assert_eq!(game.snake().direction(), Direction::East);
    assert_eq!(body_of(&game), vec![(1, 0, 1)]);
}

#[test]
fn nothing_beneath_the_target_is_a_fall() {
    // One layer only: beneath every voxel lies the outside.
    let dims = (3, 1, 1);
    let mut game = GameState::new((0, 0, 0), Grid::empty(dims));
    let cells = cells_of(&game, dims);
    assert_eq!(
        game.update(Direction::East),
        Err(GameError::SnakeFell { head: (0, 0, 0), attempted_move: (1, 0, 0) })
    );
    assert_eq!(body_of(&game), vec![(0, 0, 0)]);
    assert_eq!(cells_of(&game, dims), cells);
    assert_eq!(game.snake().direction(), Direction::East);
}

#[test]
fn a_void_beneath_the_target_is_a_fall() {
    let mut level = floored((3, 1, 3));
    level.set((1, 0, 1), Cell::Void).unwrap();
    let mut game = GameState::new((0, 0, 2), level);
    assert_eq!(
        game.update(Direction::East),
        Err(GameError::SnakeFell { head: (0, 0, 2), attempted_move: (1, 0, 2) })
    );
    assert_eq!(body_of(&game), vec![(0, 0, 2)]);
}

#[test]
fn an_unsupported_snake_moves_by_the_cell_beneath_but_keeps_its_height() {
    // Block at z = 0, empty at z = 1, and the target above it at z = 2.
    let mut game = GameState::new((0, 0, 2), floored((3, 1, 3)));
    assert_eq!(game.update(Direction::East), Ok(()));
    assert_eq!(body_of(&game), vec![(1, 0, 2)]);
    assert_eq!(game.grid().get((1, 0, 1)), Some(Cell::Empty));
}

#[test]
fn food_beneath_an_unsupported_target_makes_the_snake_grow() {
    let mut level = floored((3, 1, 3));
    level.set((1, 0, 1), Cell::Food).unwrap();
    let mut game = GameState::new((0, 0, 2), level);
    assert_eq!(game.update(Direction::East), Ok(()));
    assert_eq!(body_of(&game), vec![(1, 0, 2), (0, 0, 2)]);
    // The target is emptied; the food that decided the move stays.
    assert_eq!(game.grid().get((1, 0, 2)), Some(Cell::Empty));
    assert_eq!(game.grid().get((1, 0, 1)), Some(Cell::Food));
}

#[test]
fn food_at_an_unsupported_target_is_not_eaten() {
    let mut level = floored((3, 1, 3));
    level.set((1, 0, 2), Cell::Food).unwrap();
    let mut game = GameState::new((0, 0, 2), level);
    assert_eq!(game.update(Direction::East), Ok(()));
    assert_eq!(body_of(&game), vec![(1, 0, 2)]);
    assert_eq!(game.grid().get((1, 0, 2)), Some(Cell::Food));
}

#[test]
fn food_on_a_block_is_eaten() {
    let dims = (3, 3, 2);
    let mut level = floored(dims);
    level.set((1, 0, 1), Cell::Food).unwrap();
    let mut game = GameState::new((0, 0, 1), level);
    let mut expected = cells_of(&game, dims);
    assert_eq!(game.update(Direction::East), Ok(()));
    assert_eq!(body_of(&game), vec![(1, 0, 1), (0, 0, 1)]);
    // Only the voxel of the food has changed.
    expected[9 + 1] = Some(Cell::Empty);
    assert_eq!(cells_of(&game, dims), expected);
}

#[test]
fn a_snake_may_rise_through_empty_space() {
    // Moving up: the voxel beneath the target is the one that the head leaves.
    let mut game = GameState::new((1, 1, 1), floored((3, 3, 4)));
    assert_eq!(game.update(Direction::Up), Ok(()));
    assert_eq!(body_of(&game), vec![(1, 1, 2)]);
    assert_eq!(game.update(Direction::Unset), Ok(()));
    assert_eq!(body_of(&game), vec![(1, 1, 3)]);
    assert_eq!(
        game.update(Direction::Unset),
        Err(GameError::SnakeCollision { head: (1, 1, 3), attempted_move: (1, 1, 4) })
    );
}

#[test]
fn turning_back_into_the_neck_is_cannibalism_and_the_move_is_made() {
    let dims = (5, 5, 2);
    let mut level = floored(dims);
    level.set((1, 0, 1), Cell::Food).unwrap();
    level.set((2, 0, 1), Cell::Food).unwrap();
    let mut game = GameState::new((0, 0, 1), level);
    assert_eq!(game.update(Direction::East), Ok(()));
    assert_eq!(game.update(Direction::East), Ok(()));
    assert_eq!(body_of(&game), vec![(2, 0, 1), (1, 0, 1), (0, 0, 1)]);
    assert_eq!(
        game.update(Direction::West),
        Err(GameError::SnakeCannibalism { head: (2, 0, 1), attempted_move: (1, 0, 1) })
    );
    assert_eq!(body_of(&game), vec![(1, 0, 1), (2, 0, 1), (1, 0, 1)]);
    assert!(game.snake().is_superlapping());
    assert_eq!(game.snake().direction(), Direction::West);
}

#[test]
fn running_into_the_own_body_is_cannibalism() {
    let dims = (5, 5, 2);
    let mut level = floored(dims);
    for x in 1..5 {
        level.set((x, 0, 1), Cell::Food).unwrap();
    }
    let mut game = GameState::new((0, 0, 1), level);
    for _ in 0..4 {
        assert_eq!(game.update(Direction::East), Ok(()));
    }
    assert_eq!(game.snake().body().len(), 5);
    assert_eq!(game.update(Direction::South), Ok(()));
    assert_eq!(game.update(Direction::West), Ok(()));
    assert_eq!(
        body_of(&game),
        vec![(3, 1, 1), (4, 1, 1), (4, 0, 1), (3, 0, 1), (2, 0, 1)]
    );
    assert_eq!(
        game.update(Direction::North),
        Err(GameError::SnakeCannibalism { head: (3, 1, 1), attempted_move: (3, 0, 1) })
    );
    assert_eq!(
        body_of(&game),
        vec![(3, 0, 1), (3, 1, 1), (4, 1, 1), (4, 0, 1), (3, 0, 1)]
    );
}

#[test]
fn a_snake_of_two_may_turn_back() {
    // The tail leaves its voxel in the same tick in which the head enters it.
    let mut level = floored((5, 5, 2));
    level.set((1, 0, 1), Cell::Food).unwrap();
    let mut game = GameState::new((0, 0, 1), level);
    assert_eq!(game.update(Direction::East), Ok(()));
    assert_eq!(body_of(&game), vec![(1, 0, 1), (0, 0, 1)]);
    assert_eq!(game.update(Direction::West), Ok(()));
    assert_eq!(body_of(&game), vec![(0, 0, 1), (1, 0, 1)]);
}

#[test]
fn food_under_a_snake_without_heading_ends_in_cannibalism() {
    let mut level = floored((3, 3, 2));
    level.set((1, 1, 1), Cell::Food).unwrap();
    let mut game = GameState::new((1, 1, 1), level);
    assert_eq!(
        game.update(Direction::Unset),
        Err(GameError::SnakeCannibalism { head: (1, 1, 1), attempted_move: (1, 1, 1) })
    );
    assert_eq!(body_of(&game), vec![(1, 1, 1), (1, 1, 1)]);
    assert_eq!(game.grid().get((1, 1, 1)), Some(Cell::Empty));
}

#[test]
fn a_start_outside_the_level_collides_at_once() {
    let mut game = GameState::new((10, 10, 10), floored((3, 3, 2)));
    assert_eq!(
        game.update(Direction::East),
        Err(GameError::SnakeCollision { head: (10, 10, 10), attempted_move: (11, 10, 10) })
    );
    assert_eq!(body_of(&game), vec![(10, 10, 10)]);
}

#[test]
fn a_game_draws_the_grid_and_then_the_snake() {
    let mut level = floored((2, 1, 2));
    level.set((1, 0, 1), Cell::Food).unwrap();
    let mut game = GameState::new((0, 0, 1), level);
    assert!(game.can_draw());
    assert_eq!(
        game.draw(),
        vec![
            ('W', Vec2 { x: 0, y: 0 }),
            ('W', Vec2 { x: 2, y: 1 }),
            (' ', Vec2 { x: 0, y: -1 }),
            ('F', Vec2 { x: 2, y: 0 }),
            ('S', Vec2 { x: 0, y: -1 }),
        ]
    );
    assert_eq!(game.update(Direction::East), Ok(()));
    assert_eq!(
        game.draw(),
        vec![
            ('W', Vec2 { x: 0, y: 0 }),
            ('W', Vec2 { x: 2, y: 1 }),
            (' ', Vec2 { x: 0, y: -1 }),
            (' ', Vec2 { x: 2, y: 0 }),
            ('S', Vec2 { x: 2, y: 0 }),
            ('S', Vec2 { x: 0, y: -1 }),
        ]
    );
}

#[test]
fn a_game_draws_what_its_parts_draw() {
    let mut level = floored((4, 3, 2));
    level.set((2, 1, 1), Cell::Food).unwrap();
    let game = GameState::new((0, 0, 1), level);
    let mut expected = game.grid().draw();
    expected.extend(game.snake().draw());
    assert_eq!(game.draw(), expected);
    assert_eq!(expected.len(), 25);
}

#[test]
fn a_game_with_its_snake_far_away_cannot_be_drawn() {
    let game = GameState::new((isize::MAX - 1, 0, 0), floored((2, 2, 2)));
    assert!(game.grid().can_draw());
    assert!(!game.snake().can_draw());
    assert!(!game.can_draw());
}
