use snake_game::game::Game;
use snake_game::snake::{Direction, Key, Segment, Square};

#[test]
fn new_game_holds_the_starting_snake() {
    let g = Game::new();
    assert_eq!(
        g.snake.body,
        vec![Segment { x: 0, y: 0 }, Segment { x: 0, y: 1 }]
    );
    assert_eq!(g.snake.dir, Direction::Right);
}

#[test]
fn game_update_advances_the_snake() {
    let mut g = Game::new();
    g.update();
    assert_eq!(
        g.snake.body,
        vec![Segment { x: 1, y: 0 }, Segment { x: 0, y: 0 }]
    );
}

#[test]
fn game_routes_key_presses_to_the_snake() {
    let mut g = Game::new();
    g.pressed(Key::K);
    assert_eq!(g.snake.dir, Direction::Up);
    g.pressed(Key::J);
    assert_eq!(g.snake.dir, Direction::Up);
}

#[test]
fn game_render_yields_one_square_per_segment() {
    let g = Game::new();
    let squares = g.render();
    assert_eq!(
        squares,
        vec![
            Square { x: 0, y: 0, side: 20 },
            Square { x: 0, y: 20, side: 20 },
        ]
    );
}
