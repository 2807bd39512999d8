use snake::render::GAME_OVER_MESSAGE;
use snake::{draw_game, update_game, DrawCommand, Game, Paint, Tail};

fn square(x: i32, y: i32, color: Paint) -> DrawCommand {
    DrawCommand::Rectangle { x, y, width: 20, height: 20, color }
}

#[test]
fn opening_frame() {
    let game = Game::default();
    assert_eq!(
        draw_game(&game),
        vec![
            DrawCommand::ClearBackground { color: Paint::Black },
            square(80, 80, Paint::Green),
            square(80, 60, Paint::DarkGreen),
            square(20, 40, Paint::Red),
        ]
    );
}

#[test]
fn tail_squares_come_in_tail_order() {
    let mut game = Game::default();
    game.snake.tail.push_back(Tail::new(5, 3));
    game.snake.tail.push_back(Tail::new(6, 3));
    game.snake.tail.push_front(Tail::new(0, 19));
    assert_eq!(
        draw_game(&game),
        vec![
            DrawCommand::ClearBackground { color: Paint::Black },
            square(80, 80, Paint::Green),
            square(0, 380, Paint::DarkGreen),
            square(80, 60, Paint::DarkGreen),
            square(100, 60, Paint::DarkGreen),
            square(120, 60, Paint::DarkGreen),
            square(20, 40, Paint::Red),
        ]
    );
}

#[test]
fn a_snake_without_tail_draws_head_and_apple() {
    let mut game = Game::default();
    game.snake.tail.clear();
    assert_eq!(
        draw_game(&game),
        vec![
            DrawCommand::ClearBackground { color: Paint::Black },
            square(80, 80, Paint::Green),
            square(20, 40, Paint::Red),
        ]
    );
}

#[test]
fn game_over_frame_shows_only_the_message() {
    let mut game = Game::default();
    game.game_over = true;
    assert_eq!(
        draw_game(&game),
        vec![
            DrawCommand::ClearBackground { color: Paint::Black },
            DrawCommand::Text {
                text: "Game over!",
                x: 120,
                y: 200,
                font_size: 32,
                color: Paint::White,
            },
        ]
    );
    assert_eq!(GAME_OVER_MESSAGE, "Game over!");
}

#[test]
fn game_over_frame_ignores_where_the_snake_is() {
    let mut game = Game::default();
    game.game_over = true;
    game.snake.x = i32::MAX;
    game.snake.y = i32::MIN;
    assert!(game.can_draw());
    assert_eq!(draw_game(&game).len(), 2);
}

#[test]
fn drawing_twice_gives_the_same_commands() {
    let mut game = Game::default();
    let first = draw_game(&game);
    let second = draw_game(&game);
    assert_eq!(first, second);

    update_game(&mut game);
    let third = draw_game(&game);
    assert_ne!(first, third);
    assert_eq!(third, draw_game(&game));

    game.game_over = true;
    assert_eq!(draw_game(&game), draw_game(&game));
}

#[test]
fn drawing_follows_the_simulation() {
    let mut game = Game::default();
    update_game(&mut game);
    assert_eq!(
        draw_game(&game),
        vec![
            DrawCommand::ClearBackground { color: Paint::Black },
            square(80, 100, Paint::Green),
            square(80, 80, Paint::DarkGreen),
            square(20, 40, Paint::Red),
        ]
    );
}

#[test]
fn can_draw_tells_when_pixels_leave_the_integers() {
    let mut game = Game::default();
    assert!(game.can_draw());

    game.snake.x = i32::MAX / 20 + 1;
    assert!(!game.can_draw());
    game.snake.x = i32::MAX / 20;
    assert!(game.can_draw());

    game.apple.y = i32::MIN / 20 - 1;
    assert!(!game.can_draw());
    game.apple.y = i32::MIN / 20;
    assert!(game.can_draw());

    game.snake.tail.push_back(Tail::new(0, i32::MAX));
    assert!(!game.can_draw());
    game.game_over = true;
    assert!(game.can_draw());
}
