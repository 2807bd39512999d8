use snake::{handle_input, update_game, Game, Key};

const ALL_KEYS: [Key; 9] = [
    Key::W,
    Key::A,
    Key::S,
    Key::D,
    Key::Up,
    Key::Left,
    Key::Down,
    Key::Right,
    Key::Other,
];

fn heading(direction: (i32, i32)) -> Game {
    let mut game = Game::default();
    game.snake.x = 10;
    game.snake.y = 10;
    game.snake.direction = direction;
    game
}

#[test]
fn keys_map_to_unit_directions() {
    assert_eq!(Key::W.target_direction(), Some((0, -1)));
    assert_eq!(Key::Up.target_direction(), Some((0, -1)));
    assert_eq!(Key::A.target_direction(), Some((-1, 0)));
    assert_eq!(Key::Left.target_direction(), Some((-1, 0)));
    assert_eq!(Key::S.target_direction(), Some((0, 1)));
    assert_eq!(Key::Down.target_direction(), Some((0, 1)));
    assert_eq!(Key::D.target_direction(), Some((1, 0)));
    assert_eq!(Key::Right.target_direction(), Some((1, 0)));
    assert_eq!(Key::Other.target_direction(), None);
}

#[test]
fn reverse_of_the_current_direction_is_rejected() {
    let cases = [
        ((0, 1), Key::Up),
        ((0, 1), Key::W),
        ((0, -1), Key::Down),
        ((0, -1), Key::S),
        ((1, 0), Key::Left),
        ((1, 0), Key::A),
        ((-1, 0), Key::Right),
        ((-1, 0), Key::D),
    ];
    for (direction, key) in cases {
        let mut game = heading(direction);
        handle_input(&mut game, Some(key));
        assert_eq!(game.snake.input_direction, None);
        assert_eq!(game.snake.direction, direction);
    }
}

#[test]
fn every_other_direction_is_accepted() {
    for direction in [(0, 1), (0, -1), (1, 0), (-1, 0)] {
        for key in ALL_KEYS {
            let mut game = heading(direction);
            handle_input(&mut game, Some(key));
            let expected = match key.target_direction() {
                Some(d) if d != (-direction.0, -direction.1) => Some(d),
                _ => None,
            };
            assert_eq!(game.snake.input_direction, expected);
        }
    }
}

#[test]
fn the_current_direction_itself_is_accepted() {
    let mut game = heading((0, 1));
    handle_input(&mut game, Some(Key::Down));
    assert_eq!(game.snake.input_direction, Some((0, 1)));
}

#[test]
fn no_key_and_other_keys_change_nothing() {
    let mut game = heading((0, 1));
    handle_input(&mut game, None);
    assert_eq!(game.snake.input_direction, None);
    handle_input(&mut game, Some(Key::Other));
    assert_eq!(game.snake.input_direction, None);

    handle_input(&mut game, Some(Key::Left));
    handle_input(&mut game, None);
    assert_eq!(game.snake.input_direction, Some((-1, 0)));
    handle_input(&mut game, Some(Key::Other));
    assert_eq!(game.snake.input_direction, Some((-1, 0)));
}

#[test]
fn input_touches_only_the_pending_direction() {
    let mut game = Game::default();
    handle_input(&mut game, Some(Key::Right));
    assert_eq!(game.snake.input_direction, Some((1, 0)));
    assert_eq!(game.snake.direction, (0, 1));
    assert_eq!((game.snake.x, game.snake.y), (4, 4));
    assert_eq!(game.snake.tail.len(), 1);
    assert_eq!((game.snake.tail[0].x, game.snake.tail[0].y), (4, 3));
    assert_eq!((game.apple.x, game.apple.y), (1, 2));
    assert!(!game.game_over);
}

#[test]
fn a_rejected_key_keeps_what_was_pending() {
    let mut game = heading((0, 1));
    handle_input(&mut game, Some(Key::Left));
    // up is the reverse of the direction in effect, whatever is pending
    handle_input(&mut game, Some(Key::Up));
    assert_eq!(game.snake.input_direction, Some((-1, 0)));
}

#[test]
fn a_later_key_overwrites_the_pending_direction() {
    let mut game = heading((0, 1));
    handle_input(&mut game, Some(Key::Left));
    // right reverses the pending direction, not the one in effect
    handle_input(&mut game, Some(Key::Right));
    assert_eq!(game.snake.input_direction, Some((1, 0)));
    update_game(&mut game);
    assert_eq!(game.snake.direction, (1, 0));
    assert_eq!((game.snake.x, game.snake.y), (11, 10));
    assert_eq!(game.snake.input_direction, None);
}

#[test]
fn the_guard_follows_the_committed_direction() {
    let mut game = heading((0, 1));
    handle_input(&mut game, Some(Key::Left));
    update_game(&mut game);
    // now heading left: right is rejected, down is accepted again
    handle_input(&mut game, Some(Key::Right));
    assert_eq!(game.snake.input_direction, None);
    handle_input(&mut game, Some(Key::Down));
    assert_eq!(game.snake.input_direction, Some((0, 1)));
}
