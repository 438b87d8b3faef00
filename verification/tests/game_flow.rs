use snake::board::Direction;
use snake::board::Point;
use snake::food::generate_food;
use snake::game::EndReason;
use snake::game::GameState;
use snake::game::InputEvent;
use snake::game::Phase;
use snake::game::speed_up;

fn p(x: u16, y: u16) -> Point {
    Point { x, y }
}

#[test]
fn food_lands_on_the_only_free_cell() {
    let body = vec![p(0, 0)];
    let food = generate_food(&1, &2, &body);
    assert_eq!(food, Some(p(0, 1)));
}

#[test]
fn no_food_on_a_full_board() {
    let body = vec![p(0, 0), p(0, 1), p(1, 0), p(1, 1)];
    let food = generate_food(&2, &2, &body);
    assert_eq!(food, None);
}

#[test]
fn food_never_on_the_snake() {
    let body = vec![p(0, 0), p(1, 0), p(2, 0), p(3, 0), p(4, 0)];
    for _ in 0..100 {
        let food = generate_food(&5, &5, &body).unwrap();
        assert!(!body.contains(&food));
        assert!(food.x < 5 && food.y < 5);
    }
}

#[test]
fn speed_up_steps_down_to_the_floor() {
    assert_eq!(speed_up(500), 480);
    assert_eq!(speed_up(80), 60);
    assert_eq!(speed_up(70), 50);
    assert_eq!(speed_up(60), 50);
    assert_eq!(speed_up(50), 50);
}

#[test]
fn tick_duration_never_below_floor() {
    let mut t: u64 = 500;
    for _ in 0..1000 {
        t = speed_up(t);
        assert!(t >= 50);
    }
    assert_eq!(t, 50);
}

#[test]
fn first_arrow_key_starts_play_at_centre() {
    let mut g = GameState::new(10, 10);
    assert_eq!(g.phase, Phase::AwaitingFirstInput);
    g.on_input(InputEvent::Arrow(Direction::Right));
    assert_eq!(g.phase, Phase::Playing);
    let s = g.snake.as_ref().unwrap();
    assert_eq!(s.body, vec![p(5, 5)]);
    assert!(matches!(s.direction, Direction::Right));
    assert_eq!(g.tick_ms, 500);
    assert_eq!(g.food, None);
}

#[test]
fn quit_terminates_from_any_live_phase() {
    let mut g = GameState::new(10, 10);
    g.on_input(InputEvent::Quit);
    assert_eq!(g.phase, Phase::Terminated(EndReason::Quit));

    let mut g2 = GameState::new(10, 10);
    g2.on_input(InputEvent::Arrow(Direction::Up));
    g2.on_input(InputEvent::Quit);
    assert_eq!(g2.phase, Phase::Terminated(EndReason::Quit));
}

#[test]
fn eating_grows_replaces_food_and_speeds_up() {
    let mut g = GameState::new(10, 10);
    g.on_input(InputEvent::Arrow(Direction::Right));
    g.food = Some(p(6, 5));
    g.on_tick();
    assert_eq!(g.phase, Phase::Playing);
    let s = g.snake.as_ref().unwrap();
    assert_eq!(s.body, vec![p(6, 5), p(5, 5)]);
    let f = g.food.unwrap();
    assert_ne!(f, p(5, 5));
    assert_ne!(f, p(6, 5));
    assert!(f.x < 10 && f.y < 10);
    assert_eq!(g.tick_ms, 480);
}

#[test]
fn plain_move_keeps_food_and_tick() {
    let mut g = GameState::new(10, 10);
    g.on_input(InputEvent::Arrow(Direction::Up));
    g.food = Some(p(0, 0));
    g.on_tick();
    assert_eq!(g.phase, Phase::Playing);
    assert_eq!(g.snake.as_ref().unwrap().body, vec![p(5, 4)]);
    assert_eq!(g.food, Some(p(0, 0)));
    assert_eq!(g.tick_ms, 500);
}

#[test]
fn missing_food_is_placed_on_a_plain_move() {
    let mut g = GameState::new(10, 10);
    g.on_input(InputEvent::Arrow(Direction::Down));
    assert_eq!(g.food, None);
    g.on_tick();
    let s = g.snake.as_ref().unwrap();
    let f = g.food.unwrap();
    assert!(!s.body.contains(&f));
    assert!(f.x < 10 && f.y < 10);
    assert_eq!(g.tick_ms, 500);
}

#[test]
fn self_collision_terminates_the_game() {
    let mut g = GameState::new(10, 10);
    g.on_input(InputEvent::Arrow(Direction::Right));
    let s = g.snake.as_mut().unwrap();
    s.body = vec![p(5, 5), p(6, 5), p(6, 6), p(5, 6)];
    let before = s.body.clone();
    g.on_tick();
    assert_eq!(g.phase, Phase::Terminated(EndReason::HitSelf));
    assert_eq!(g.snake.as_ref().unwrap().body, before);
    assert_eq!(g.tick_ms, 500);
}

#[test]
fn events_after_termination_change_nothing() {
    let mut g = GameState::new(10, 10);
    g.on_input(InputEvent::Quit);
    g.on_input(InputEvent::Arrow(Direction::Left));
    assert_eq!(g.phase, Phase::Terminated(EndReason::Quit));
    assert!(g.snake.is_none());
    g.on_tick();
    assert_eq!(g.phase, Phase::Terminated(EndReason::Quit));
}

#[test]
fn rejected_reversal_keeps_the_snake_moving_right() {
    let mut g = GameState::new(12, 12);
    g.on_input(InputEvent::Arrow(Direction::Right));
    let s = g.snake.as_mut().unwrap();
    s.body = vec![p(5, 5), p(4, 5), p(3, 5)];
    g.on_input(InputEvent::Arrow(Direction::Left));
    assert!(matches!(g.snake.as_ref().unwrap().direction, Direction::Right));
    g.food = Some(p(0, 0));
    g.on_tick();
    let s = g.snake.as_ref().unwrap();
    assert_eq!(s.body, vec![p(6, 5), p(5, 5), p(4, 5)]);
    assert_eq!(g.phase, Phase::Playing);
}
