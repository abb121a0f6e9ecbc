use sprite_walker::{
    handle_event_app, handle_event_player, player_command, Blit, Direction, Entity, Event, Key,
    Player, PlayerState, Point, Region,
};

const KEYS: [Key; 8] = [
    Key::Left,
    Key::Right,
    Key::Up,
    Key::Down,
    Key::KpPlus,
    Key::KpMinus,
    Key::Escape,
    Key::Other,
];

#[test]
fn closing_the_window_quits() {
    let mut quit = false;
    handle_event_app(Event::Quit, &mut quit);
    assert!(quit);
}

#[test]
fn pressing_escape_quits() {
    let mut quit = false;
    handle_event_app(Event::KeyDown(Key::Escape), &mut quit);
    assert!(quit);
}

#[test]
fn releasing_escape_does_not_quit() {
    let mut quit = false;
    handle_event_app(Event::KeyUp(Key::Escape), &mut quit);
    assert!(!quit);
}

#[test]
fn other_events_do_not_quit() {
    for key in KEYS {
        if key != Key::Escape {
            let mut quit = false;
            handle_event_app(Event::KeyDown(key), &mut quit);
            assert!(!quit);
        }
        let mut quit = false;
        handle_event_app(Event::KeyUp(key), &mut quit);
        assert!(!quit);
    }
    let mut quit = false;
    handle_event_app(Event::Other, &mut quit);
    assert!(!quit);
}

#[test]
fn quit_once_set_stays_set() {
    let mut quit = true;
    handle_event_app(Event::Other, &mut quit);
    assert!(quit);
    handle_event_app(Event::KeyDown(Key::Left), &mut quit);
    assert!(quit);
    handle_event_app(Event::Quit, &mut quit);
    assert!(quit);
}

#[test]
fn arrow_keys_pressed_walk() {
    assert_eq!(
        player_command(Event::KeyDown(Key::Left)),
        Some(PlayerState::Walk(Direction::Left))
    );
    assert_eq!(
        player_command(Event::KeyDown(Key::Right)),
        Some(PlayerState::Walk(Direction::Right))
    );
    assert_eq!(player_command(Event::KeyDown(Key::Up)), Some(PlayerState::Walk(Direction::Up)));
    assert_eq!(
        player_command(Event::KeyDown(Key::Down)),
        Some(PlayerState::Walk(Direction::Down))
    );
}

#[test]
fn arrow_keys_released_stop() {
    assert_eq!(player_command(Event::KeyUp(Key::Left)), Some(PlayerState::Stop(Direction::Left)));
    assert_eq!(
        player_command(Event::KeyUp(Key::Right)),
        Some(PlayerState::Stop(Direction::Right))
    );
    assert_eq!(player_command(Event::KeyUp(Key::Up)), Some(PlayerState::Stop(Direction::Up)));
    assert_eq!(player_command(Event::KeyUp(Key::Down)), Some(PlayerState::Stop(Direction::Down)));
}

#[test]
fn keypad_plus_and_minus_scale() {
    assert_eq!(player_command(Event::KeyDown(Key::KpPlus)), Some(PlayerState::ScaleUp));
    assert_eq!(player_command(Event::KeyDown(Key::KpMinus)), Some(PlayerState::ScaleDown));
}

#[test]
fn nothing_else_commands_the_player() {
    assert_eq!(player_command(Event::KeyUp(Key::KpPlus)), None);
    assert_eq!(player_command(Event::KeyUp(Key::KpMinus)), None);
    assert_eq!(player_command(Event::KeyDown(Key::Escape)), None);
    assert_eq!(player_command(Event::KeyUp(Key::Escape)), None);
    assert_eq!(player_command(Event::KeyDown(Key::Other)), None);
    assert_eq!(player_command(Event::KeyUp(Key::Other)), None);
    assert_eq!(player_command(Event::Quit), None);
    assert_eq!(player_command(Event::Other), None);
}

#[test]
fn events_that_quit_do_not_command_the_player() {
    let mut events = vec![Event::Quit, Event::Other];
    for key in KEYS {
        events.push(Event::KeyDown(key));
        events.push(Event::KeyUp(key));
    }
    let mut quitting = 0;
    for event in events {
        let mut quit = false;
        handle_event_app(event, &mut quit);
        if quit {
            quitting += 1;
            assert_eq!(player_command(event), None);
        }
    }
    assert_eq!(quitting, 2);
}

#[test]
fn right_arrow_walks_the_player_right() {
    let mut player = Player::new(Point { x: 0, y: 0 }, 0);
    handle_event_player(Event::KeyDown(Key::Right), 16, &mut player);
    assert_eq!(player.position(), Point { x: 2, y: 0 });
    assert_eq!(player.state(), PlayerState::Walk(Direction::Right));
    handle_event_player(Event::KeyDown(Key::Right), 32, &mut player);
    assert_eq!(player.position(), Point { x: 4, y: 0 });
    handle_event_player(Event::KeyUp(Key::Right), 48, &mut player);
    assert_eq!(player.position(), Point { x: 4, y: 0 });
    assert_eq!(player.state(), PlayerState::Stop(Direction::Right));
}

#[test]
fn keypad_scales_the_player() {
    let mut player = Player::new(Point { x: 0, y: 0 }, 0);
    handle_event_player(Event::KeyDown(Key::KpPlus), 1, &mut player);
    assert_eq!((player.width(), player.height()), (37, 37));
    handle_event_player(Event::KeyDown(Key::KpMinus), 2, &mut player);
    handle_event_player(Event::KeyDown(Key::KpMinus), 3, &mut player);
    assert_eq!((player.width(), player.height()), (27, 27));
    assert_eq!(player.state(), PlayerState::ScaleDown);
}

#[test]
fn other_events_leave_the_player_alone() {
    let mut player = Player::new(Point { x: 3, y: 4 }, 100);
    handle_event_player(Event::KeyDown(Key::Left), 350, &mut player);
    let events = [
        Event::Quit,
        Event::Other,
        Event::KeyDown(Key::Escape),
        Event::KeyDown(Key::Other),
        Event::KeyUp(Key::KpPlus),
        Event::KeyUp(Key::KpMinus),
        Event::KeyUp(Key::Escape),
        Event::KeyUp(Key::Other),
    ];
    for event in events {
        handle_event_player(event, 9000, &mut player);
        assert_eq!(player.position(), Point { x: 1, y: 4 });
        assert_eq!(player.width(), 32);
        assert_eq!(player.height(), 32);
        assert_eq!(player.state(), PlayerState::Walk(Direction::Left));
        assert_eq!(player.sprite_state(), 1);
        assert_eq!(player.sprite_frame_start(), 350);
    }
}

#[test]
fn events_before_the_frame_start_are_refused_by_the_check() {
    let player = Player::new(Point { x: 0, y: 0 }, 100);
    let command = player_command(Event::KeyDown(Key::Up));
    assert_eq!(command, Some(PlayerState::Walk(Direction::Up)));
    assert!(!player.can_update(99, PlayerState::Walk(Direction::Up)));
    assert!(player.can_update(100, PlayerState::Walk(Direction::Up)));
}

struct Recorder {
    calls: Vec<(u32, PlayerState)>,
}

impl Entity<PlayerState> for Recorder {
    fn draw(&self) -> Blit {
        let empty = Region { x: 0, y: 0, width: 0, height: 0 };
        Blit { source: empty, target: empty }
    }

    fn update(&mut self, ticks: u32, state: PlayerState) {
        self.calls.push((ticks, state));
    }
}

#[test]
fn any_entity_gets_the_command_and_the_time() {
    let mut recorder = Recorder { calls: Vec::new() };
    handle_event_player(Event::KeyDown(Key::Down), 5, &mut recorder);
    handle_event_player(Event::Other, 6, &mut recorder);
    handle_event_player(Event::KeyUp(Key::Down), 7, &mut recorder);
    handle_event_player(Event::KeyUp(Key::KpPlus), 8, &mut recorder);
    handle_event_player(Event::KeyDown(Key::KpPlus), 9, &mut recorder);
    assert_eq!(
        recorder.calls,
        vec![
            (5, PlayerState::Walk(Direction::Down)),
            (7, PlayerState::Stop(Direction::Down)),
            (9, PlayerState::ScaleUp),
        ]
    );
}
