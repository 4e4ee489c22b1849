use lab_world::input::{
    camera_offset, mouse_click_system, mouse_wheel_system, player_movement_system, round_div,
    snap, track_mouse_movement_system, CameraView, Keys, Mouse, MouseButton, MouseClickEvent,
    MoveAnimation, ScreenPoint, ScrollState, WheelMove,
};
use lab_world::location::{CardinalDirection, Location, Movement};
use lab_world::tile::Sprite;
use lab_world::timer::Timer;

fn at(x: i32, y: i32) -> ScreenPoint {
    ScreenPoint { x, y }
}

fn mouse_at_rest() -> Mouse {
    Mouse { position: at(1, 2), world_position: Location::world(1, 2, 0), ui_position: at(3, 4) }
}

fn camera(name: Option<&str>, x: i32, y: i32) -> CameraView {
    CameraView { name: name.map(|n| n.to_string()), x, y }
}

fn frames(prefix: &str, n: u32) -> Vec<Sprite> {
    (0..n).map(|i| Sprite { name: format!("{}{}", prefix, i), atlas_sprite: i }).collect()
}

fn walk() -> MoveAnimation {
    MoveAnimation {
        count: 0,
        up: frames("up", 3),
        down: frames("down", 2),
        left: frames("left", 4),
        right: frames("right", 1),
    }
}

fn keys(left: bool, right: bool, up: bool, down: bool) -> Keys {
    Keys { left, right, up, down }
}

#[test]
fn quotients_round_to_the_nearest_whole() {
    assert_eq!(round_div(0, 1000), 0);
    assert_eq!(round_div(499, 1000), 0);
    assert_eq!(round_div(500, 1000), 1);
    assert_eq!(round_div(1499, 1000), 1);
    assert_eq!(round_div(1500, 1000), 2);
    assert_eq!(round_div(-499, 1000), 0);
    assert_eq!(round_div(-500, 1000), -1);
    assert_eq!(round_div(-1500, 1000), -2);
    assert_eq!(round_div(7, 2), 4);
    assert_eq!(round_div(-7, 2), -4);
    assert_eq!(round_div(1, 3), 0);
    assert_eq!(round_div(2, 3), 1);
    assert_eq!(round_div(-2, 3), -1);
    assert_eq!(round_div(17, 1), 17);
}

#[test]
fn snap_takes_the_nearest_line_of_the_grid() {
    assert_eq!(snap(0, 48), 0);
    assert_eq!(snap(23, 48), 0);
    assert_eq!(snap(24, 48), 48);
    assert_eq!(snap(47, 48), 48);
    assert_eq!(snap(71, 48), 48);
    assert_eq!(snap(72, 48), 96);
    assert_eq!(snap(-23, 48), 0);
    assert_eq!(snap(-24, 48), -48);
    assert_eq!(snap(-100, 48), -96);
    assert_eq!(snap(5, 1), 5);
}

#[test]
fn last_camera_of_the_world_gives_the_offset() {
    assert_eq!(camera_offset(&Vec::new()), at(0, 0));
    let cameras = vec![
        camera(Some("Camera2d"), 10, 20),
        camera(Some("UiCamera"), 99, 99),
        camera(None, 30, 40),
        camera(Some("UiCamera"), 77, 77),
    ];
    assert_eq!(camera_offset(&cameras), at(30, 40));
    assert_eq!(camera_offset(&vec![camera(Some("UiCamera"), 5, 5)]), at(0, 0));
    assert_eq!(camera_offset(&vec![camera(Some("uicamera"), 5, 6)]), at(5, 6));
    assert_eq!(camera_offset(&vec![camera(Some(""), 7, 8)]), at(7, 8));
}

#[test]
fn mouse_is_followed_onto_the_grid() {
    let cameras = vec![camera(Some("Camera2d"), 100, -50)];
    let mut mouse = mouse_at_rest();
    let events = vec![at(0, 0), at(630, 410)];
    track_mouse_movement_system(&events, &cameras, 1280, 721, 48, &mut mouse);
    // x: 630 + 100 - 640 = 90, nearest line 96; y: 410 - 50 - 360 = 0.
    assert_eq!(mouse.position, at(96, 0));
    assert_eq!(mouse.world_position, Location::world(96, 0, 0));
    assert_eq!(mouse.ui_position, at(630, 410));
}

#[test]
fn mouse_left_of_the_middle_snaps_away_from_zero_on_a_half() {
    let mut mouse = mouse_at_rest();
    track_mouse_movement_system(&vec![at(76, 100)], &Vec::new(), 200, 200, 48, &mut mouse);
    // x: 76 - 100 = -24, a half cell: -48; y: 0.
    assert_eq!(mouse.position, at(-48, 0));
}

#[test]
fn mouse_stays_without_a_movement() {
    let mut mouse = mouse_at_rest();
    track_mouse_movement_system(&Vec::new(), &vec![camera(None, 5, 5)], 800, 600, 48, &mut mouse);
    assert_eq!(mouse, mouse_at_rest());
}

#[test]
fn left_button_goes_before_right_before_middle() {
    let mouse = mouse_at_rest();
    let click = |button| {
        Some(MouseClickEvent {
            timestamp: 1234,
            button,
            ui_position: at(3, 4),
            world_position: Location::world(1, 2, 0),
        })
    };
    assert_eq!(mouse_click_system(true, true, true, 1234, &mouse), click(MouseButton::Left));
    assert_eq!(mouse_click_system(true, false, false, 1234, &mouse), click(MouseButton::Left));
    assert_eq!(mouse_click_system(false, true, true, 1234, &mouse), click(MouseButton::Right));
    assert_eq!(mouse_click_system(false, false, true, 1234, &mouse), click(MouseButton::Middle));
    assert_eq!(mouse_click_system(false, false, false, 1234, &mouse), None);
}

#[test]
fn wheel_adds_up_in_whole_steps() {
    let mut scroll = ScrollState { x: 0, y: 2 };
    let mut timer = Timer { elapsed: 60, duration: 100, finished: false };
    let wheel = vec![WheelMove { x: 0, y: 1000 }, WheelMove { x: -400, y: 1500 }, WheelMove { x: -500, y: -200 }];
    mouse_wheel_system(40, &mut timer, &wheel, &mut scroll);
    // y: 2 + 1 = 3; 3 + 1.5 = 4.5 -> 5; 5 - 0.2 = 4.8 -> 5.
    // x: 0; -0.4 -> 0; -0.5 -> -1.
    assert_eq!(scroll, ScrollState { x: -1, y: 5 });
    assert_eq!(timer, Timer::new(100));
}

#[test]
fn wheel_without_turns_keeps_the_state_and_the_timer_finished() {
    let mut scroll = ScrollState { x: 3, y: -4 };
    let mut timer = Timer { elapsed: 60, duration: 100, finished: false };
    mouse_wheel_system(50, &mut timer, &Vec::new(), &mut scroll);
    assert_eq!(scroll, ScrollState { x: 3, y: -4 });
    assert_eq!(timer, Timer { elapsed: 100, duration: 100, finished: true });
}

#[test]
fn wheel_returns_to_zero_while_the_timer_runs() {
    let mut scroll = ScrollState { x: 3, y: -4 };
    let mut timer = Timer { elapsed: 60, duration: 100, finished: false };
    mouse_wheel_system(39, &mut timer, &vec![WheelMove { x: 1000, y: 1000 }], &mut scroll);
    assert_eq!(scroll, ScrollState { x: 0, y: 0 });
    assert_eq!(timer, Timer { elapsed: 99, duration: 100, finished: false });
}

#[test]
fn no_key_no_movement() {
    let mut position = Location::world(10, 10, 1);
    let before = Movement::at_rest(Location::world(0, 0, 0));
    let mut movement = before;
    let mut animation = walk();
    animation.count = 2;
    let mut timer = Timer { elapsed: 90, duration: 100, finished: false };
    let frame = player_movement_system(
        &keys(false, false, false, false),
        4,
        4,
        50,
        &mut timer,
        &mut position,
        &mut movement,
        &mut animation,
    );
    assert!(frame.is_none());
    assert_eq!(position, Location::world(10, 10, 1));
    assert_eq!(movement, before);
    assert_eq!(animation.count, 2);
    assert_eq!(timer, Timer { elapsed: 90, duration: 100, finished: false });
}

#[test]
fn keys_move_the_player_and_record_the_movement() {
    let cases = [
        (keys(true, false, false, false), CardinalDirection::West, (6, 10)),
        (keys(false, true, false, false), CardinalDirection::East, (14, 10)),
        (keys(false, false, true, false), CardinalDirection::North, (10, 13)),
        (keys(false, false, false, true), CardinalDirection::South, (10, 7)),
        (keys(true, false, true, false), CardinalDirection::North, (6, 13)),
        (keys(false, true, false, true), CardinalDirection::South, (14, 7)),
        (keys(true, true, false, false), CardinalDirection::East, (10, 10)),
        (keys(false, false, true, true), CardinalDirection::South, (10, 10)),
        (keys(true, true, true, true), CardinalDirection::South, (10, 10)),
    ];
    for (pressed, facing, to) in cases.iter() {
        let mut position = Location::world(10, 10, 1);
        let mut movement = Movement::at_rest(Location::world(0, 0, 0));
        let mut animation = walk();
        let mut timer = Timer::new(100);
        let frame = player_movement_system(
            pressed,
            4,
            3,
            16,
            &mut timer,
            &mut position,
            &mut movement,
            &mut animation,
        );
        assert!(frame.is_none());
        assert_eq!(timer, Timer { elapsed: 16, duration: 100, finished: false });
        assert_eq!(position, Location::world(to.0, to.1, 1));
        assert_eq!(
            movement,
            Movement { from: Location::world(10, 10, 1), to: position, direction: *facing }
        );
        assert_eq!(animation.count, 0);
    }
}

#[test]
fn walk_shows_the_next_frame_and_wraps() {
    let mut position = Location::world(0, 0, 0);
    let mut movement = Movement::at_rest(position);
    let mut animation = walk();
    let mut timer = Timer::new(100);
    let up = keys(false, false, true, false);
    let shown: Vec<u32> = (0..4)
        .map(|_| {
            player_movement_system(
                &up,
                1,
                1,
                100,
                &mut timer,
                &mut position,
                &mut movement,
                &mut animation,
            )
            .unwrap()
            .atlas_sprite
        })
        .collect();
    assert_eq!(shown, vec![1, 2, 0, 1]);
    assert_eq!(timer, Timer::new(100));
    assert_eq!(animation.count, 1);
    assert_eq!(position, Location::world(0, 4, 0));
    // The count carries over to the frames of another direction.
    let frame = player_movement_system(
        &keys(false, false, false, true),
        1,
        1,
        250,
        &mut timer,
        &mut position,
        &mut movement,
        &mut animation,
    )
    .unwrap();
    assert_eq!(frame.name, "down0");
    assert_eq!(animation.count, 0);
    let frame = player_movement_system(
        &keys(false, true, false, false),
        1,
        1,
        100,
        &mut timer,
        &mut position,
        &mut movement,
        &mut animation,
    )
    .unwrap();
    assert_eq!(frame.name, "right0");
    assert_eq!(animation.count, 0);
    assert_eq!(animation.up.len(), 3);
    assert_eq!(animation.left.len(), 4);
}

#[test]
fn walk_waits_for_its_timer() {
    let mut position = Location::world(0, 0, 0);
    let mut movement = Movement::at_rest(position);
    let mut animation = walk();
    let mut timer = Timer::new(100);
    let right = keys(false, true, false, false);
    let mut shown = Vec::new();
    for _ in 0..5 {
        let frame = player_movement_system(
            &right,
            2,
            2,
            40,
            &mut timer,
            &mut position,
            &mut movement,
            &mut animation,
        );
        shown.push(frame.map(|f| f.name));
    }
    assert_eq!(shown, vec![None, None, Some("right0".to_string()), None, None]);
    assert_eq!(position, Location::world(10, 0, 0));
    assert_eq!(timer, Timer { elapsed: 80, duration: 100, finished: false });
}
