use terrain_camera::camera::{
    CameraController, CameraMode, Command, FreeFly, Pose, BASE_SPEED, MAX_ZOOM, SPRINT_FACTOR,
};
use terrain_camera::fixed::{
    Direction, Frame, Heading, FULL_TURN, HEADING_UNIT, MICROS_PER_SECOND, QUARTER_TURN,
};

fn orbiting() -> CameraController {
    CameraController {
        focus_x: 0,
        focus_y: 0,
        focus_z: 0,
        orbit: 0,
        zoom: 50_000,
        sensitivity: 412_530,
        speed: BASE_SPEED,
    }
}

fn flying() -> FreeFly {
    FreeFly {
        x: 77_000,
        y: 100_000,
        z: 77_000,
        yaw: 162_000_000,
        pitch: -162_000_000,
        sensitivity: 412_530,
        speed: BASE_SPEED,
        velocity_x: 0,
        velocity_y: 0,
        cursor_locked: false,
    }
}

/// A sixtieth of a second, facing along a 3-4-5 triangle.
fn frame() -> Frame {
    Frame { micros: 16_667, heading: Heading { sin: 600_000, cos: 800_000 } }
}

#[test]
fn units_of_the_bounds() {
    assert_eq!(FULL_TURN, 360 * 3600 * 1000);
    assert_eq!(QUARTER_TURN * 4, FULL_TURN);
    assert_eq!(MAX_ZOOM, 100 * 1000);
    assert_eq!(HEADING_UNIT, 1_000_000);
    assert_eq!(MICROS_PER_SECOND, 1_000_000);
}

#[test]
fn zoom_in_adds_and_stops_at_the_far_end() {
    let mut camera = orbiting();
    camera.zoom_in(10_000);
    assert_eq!(camera.zoom, 60_000);
    camera.zoom_in(60_000);
    assert_eq!(camera.zoom, MAX_ZOOM);
    camera.zoom_in(i64::MAX);
    assert_eq!(camera.zoom, MAX_ZOOM);
    camera.zoom_in(-250_000);
    assert_eq!(camera.zoom, 0);
    assert_eq!(CameraController { zoom: 50_000, ..camera }, orbiting());
}

#[test]
fn zoom_out_subtracts_and_stops_at_the_focus() {
    let mut camera = orbiting();
    camera.zoom_out(10_000);
    assert_eq!(camera.zoom, 40_000);
    camera.zoom_out(40_001);
    assert_eq!(camera.zoom, 0);
    camera.zoom_out(i64::MAX);
    assert_eq!(camera.zoom, 0);
    camera.zoom_out(i64::MIN);
    assert_eq!(camera.zoom, MAX_ZOOM);
    assert_eq!(CameraController { zoom: 50_000, ..camera }, orbiting());
}

#[test]
fn zoom_stays_in_range_in_any_order() {
    let mut camera = orbiting();
    let amounts = [3, -7, 1_000_000, i64::MIN, 99_999, i64::MAX, 0, -1, 100_001, 12_345];
    for (n, amount) in amounts.iter().enumerate() {
        if n % 3 == 0 {
            camera.zoom_out(*amount);
        } else {
            camera.zoom_in(*amount);
        }
        assert!(0 <= camera.zoom && camera.zoom <= MAX_ZOOM);
    }
}

#[test]
fn zoom_recovers_from_a_distance_out_of_range() {
    let mut camera = CameraController { zoom: i64::MAX, ..orbiting() };
    camera.zoom_in(i64::MAX);
    assert_eq!(camera.zoom, MAX_ZOOM);
    let mut camera = CameraController { zoom: i64::MIN, ..orbiting() };
    camera.zoom_out(i64::MAX);
    assert_eq!(camera.zoom, 0);
}

#[test]
fn orbit_adds_the_scaled_travel_and_wraps() {
    let mut camera = CameraController { orbit: 1_295_999_000, sensitivity: 1000, ..orbiting() };
    camera.rotate_x(2);
    assert_eq!(camera.orbit, 1000);
    camera.rotate_x(-1);
    assert_eq!(camera.orbit, 0);
    camera.rotate_x(-1);
    assert_eq!(camera.orbit, FULL_TURN - 1000);
    camera.rotate_x(0);
    assert_eq!(camera.orbit, FULL_TURN - 1000);
    assert_eq!(CameraController { orbit: 1_295_999_000, ..camera }, CameraController {
        orbit: 1_295_999_000,
        sensitivity: 1000,
        ..orbiting()
    });
}

#[test]
fn orbit_wraps_the_largest_travel() {
    let mut camera = CameraController { orbit: 0, sensitivity: i64::MAX, ..orbiting() };
    camera.rotate_x(i64::MAX);
    assert_eq!(camera.orbit, 712_501_249);
    let mut camera = CameraController { orbit: 5, sensitivity: i64::MAX, ..orbiting() };
    camera.rotate_x(i64::MIN);
    assert_eq!(camera.orbit, 384_722_949);
    let mut camera = CameraController { orbit: i64::MIN, sensitivity: 0, ..orbiting() };
    camera.rotate_x(12);
    assert_eq!(camera.orbit, 1_097_224_192);
}

#[test]
fn rotate_turns_against_the_pointer() {
    let mut camera = FreeFly { yaw: 100, pitch: 50, sensitivity: 2500, ..flying() };
    camera.rotate(7, -3);
    assert_eq!(camera.yaw, 1_295_982_600);
    assert_eq!(camera.pitch, 7550);
    assert_eq!(FreeFly { yaw: 100, pitch: 50, ..camera }, FreeFly {
        yaw: 100,
        pitch: 50,
        sensitivity: 2500,
        ..flying()
    });
}

#[test]
fn pitch_stops_at_a_quarter_turn() {
    let mut camera = FreeFly { pitch: 0, sensitivity: 1_000_000, ..flying() };
    camera.rotate(0, -323);
    assert_eq!(camera.pitch, 323_000_000);
    camera.rotate(0, -1);
    assert_eq!(camera.pitch, QUARTER_TURN);
    camera.rotate(0, -1);
    assert_eq!(camera.pitch, QUARTER_TURN);
    camera.rotate(0, 700);
    assert_eq!(camera.pitch, -QUARTER_TURN);
    camera.rotate(0, i64::MAX);
    assert_eq!(camera.pitch, -QUARTER_TURN);
    camera.rotate(0, i64::MIN);
    assert_eq!(camera.pitch, QUARTER_TURN);
}

#[test]
fn rotations_keep_yaw_and_pitch_in_range() {
    let mut camera = FreeFly { sensitivity: i64::MAX, ..flying() };
    let travels = [(1, 1), (i64::MAX, i64::MIN), (-5, 0), (i64::MIN, i64::MAX), (0, -1), (123_456_789, 987)];
    for (dx, dy) in travels {
        camera.rotate(dx, dy);
        assert!(0 <= camera.yaw && camera.yaw < FULL_TURN);
        assert!(-QUARTER_TURN <= camera.pitch && camera.pitch <= QUARTER_TURN);
    }
    let mut camera = FreeFly { yaw: i64::MIN, pitch: i64::MAX, ..flying() };
    camera.rotate(0, 0);
    assert_eq!(camera.yaw, 1_097_224_192);
    assert_eq!(camera.pitch, QUARTER_TURN);
}

#[test]
fn focus_moves_relative_to_the_facing() {
    // 50 units a second for 16 667 microseconds: 833 thousandths, of which
    // 499 fall along the sine and 666 along the cosine.
    let mut camera = orbiting();
    camera.forward(frame());
    assert_eq!((camera.focus_x, camera.focus_y, camera.focus_z), (-499, 0, -666));
    camera.back(frame());
    assert_eq!(camera, orbiting());
    camera.left(frame());
    assert_eq!((camera.focus_x, camera.focus_y, camera.focus_z), (-666, 0, 499));
    camera.right(frame());
    assert_eq!(camera, orbiting());
    camera.right(frame());
    assert_eq!((camera.focus_x, camera.focus_y, camera.focus_z), (666, 0, -499));
    camera.back(frame());
    assert_eq!((camera.focus_x, camera.focus_y, camera.focus_z), (1165, 0, 167));
}

#[test]
fn a_whole_second_straight_ahead_covers_the_speed() {
    let ahead = Frame { micros: 1_000_000, heading: Heading { sin: 0, cos: HEADING_UNIT } };
    let mut camera = orbiting();
    camera.forward(ahead);
    assert_eq!((camera.focus_x, camera.focus_z), (0, -50_000));
    camera.set_sprint(true);
    camera.forward(ahead);
    assert_eq!((camera.focus_x, camera.focus_z), (0, -150_000));
    camera.left(ahead);
    assert_eq!((camera.focus_x, camera.focus_z), (-100_000, -150_000));
}

#[test]
fn parts_of_a_step_round_towards_zero() {
    let turned = Frame { micros: 16_667, heading: Heading { sin: -600_000, cos: -800_000 } };
    let mut camera = orbiting();
    camera.forward(turned);
    assert_eq!((camera.focus_x, camera.focus_z), (499, 666));
    let mut camera = CameraController { speed: -50_000, ..orbiting() };
    camera.forward(frame());
    assert_eq!((camera.focus_x, camera.focus_z), (499, 666));
    let mut camera = CameraController { speed: 59, ..orbiting() };
    camera.back(Frame { micros: 16_949, heading: Heading { sin: HEADING_UNIT, cos: 999_999 } });
    assert_eq!((camera.focus_x, camera.focus_z), (0, 0));
    camera.back(Frame { micros: 16_950, heading: Heading { sin: HEADING_UNIT, cos: 999_999 } });
    assert_eq!((camera.focus_x, camera.focus_z), (1, 0));
}

#[test]
fn flying_camera_moves_relative_to_the_facing() {
    let mut camera = flying();
    camera.move_forward(frame());
    assert_eq!((camera.x, camera.y, camera.z), (76_501, 100_000, 76_334));
    camera.move_back(frame());
    assert_eq!(camera, flying());
    camera.move_left(frame());
    assert_eq!((camera.x, camera.y, camera.z), (76_334, 100_000, 77_499));
    camera.move_right(frame());
    assert_eq!(camera, flying());
    camera.move_up(16_667);
    assert_eq!((camera.x, camera.y, camera.z), (77_000, 100_833, 77_000));
    camera.move_down(2_000_000);
    assert_eq!((camera.x, camera.y, camera.z), (77_000, 833, 77_000));
    assert_eq!(camera.yaw, flying().yaw);
    assert_eq!(camera.pitch, flying().pitch);
}

#[test]
fn sprint_doubles_the_walking_speed() {
    assert_eq!(BASE_SPEED, 50_000);
    assert_eq!(SPRINT_FACTOR, 2);
    let mut camera = orbiting();
    camera.set_sprint(true);
    assert_eq!(camera.speed, 100_000);
    camera.set_sprint(false);
    assert_eq!(camera.speed, 50_000);
    let mut camera = flying();
    camera.set_sprint(true);
    assert_eq!(camera.speed, 100_000);
    camera.set_sprint(false);
    assert_eq!(camera, flying());
}

#[test]
fn look_turns_only_while_held() {
    let mut camera = FreeFly { yaw: 0, pitch: 0, sensitivity: 10, velocity_x: 11, velocity_y: -11, ..flying() };
    camera.look(true, 3, 4);
    assert!(camera.cursor_locked);
    assert_eq!((camera.yaw, camera.pitch), (FULL_TURN - 30, -40));
    assert_eq!((camera.velocity_x, camera.velocity_y), (11, -11));
    camera.look(false, 3, 4);
    assert!(!camera.cursor_locked);
    assert_eq!((camera.yaw, camera.pitch), (FULL_TURN - 30, -40));
    assert_eq!((camera.velocity_x, camera.velocity_y), (2, -2));
    camera.look(false, 0, 0);
    assert_eq!((camera.velocity_x, camera.velocity_y), (0, 0));
}

#[test]
fn released_look_leaves_a_fifth_of_the_turning_speed() {
    let mut camera = FreeFly { velocity_x: i64::MAX, velocity_y: i64::MIN, ..flying() };
    camera.look(false, 9, 9);
    assert_eq!(camera.velocity_x, 1_844_674_407_370_955_161);
    assert_eq!(camera.velocity_y, -1_844_674_407_370_955_161);
    let mut camera = FreeFly { velocity_x: 4, velocity_y: -5, ..flying() };
    camera.look(false, 0, 0);
    assert_eq!((camera.velocity_x, camera.velocity_y), (0, -1));
}

#[test]
fn commands_reach_the_flying_camera() {
    let mut mode = CameraMode::FreeFly(FreeFly { sensitivity: 10, ..flying() });
    let commands = [
        Command::MoveForward(frame()),
        Command::MoveLeft(frame()),
        Command::MoveUp(frame()),
        Command::Rotate(1, 1),
        Command::ZoomIn(10_000),
        Command::ZoomOut(10_000),
        Command::MoveDown(frame()),
        Command::MoveDown(frame()),
        Command::MoveRight(frame()),
        Command::MoveBack(frame()),
        Command::SetSprint(true),
    ];
    for command in commands {
        assert!(mode.can_apply(command));
        mode.apply_command(command);
    }
    assert_eq!(
        mode,
        CameraMode::FreeFly(FreeFly {
            y: 99_167,
            yaw: 161_999_990,
            pitch: -162_000_010,
            sensitivity: 10,
            speed: 100_000,
            ..flying()
        })
    );
}

#[test]
fn commands_reach_the_orbiting_camera() {
    let mut mode = CameraMode::Orbit(CameraController { sensitivity: 10, ..orbiting() });
    let commands = [
        Command::MoveForward(frame()),
        Command::MoveForward(frame()),
        Command::MoveLeft(frame()),
        Command::MoveUp(frame()),
        Command::MoveDown(frame()),
        Command::Rotate(-1, 77),
        Command::ZoomIn(70_000),
        Command::ZoomOut(1),
        Command::MoveRight(frame()),
        Command::MoveBack(frame()),
        Command::SetSprint(true),
    ];
    for command in commands {
        assert!(mode.can_apply(command));
        mode.apply_command(command);
    }
    assert_eq!(
        mode,
        CameraMode::Orbit(CameraController {
            focus_x: -499,
            focus_y: 0,
            focus_z: -666,
            orbit: FULL_TURN - 10,
            zoom: 99_999,
            sensitivity: 10,
            speed: 100_000,
        })
    );
}

#[test]
fn a_move_out_of_the_coordinates_is_not_accepted() {
    let east = Frame { micros: 1_000_000, heading: Heading { sin: HEADING_UNIT, cos: 0 } };
    let mode = CameraMode::FreeFly(FreeFly { x: i64::MAX - 49_999, y: i64::MIN, ..flying() });
    assert!(!mode.can_apply(Command::MoveBack(east)));
    assert!(mode.can_apply(Command::MoveForward(east)));
    assert!(!mode.can_apply(Command::MoveDown(east)));
    assert!(mode.can_apply(Command::MoveUp(east)));
    assert!(mode.can_apply(Command::MoveLeft(east)));
    assert!(mode.can_apply(Command::Rotate(i64::MAX, i64::MIN)));
    let mode = CameraMode::FreeFly(FreeFly { x: i64::MAX - 50_000, ..flying() });
    assert!(mode.can_apply(Command::MoveBack(east)));
    let mode = CameraMode::Orbit(CameraController { focus_z: i64::MIN, ..orbiting() });
    assert!(!mode.can_apply(Command::MoveRight(east)));
    assert!(mode.can_apply(Command::MoveLeft(east)));
    assert!(mode.can_apply(Command::MoveDown(east)));
    assert!(mode.can_apply(Command::ZoomIn(i64::MAX)));
    let north = Frame { micros: 1_000_000, heading: Heading { sin: 0, cos: HEADING_UNIT } };
    assert!(!mode.can_apply(Command::MoveForward(north)));
    assert!(mode.can_apply(Command::MoveBack(north)));
}

#[test]
fn the_largest_frame_is_told_apart_without_overflow() {
    let huge = Frame { micros: u32::MAX, heading: Heading { sin: i32::MAX, cos: i32::MIN } };
    let camera = FreeFly { speed: i64::MAX, ..flying() };
    for direction in [Direction::Forward, Direction::Back, Direction::Left, Direction::Right] {
        assert!(!camera.can_step(direction, huge));
    }
    assert!(!camera.can_rise(true, u32::MAX));
    assert!(!camera.can_rise(false, u32::MAX));
    let camera = CameraController { speed: i64::MIN, ..orbiting() };
    for direction in [Direction::Forward, Direction::Back, Direction::Left, Direction::Right] {
        assert!(!camera.can_step(direction, huge));
    }
    let still = CameraController { speed: 0, focus_x: i64::MAX, focus_z: i64::MIN, ..orbiting() };
    for direction in [Direction::Forward, Direction::Back, Direction::Left, Direction::Right] {
        assert!(still.can_step(direction, huge));
    }
    let camera = CameraController { zoom: i64::MIN, ..orbiting() };
    assert_eq!(camera.update_transform(huge.heading), None);
}

#[test]
fn flying_pose_is_the_position_and_the_two_angles() {
    let expected = Pose::Facing { x: 77_000, y: 100_000, z: 77_000, yaw: 162_000_000, pitch: -162_000_000 };
    assert_eq!(flying().derive_transform(), expected);
    let mode = CameraMode::FreeFly(flying());
    assert_eq!(mode.derive_transform(Heading { sin: 9, cos: 9 }), Some(expected));
}

#[test]
fn orbiting_pose_stands_behind_and_above_the_focus() {
    let camera = CameraController { focus_x: 1_000, focus_y: 20, focus_z: -3_000, ..orbiting() };
    let expected = Pose::LookingAt {
        x: -29_000,
        y: 50_020,
        z: -43_000,
        target_x: 1_000,
        target_y: 20,
        target_z: -3_000,
    };
    assert_eq!(camera.update_transform(frame().heading), Some(expected));
    assert_eq!(CameraMode::Orbit(camera).derive_transform(frame().heading), Some(expected));
    let at_start = orbiting().update_transform(Heading { sin: 0, cos: HEADING_UNIT });
    assert_eq!(
        at_start,
        Some(Pose::LookingAt { x: 0, y: 50_000, z: -50_000, target_x: 0, target_y: 0, target_z: 0 })
    );
}

#[test]
fn orbiting_pose_out_of_the_coordinates_is_none() {
    let heading = frame().heading;
    let mode = CameraMode::Orbit(CameraController { focus_x: i64::MIN, ..orbiting() });
    assert_eq!(mode.derive_transform(heading), None);
    let mode = CameraMode::Orbit(CameraController { focus_y: i64::MAX, ..orbiting() });
    assert_eq!(mode.derive_transform(heading), None);
    let mode = CameraMode::Orbit(CameraController { focus_z: i64::MIN, ..orbiting() });
    assert_eq!(mode.derive_transform(heading), None);
    let mode = CameraMode::Orbit(CameraController { focus_y: i64::MAX - 50_000, ..orbiting() });
    assert!(mode.derive_transform(heading).is_some());
}

#[test]
fn look_turns_a_flying_camera_and_swings_an_orbiting_one() {
    let mut mode = CameraMode::FreeFly(FreeFly { yaw: 0, pitch: 0, sensitivity: 10, velocity_x: 25, ..flying() });
    assert_eq!(mode.heading_angle(), 0);
    mode.look(true, 3, 4);
    assert_eq!(
        mode,
        CameraMode::FreeFly(FreeFly {
            yaw: FULL_TURN - 30,
            pitch: -40,
            sensitivity: 10,
            velocity_x: 25,
            cursor_locked: true,
            ..flying()
        })
    );
    assert_eq!(mode.heading_angle(), FULL_TURN - 30);
    mode.look(false, 3, 4);
    assert_eq!(
        mode,
        CameraMode::FreeFly(FreeFly {
            yaw: FULL_TURN - 30,
            pitch: -40,
            sensitivity: 10,
            velocity_x: 5,
            cursor_locked: false,
            ..flying()
        })
    );

    let mut mode = CameraMode::Orbit(CameraController { sensitivity: 10, ..orbiting() });
    mode.look(true, 3, 4);
    assert_eq!(mode, CameraMode::Orbit(CameraController { orbit: 30, sensitivity: 10, ..orbiting() }));
    assert_eq!(mode.heading_angle(), 30);
    mode.look(false, 3, 4);
    assert_eq!(mode, CameraMode::Orbit(CameraController { orbit: 30, sensitivity: 10, ..orbiting() }));
}
