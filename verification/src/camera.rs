//! Camera navigation: the state of a free-flying and of an orbiting camera,
//! and the commands that move, turn and zoom them.
//!
//! The state is kept in the units of `fixed`. The caller supplies the sine
//! and cosine of the angle a camera is turned by; every distance, bound and
//! wrap is decided here.

use vstd::prelude::*;
use crate::fixed::{
    clamp_to, clamped, displaced, displacement, is_coordinate, product, quotient, reached, reaches,
    share, shared, toward_zero, travel, travelled, wrap_turn, wrapped, Direction, Frame, Heading,
    FULL_TURN, QUARTER_TURN,
};

verus! {

/// Largest orbit distance, in length units.
pub const MAX_ZOOM: i64 = 100_000;

/// Length units travelled per second at a walk.
pub const BASE_SPEED: i64 = 50_000;

/// Factor by which sprinting multiplies the walking speed.
pub const SPRINT_FACTOR: i64 = 2;

/// The speed that the sprint input selects.
pub open spec fn speed_for(sprint: bool) -> int {
    if sprint {
        BASE_SPEED * SPRINT_FACTOR
    } else {
        BASE_SPEED as int
    }
}

/// A turning speed one frame after the look input was released: a fifth of
/// it is left, rounded towards rest.
pub open spec fn damped(velocity: int) -> int {
    toward_zero(velocity, 5)
}

/// Where the camera stands and how it is turned, for the scene to take over.
#[derive(Clone, Copy, Debug, PartialEq, Eq, Structural)]
pub enum Pose {
    /// Standing at `(x, y, z)`, turned by `yaw` about the world's vertical
    /// and then by `pitch` about the camera's own horizontal.
    Facing { x: i64, y: i64, z: i64, yaw: i64, pitch: i64 },
    /// Standing at `(x, y, z)` and looking at the target, the world's
    /// vertical kept upright.
    LookingAt { x: i64, y: i64, z: i64, target_x: i64, target_y: i64, target_z: i64 },
}

/// What the input mapping asks of the camera. A movement carries the frame
/// it happens in; a rotation the pointer's travel along x and y; a zoom the
/// distance to add or take away.
#[derive(Clone, Copy, Debug, PartialEq, Eq, Structural)]
pub enum Command {
    MoveForward(Frame),
    MoveBack(Frame),
    MoveLeft(Frame),
    MoveRight(Frame),
    MoveUp(Frame),
    MoveDown(Frame),
    Rotate(i64, i64),
    ZoomIn(i64),
    ZoomOut(i64),
    SetSprint(bool),
}

/// A fifth of a turning speed, rounded towards rest.
fn damp(velocity: i64) -> (r: i64)
    ensures
        r == damped(velocity as int),
{
    quotient(velocity as i128, 5) as i64
}

/// The speed that the sprint input selects.
fn speed_selected(sprint: bool) -> (r: i64)
    ensures
        r == speed_for(sprint),
{
    if sprint {
        BASE_SPEED * SPRINT_FACTOR
    } else {
        BASE_SPEED
    }
}

/// The orbiting camera: it circles a focus point at the orbit angle, as far
/// out and as high up as the zoom distance.
#[derive(Clone, Copy, Debug, PartialEq, Eq, Structural)]
pub struct CameraController {
    pub focus_x: i64,
    pub focus_y: i64,
    pub focus_z: i64,
    pub orbit: i64,
    pub zoom: i64,
    /// Angle units per unit of pointer travel.
    pub sensitivity: i64,
    /// Length units per second.
    pub speed: i64,
}

impl CameraController {
    /// The bounds that every zoom and every orbit leaves in place.
    pub open spec fn in_bounds(&self) -> bool {
        &&& 0 <= self.zoom <= MAX_ZOOM
        &&& 0 <= self.orbit < FULL_TURN
    }

    /// Whether one frame of movement keeps the focus within the coordinates.
    pub open spec fn can_move(&self, direction: Direction, frame: Frame) -> bool {
        let by = displacement(direction, self.speed as int, frame);
        is_coordinate(self.focus_x + by.0) && is_coordinate(self.focus_z + by.1)
    }

    /// The camera after one frame of movement: the focus has moved over the
    /// ground and nothing else has changed.
    pub open spec fn moved(&self, direction: Direction, frame: Frame) -> CameraController {
        let by = displacement(direction, self.speed as int, frame);
        CameraController { focus_x: (self.focus_x + by.0) as i64, focus_z: (self.focus_z + by.1) as i64, ..*self }
    }

    /// Where the camera stands: `heading` is the sine and cosine of the
    /// orbit angle, and the camera stands the zoom distance behind the focus
    /// along it and as high above the focus as the zoom distance, looking at
    /// the focus. There is no pose where that leaves the coordinates.
    pub open spec fn pose(&self, heading: Heading) -> Option<Pose> {
        let x = self.focus_x - share(self.zoom as int, heading.sin as int);
        let y = self.focus_y + self.zoom;
        let z = self.focus_z - share(self.zoom as int, heading.cos as int);
        if is_coordinate(x) && is_coordinate(y) && is_coordinate(z) {
            Some(
                Pose::LookingAt {
                    x: x as i64,
                    y: y as i64,
                    z: z as i64,
                    target_x: self.focus_x,
                    target_y: self.focus_y,
                    target_z: self.focus_z,
                },
            )
        } else {
            None
        }
    }

    /// Tells whether one frame of movement keeps the focus within the
    /// coordinates.
    pub fn can_step(&self, direction: Direction, frame: Frame) -> (r: bool)
        ensures
            r == self.can_move(direction, frame),
    {
        let (along_x, along_z) = displaced(direction, self.speed, frame);
        reaches(self.focus_x, along_x) && reaches(self.focus_z, along_z)
    }

    /// Moves over the ground for one frame in `direction`.
    fn step(&mut self, direction: Direction, frame: Frame)
        requires
            old(self).can_move(direction, frame),
        ensures
            *final(self) == old(self).moved(direction, frame),
    {
        let (along_x, along_z) = displaced(direction, self.speed, frame);
        self.focus_x = reached(self.focus_x, along_x);
        self.focus_z = reached(self.focus_z, along_z);
    }

    /// Moves the camera away by `multiplier`, no further than `MAX_ZOOM`
    /// and no nearer than the focus.
    pub fn zoom_in(&mut self, multiplier: i64)
        ensures
            final(self).zoom == clamp_to(old(self).zoom + multiplier, 0, MAX_ZOOM as int),
            0 <= final(self).zoom <= MAX_ZOOM,
            *final(self) == (CameraController { zoom: final(self).zoom, ..*old(self) }),
    {
        self.zoom = clamped(self.zoom as i128 + multiplier as i128, 0, MAX_ZOOM);
    }

    /// Moves the camera nearer by `multiplier`, within the same bounds.
    pub fn zoom_out(&mut self, multiplier: i64)
        ensures
            final(self).zoom == clamp_to(old(self).zoom - multiplier, 0, MAX_ZOOM as int),
            0 <= final(self).zoom <= MAX_ZOOM,
            *final(self) == (CameraController { zoom: final(self).zoom, ..*old(self) }),
    {
        self.zoom = clamped(self.zoom as i128 - multiplier as i128, 0, MAX_ZOOM);
    }

    /// Moves the focus the way the camera faces, as far as one frame at the
    /// camera's speed carries.
    pub fn forward(&mut self, frame: Frame)
        requires
            old(self).can_move(Direction::Forward, frame),
        ensures
            *final(self) == old(self).moved(Direction::Forward, frame),
    {
        self.step(Direction::Forward, frame);
    }

    /// Moves the focus to the left of the facing.
    pub fn left(&mut self, frame: Frame)
        requires
            old(self).can_move(Direction::Left, frame),
        ensures
            *final(self) == old(self).moved(Direction::Left, frame),
    {
        self.step(Direction::Left, frame);
    }

    /// Moves the focus to the right of the facing: the opposite of `left`.
    pub fn right(&mut self, frame: Frame)
        requires
            old(self).can_move(Direction::Right, frame),
        ensures
            *final(self) == old(self).moved(Direction::Right, frame),
    {
        self.step(Direction::Right, frame);
    }

    /// Moves the focus back: the opposite of `forward`.
    pub fn back(&mut self, frame: Frame)
        requires
            old(self).can_move(Direction::Back, frame),
        ensures
            *final(self) == old(self).moved(Direction::Back, frame),
    {
        self.step(Direction::Back, frame);
    }

    /// Swings the camera round the focus by `multiplier` units of pointer
    /// travel, and brings the orbit angle back into one turn.
    pub fn rotate_x(&mut self, multiplier: i64)
        ensures
            final(self).orbit == wrap_turn(old(self).orbit + multiplier * old(self).sensitivity),
            0 <= final(self).orbit < FULL_TURN,
            *final(self) == (CameraController { orbit: final(self).orbit, ..*old(self) }),
    {
        self.orbit = wrapped(self.orbit as i128 + product(multiplier, self.sensitivity));
    }

    /// Selects the sprinting or the walking speed.
    pub fn set_sprint(&mut self, sprint: bool)
        ensures
            final(self).speed == speed_for(sprint),
            *final(self) == (CameraController { speed: final(self).speed, ..*old(self) }),
    {
        self.speed = speed_selected(sprint);
    }

    /// Works out where the camera stands and what it looks at, from its
    /// state and the sine and cosine of its orbit angle.
    pub fn update_transform(&self, heading: Heading) -> (r: Option<Pose>)
        ensures
            r == self.pose(heading),
    {
        let behind_x = shared(self.zoom as i128, heading.sin);
        let behind_z = shared(self.zoom as i128, heading.cos);
        if reaches(self.focus_x, -behind_x) && reaches(self.focus_y, self.zoom as i128) && reaches(
            self.focus_z,
            -behind_z,
        ) {
            Some(
                Pose::LookingAt {
                    x: reached(self.focus_x, -behind_x),
                    y: reached(self.focus_y, self.zoom as i128),
                    z: reached(self.focus_z, -behind_z),
                    target_x: self.focus_x,
                    target_y: self.focus_y,
                    target_z: self.focus_z,
                },
            )
        } else {
            None
        }
    }
}

/// The free-flying camera: a position, and a facing given by yaw and pitch.
#[derive(Clone, Copy, Debug, PartialEq, Eq, Structural)]
pub struct FreeFly {
    pub x: i64,
    pub y: i64,
    pub z: i64,
    pub yaw: i64,
    pub pitch: i64,
    /// Angle units per unit of pointer travel.
    pub sensitivity: i64,
    /// Length units per second.
    pub speed: i64,
    /// What is left of the turning speed, in pointer units per frame.
    pub velocity_x: i64,
    pub velocity_y: i64,
    pub cursor_locked: bool,
}

impl FreeFly {
    /// The bounds that every rotation leaves in place.
    pub open spec fn in_bounds(&self) -> bool {
        &&& 0 <= self.yaw < FULL_TURN
        &&& -QUARTER_TURN <= self.pitch <= QUARTER_TURN
    }

    /// Whether one frame of movement keeps the camera within the coordinates.
    pub open spec fn can_move(&self, direction: Direction, frame: Frame) -> bool {
        let by = displacement(direction, self.speed as int, frame);
        is_coordinate(self.x + by.0) && is_coordinate(self.z + by.1)
    }

    /// The camera after one frame of movement over the ground.
    pub open spec fn moved(&self, direction: Direction, frame: Frame) -> FreeFly {
        let by = displacement(direction, self.speed as int, frame);
        FreeFly { x: (self.x + by.0) as i64, z: (self.z + by.1) as i64, ..*self }
    }

    /// How far one frame carries the camera up (or, negative, down).
    pub open spec fn climb(&self, up: bool, micros: u32) -> int {
        if up {
            travel(self.speed as int, micros as int)
        } else {
            -travel(self.speed as int, micros as int)
        }
    }

    /// Whether one frame of rising or sinking keeps the camera within the
    /// coordinates.
    pub open spec fn can_climb(&self, up: bool, micros: u32) -> bool {
        is_coordinate(self.y + self.climb(up, micros))
    }

    /// The camera after one frame of rising or sinking.
    pub open spec fn climbed(&self, up: bool, micros: u32) -> FreeFly {
        FreeFly { y: (self.y + self.climb(up, micros)) as i64, ..*self }
    }

    /// The camera turned against the pointer's travel `(dx, dy)`.
    pub open spec fn rotated(&self, dx: int, dy: int) -> FreeFly {
        FreeFly {
            yaw: wrap_turn(self.yaw - dx * self.sensitivity) as i64,
            pitch: clamp_to(self.pitch - dy * self.sensitivity, -QUARTER_TURN, QUARTER_TURN as int) as i64,
            ..*self
        }
    }

    /// The camera after one frame of the look input.
    pub open spec fn looked(&self, held: bool, dx: int, dy: int) -> FreeFly {
        if held {
            FreeFly { cursor_locked: true, ..self.rotated(dx, dy) }
        } else {
            FreeFly {
                velocity_x: damped(self.velocity_x as int) as i64,
                velocity_y: damped(self.velocity_y as int) as i64,
                cursor_locked: false,
                ..*self
            }
        }
    }

    /// Where the camera stands and how it is turned: yaw first, then pitch
    /// about the axis that the yaw has turned.
    pub open spec fn pose(&self) -> Pose {
        Pose::Facing { x: self.x, y: self.y, z: self.z, yaw: self.yaw, pitch: self.pitch }
    }

    /// Works out the pose of the camera.
    pub fn derive_transform(&self) -> (r: Pose)
        ensures
            r == self.pose(),
    {
        Pose::Facing { x: self.x, y: self.y, z: self.z, yaw: self.yaw, pitch: self.pitch }
    }

    /// Tells whether one frame of movement keeps the camera within the
    /// coordinates.
    pub fn can_step(&self, direction: Direction, frame: Frame) -> (r: bool)
        ensures
            r == self.can_move(direction, frame),
    {
        let (along_x, along_z) = displaced(direction, self.speed, frame);
        reaches(self.x, along_x) && reaches(self.z, along_z)
    }

    /// Tells whether one frame of rising or sinking keeps the camera within
    /// the coordinates.
    pub fn can_rise(&self, up: bool, micros: u32) -> (r: bool)
        ensures
            r == self.can_climb(up, micros),
    {
        let rise = travelled(self.speed, micros);
        if up {
            reaches(self.y, rise)
        } else {
            reaches(self.y, -rise)
        }
    }

    /// Moves over the ground for one frame in `direction`.
    fn step(&mut self, direction: Direction, frame: Frame)
        requires
            old(self).can_move(direction, frame),
        ensures
            *final(self) == old(self).moved(direction, frame),
    {
        let (along_x, along_z) = displaced(direction, self.speed, frame);
        self.x = reached(self.x, along_x);
        self.z = reached(self.z, along_z);
    }

    /// Moves the way the camera faces, as far as one frame at the camera's
    /// speed carries.
    pub fn move_forward(&mut self, frame: Frame)
        requires
            old(self).can_move(Direction::Forward, frame),
        ensures
            *final(self) == old(self).moved(Direction::Forward, frame),
    {
        self.step(Direction::Forward, frame);
    }

    /// Moves back: the opposite of `move_forward`.
    pub fn move_back(&mut self, frame: Frame)
        requires
            old(self).can_move(Direction::Back, frame),
        ensures
            *final(self) == old(self).moved(Direction::Back, frame),
    {
        self.step(Direction::Back, frame);
    }

    /// Moves to the left of the facing.
    pub fn move_left(&mut self, frame: Frame)
        requires
            old(self).can_move(Direction::Left, frame),
        ensures
            *final(self) == old(self).moved(Direction::Left, frame),
    {
        self.step(Direction::Left, frame);
    }

    /// Moves to the right of the facing: the opposite of `move_left`.
    pub fn move_right(&mut self, frame: Frame)
        requires
            old(self).can_move(Direction::Right, frame),
        ensures
            *final(self) == old(self).moved(Direction::Right, frame),
    {
        self.step(Direction::Right, frame);
    }

    /// Rises as far as a frame of `micros` carries, whatever the facing.
    pub fn move_up(&mut self, micros: u32)
        requires
            old(self).can_climb(true, micros),
        ensures
            *final(self) == old(self).climbed(true, micros),
    {
        self.y = reached(self.y, travelled(self.speed, micros));
    }

    /// Sinks as far as a frame of `micros` carries, whatever the facing.
    pub fn move_down(&mut self, micros: u32)
        requires
            old(self).can_climb(false, micros),
        ensures
            *final(self) == old(self).climbed(false, micros),
    {
        self.y = reached(self.y, -travelled(self.speed, micros));
    }

    /// Turns the camera against the pointer's travel `(dx, dy)`: the yaw
    /// wraps into one turn, the pitch stops at a quarter turn up or down.
    pub fn rotate(&mut self, dx: i64, dy: i64)
        ensures
            *final(self) == old(self).rotated(dx as int, dy as int),
            final(self).in_bounds(),
    {
        self.yaw = wrapped(self.yaw as i128 - product(dx, self.sensitivity));
        self.pitch = clamped(
            self.pitch as i128 - product(dy, self.sensitivity),
            -QUARTER_TURN,
            QUARTER_TURN,
        );
    }

    /// Selects the sprinting or the walking speed.
    pub fn set_sprint(&mut self, sprint: bool)
        ensures
            final(self).speed == speed_for(sprint),
            *final(self) == (FreeFly { speed: final(self).speed, ..*old(self) }),
    {
        self.speed = speed_selected(sprint);
    }

    /// One frame of the look input. While it is held the cursor is locked
    /// and the pointer's travel `(dx, dy)` turns the camera. Once released
    /// the travel is dropped, the cursor is free, and what is left of the
    /// turning speed falls to a fifth.
    pub fn look(&mut self, held: bool, dx: i64, dy: i64)
        ensures
            *final(self) == old(self).looked(held, dx as int, dy as int),
            old(self).in_bounds() || held ==> final(self).in_bounds(),
    {
        if held {
            self.rotate(dx, dy);
        } else {
            self.velocity_x = damp(self.velocity_x);
            self.velocity_y = damp(self.velocity_y);
        }
        self.cursor_locked = held;
    }
}

/// The camera in one of its two modes, chosen when it is created.
#[derive(Clone, Copy, Debug, PartialEq, Eq, Structural)]
pub enum CameraMode {
    FreeFly(FreeFly),
    Orbit(CameraController),
}

impl CameraMode {
    /// Whether `command` keeps every coordinate of the camera in range.
    pub open spec fn accepts(&self, command: Command) -> bool {
        match *self {
            CameraMode::FreeFly(camera) => match command {
                Command::MoveForward(frame) => camera.can_move(Direction::Forward, frame),
                Command::MoveBack(frame) => camera.can_move(Direction::Back, frame),
                Command::MoveLeft(frame) => camera.can_move(Direction::Left, frame),
                Command::MoveRight(frame) => camera.can_move(Direction::Right, frame),
                Command::MoveUp(frame) => camera.can_climb(true, frame.micros),
                Command::MoveDown(frame) => camera.can_climb(false, frame.micros),
                _ => true,
            },
            CameraMode::Orbit(camera) => match command {
                Command::MoveForward(frame) => camera.can_move(Direction::Forward, frame),
                Command::MoveBack(frame) => camera.can_move(Direction::Back, frame),
                Command::MoveLeft(frame) => camera.can_move(Direction::Left, frame),
                Command::MoveRight(frame) => camera.can_move(Direction::Right, frame),
                _ => true,
            },
        }
    }

    /// The camera after `command`. A command that the mode has no use for
    /// (a zoom while flying; a rise, or the pointer's travel along y, while
    /// orbiting) changes nothing.
    pub open spec fn after(&self, command: Command) -> CameraMode {
        match *self {
            CameraMode::FreeFly(camera) => CameraMode::FreeFly(
                match command {
                    Command::MoveForward(frame) => camera.moved(Direction::Forward, frame),
                    Command::MoveBack(frame) => camera.moved(Direction::Back, frame),
                    Command::MoveLeft(frame) => camera.moved(Direction::Left, frame),
                    Command::MoveRight(frame) => camera.moved(Direction::Right, frame),
                    Command::MoveUp(frame) => camera.climbed(true, frame.micros),
                    Command::MoveDown(frame) => camera.climbed(false, frame.micros),
                    Command::Rotate(dx, dy) => camera.rotated(dx as int, dy as int),
                    Command::SetSprint(sprint) => FreeFly { speed: speed_for(sprint) as i64, ..camera },
                    _ => camera,
                },
            ),
            CameraMode::Orbit(camera) => CameraMode::Orbit(
                match command {
                    Command::MoveForward(frame) => camera.moved(Direction::Forward, frame),
                    Command::MoveBack(frame) => camera.moved(Direction::Back, frame),
                    Command::MoveLeft(frame) => camera.moved(Direction::Left, frame),
                    Command::MoveRight(frame) => camera.moved(Direction::Right, frame),
                    Command::Rotate(dx, _) => CameraController {
                        orbit: wrap_turn(camera.orbit + dx * camera.sensitivity) as i64,
                        ..camera
                    },
                    Command::ZoomIn(amount) => CameraController {
                        zoom: clamp_to(camera.zoom + amount, 0, MAX_ZOOM as int) as i64,
                        ..camera
                    },
                    Command::ZoomOut(amount) => CameraController {
                        zoom: clamp_to(camera.zoom - amount, 0, MAX_ZOOM as int) as i64,
                        ..camera
                    },
                    Command::SetSprint(sprint) => CameraController {
                        speed: speed_for(sprint) as i64,
                        ..camera
                    },
                    _ => camera,
                },
            ),
        }
    }

    /// Whether the angles and the zoom lie within their bounds.
    pub open spec fn in_bounds(&self) -> bool {
        match *self {
            CameraMode::FreeFly(camera) => camera.in_bounds(),
            CameraMode::Orbit(camera) => camera.in_bounds(),
        }
    }

    /// The angle that the camera's movement is relative to, and whose sine
    /// and cosine its commands expect as the heading: the yaw of a flying
    /// camera, the orbit angle of an orbiting one.
    pub open spec fn facing(&self) -> i64 {
        match *self {
            CameraMode::FreeFly(camera) => camera.yaw,
            CameraMode::Orbit(camera) => camera.orbit,
        }
    }

    /// The camera after one frame of the look input. While it is held, the
    /// pointer's travel turns a flying camera and swings an orbiting one;
    /// once released, a flying camera winds down and an orbiting one stays.
    pub open spec fn looked(&self, held: bool, dx: i64, dy: i64) -> CameraMode {
        match *self {
            CameraMode::FreeFly(camera) => CameraMode::FreeFly(camera.looked(held, dx as int, dy as int)),
            CameraMode::Orbit(_) => if held {
                self.after(Command::Rotate(dx, dy))
            } else {
                *self
            },
        }
    }

    /// The pose of the camera, whatever its mode. `heading` is the sine and
    /// cosine of the orbit angle; a flying camera has no use for it.
    pub open spec fn pose(&self, heading: Heading) -> Option<Pose> {
        match *self {
            CameraMode::FreeFly(camera) => Some(camera.pose()),
            CameraMode::Orbit(camera) => camera.pose(heading),
        }
    }

    /// Works out the pose of the camera, whatever its mode.
    pub fn derive_transform(&self, heading: Heading) -> (r: Option<Pose>)
        ensures
            r == self.pose(heading),
    {
        match *self {
            CameraMode::FreeFly(camera) => Some(camera.derive_transform()),
            CameraMode::Orbit(camera) => camera.update_transform(heading),
        }
    }

    /// The angle whose sine and cosine the camera's commands expect.
    pub fn heading_angle(&self) -> (r: i64)
        ensures
            r == self.facing(),
    {
        match *self {
            CameraMode::FreeFly(camera) => camera.yaw,
            CameraMode::Orbit(camera) => camera.orbit,
        }
    }

    /// One frame of the look input with the pointer's travel `(dx, dy)`.
    pub fn look(&mut self, held: bool, dx: i64, dy: i64)
        ensures
            *final(self) == old(self).looked(held, dx, dy),
            old(self).in_bounds() ==> final(self).in_bounds(),
    {
        let next = match *self {
            CameraMode::FreeFly(mut camera) => {
                camera.look(held, dx, dy);
                CameraMode::FreeFly(camera)
            },
            CameraMode::Orbit(mut camera) => {
                if held {
                    camera.rotate_x(dx);
                }
                CameraMode::Orbit(camera)
            },
        };
        *self = next;
    }

    /// Tells whether `command` can be applied: whether it keeps every
    /// coordinate of the camera in range.
    pub fn can_apply(&self, command: Command) -> (r: bool)
        ensures
            r == self.accepts(command),
    {
        match *self {
            CameraMode::FreeFly(camera) => match command {
                Command::MoveForward(frame) => camera.can_step(Direction::Forward, frame),
                Command::MoveBack(frame) => camera.can_step(Direction::Back, frame),
                Command::MoveLeft(frame) => camera.can_step(Direction::Left, frame),
                Command::MoveRight(frame) => camera.can_step(Direction::Right, frame),
                Command::MoveUp(frame) => camera.can_rise(true, frame.micros),
                Command::MoveDown(frame) => camera.can_rise(false, frame.micros),
                _ => true,
            },
            CameraMode::Orbit(camera) => match command {
                Command::MoveForward(frame) => camera.can_step(Direction::Forward, frame),
                Command::MoveBack(frame) => camera.can_step(Direction::Back, frame),
                Command::MoveLeft(frame) => camera.can_step(Direction::Left, frame),
                Command::MoveRight(frame) => camera.can_step(Direction::Right, frame),
                _ => true,
            },
        }
    }

    /// Applies one command to the camera, whatever its mode.
    pub fn apply_command(&mut self, command: Command)
        requires
            old(self).accepts(command),
        ensures
            *final(self) == old(self).after(command),
    {
        let next = match *self {
            CameraMode::FreeFly(mut camera) => {
                match command {
                    Command::MoveForward(frame) => camera.move_forward(frame),
                    Command::MoveBack(frame) => camera.move_back(frame),
                    Command::MoveLeft(frame) => camera.move_left(frame),
                    Command::MoveRight(frame) => camera.move_right(frame),
                    Command::MoveUp(frame) => camera.move_up(frame.micros),
                    Command::MoveDown(frame) => camera.move_down(frame.micros),
                    Command::Rotate(dx, dy) => camera.rotate(dx, dy),
                    Command::SetSprint(sprint) => camera.set_sprint(sprint),
                    Command::ZoomIn(_) => {},
                    Command::ZoomOut(_) => {},
                }
                CameraMode::FreeFly(camera)
            },
            CameraMode::Orbit(mut camera) => {
                match command {
                    Command::MoveForward(frame) => camera.forward(frame),
                    Command::MoveBack(frame) => camera.back(frame),
                    Command::MoveLeft(frame) => camera.left(frame),
                    Command::MoveRight(frame) => camera.right(frame),
                    Command::Rotate(dx, _) => camera.rotate_x(dx),
                    Command::ZoomIn(amount) => camera.zoom_in(amount),
                    Command::ZoomOut(amount) => camera.zoom_out(amount),
                    Command::SetSprint(sprint) => camera.set_sprint(sprint),
                    Command::MoveUp(_) => {},
                    Command::MoveDown(_) => {},
                }
                CameraMode::Orbit(camera)
            },
        };
        *self = next;
    }
}

/// The camera after each command of `commands` in turn.
pub open spec fn after_all(mode: CameraMode, commands: Seq<Command>) -> CameraMode
    decreases commands.len(),
{
    if commands.len() == 0 {
        mode
    } else {
        after_all(mode, commands.drop_last()).after(commands.last())
    }
}

/// No command takes a camera out of its bounds: the pitch stays within a
/// quarter turn, the yaw and the orbit angle within one turn, and the zoom
/// within `[0, MAX_ZOOM]`.
pub proof fn lemma_command_keeps_bounds(mode: CameraMode, command: Command)
    requires
        mode.in_bounds(),
    ensures
        mode.after(command).in_bounds(),
{
}

/// The same of any sequence of commands, in any order and of any size.
pub proof fn lemma_commands_keep_bounds(mode: CameraMode, commands: Seq<Command>)
    requires
        mode.in_bounds(),
    ensures
        after_all(mode, commands).in_bounds(),
    decreases commands.len(),
{
    if commands.len() > 0 {
        lemma_commands_keep_bounds(mode, commands.drop_last());
        lemma_command_keeps_bounds(after_all(mode, commands.drop_last()), commands.last());
    }
}

/// A rotation brings a flying camera into its bounds wherever it was, and
/// an orbit or a zoom does so for the angle or the distance it sets.
pub proof fn lemma_rotation_restores_bounds(flying: FreeFly, orbiting: CameraController, dx: i64, dy: i64)
    ensures
        flying.rotated(dx as int, dy as int).in_bounds(),
        CameraMode::FreeFly(flying).after(Command::Rotate(dx, dy)).in_bounds(),
        0 <= CameraMode::Orbit(orbiting).after(Command::Rotate(dx, dy))->Orbit_0.orbit < FULL_TURN,
        0 <= CameraMode::Orbit(orbiting).after(Command::ZoomIn(dx))->Orbit_0.zoom <= MAX_ZOOM,
        0 <= CameraMode::Orbit(orbiting).after(Command::ZoomOut(dx))->Orbit_0.zoom <= MAX_ZOOM,
{
}

/// A move back undoes a move forward in the same frame, and a move right a
/// move left.
pub proof fn lemma_opposite_moves_cancel(mode: CameraMode, frame: Frame)
    requires
        mode.accepts(Command::MoveForward(frame)),
        mode.accepts(Command::MoveLeft(frame)),
    ensures
        mode.after(Command::MoveForward(frame)).accepts(Command::MoveBack(frame)),
        mode.after(Command::MoveForward(frame)).after(Command::MoveBack(frame)) == mode,
        mode.after(Command::MoveLeft(frame)).accepts(Command::MoveRight(frame)),
        mode.after(Command::MoveLeft(frame)).after(Command::MoveRight(frame)) == mode,
{
}

} // verus!
