//! What the input of a tick means: where the mouse points on the grid, which
//! button was clicked, how far the wheel has turned, and where the keys take
//! the player.
//!
//! Values that are fractions elsewhere are whole numbers here: a turn of the
//! wheel is counted in thousandths of a step, and a quotient is rounded to
//! the nearest whole number, a half away from zero.

use vstd::prelude::*;
use crate::location::{CardinalDirection, Location, Movement, WorldLocation, WORLD_LIMIT};
use crate::tile::Sprite;
use crate::timer::Timer;

verus! {

/// A point of the screen.
#[derive(Clone, Copy, Debug, PartialEq, Eq, Structural)]
pub struct ScreenPoint {
    pub x: i32,
    pub y: i32,
}

/// Where the mouse points.
#[derive(Clone, Copy, Debug, PartialEq, Eq, Structural)]
pub struct Mouse {
    /// The place in the world, on the grid.
    pub position: ScreenPoint,
    /// The same place, as a location at height zero.
    pub world_position: Location,
    /// The place on the screen, as the window reported it.
    pub ui_position: ScreenPoint,
}

/// A button of the mouse.
#[derive(Clone, Copy, Debug, PartialEq, Eq, Structural)]
pub enum MouseButton {
    Left,
    Right,
    Middle,
}

/// A click, with the places that the mouse pointed at.
#[derive(Clone, Copy, Debug, PartialEq, Eq, Structural)]
pub struct MouseClickEvent {
    pub timestamp: u64,
    pub button: MouseButton,
    pub ui_position: ScreenPoint,
    pub world_position: Location,
}

/// How far the wheel has turned since it was last read, in whole steps.
#[derive(Clone, Copy, Debug, PartialEq, Eq, Structural)]
pub struct ScrollState {
    pub x: i64,
    pub y: i64,
}

/// One turn of the wheel, in thousandths of a step.
#[derive(Clone, Copy, Debug, PartialEq, Eq, Structural)]
pub struct WheelMove {
    pub x: i32,
    pub y: i32,
}

/// The keys that move the player, each pressed or not.
#[derive(Clone, Copy, Debug, PartialEq, Eq, Structural)]
pub struct Keys {
    pub left: bool,
    pub right: bool,
    pub up: bool,
    pub down: bool,
}

/// A camera: its name, if it has one, and where it looks.
#[derive(Debug)]
pub struct CameraView {
    pub name: Option<String>,
    pub x: i32,
    pub y: i32,
}

/// The frames of the player's walk in each direction, and the frame shown.
#[derive(Debug)]
pub struct MoveAnimation {
    pub count: usize,
    pub up: Vec<Sprite>,
    pub down: Vec<Sprite>,
    pub left: Vec<Sprite>,
    pub right: Vec<Sprite>,
}

/// The number of thousandths in a step of the wheel.
pub const WHEEL_UNIT: u32 = 1000;

/// The largest magnitude of a scroll state that the wheel is added to.
pub const SCROLL_LIMIT: i64 = 0x100_0000_0000;

/// The largest number of turns of the wheel that are read in one tick.
pub const WHEEL_EVENTS: usize = 0x10_0000;

/// The quotient of `v` by `unit`, rounded to the nearest whole number, a half
/// away from zero.
pub open spec fn nearest(v: int, unit: int) -> int {
    if v >= 0 {
        (2 * v + unit) / (2 * unit)
    } else {
        -((2 * (-v) + unit) / (2 * unit))
    }
}

/// The multiple of `cell` nearest to `v`.
pub open spec fn snapped(v: int, cell: int) -> int {
    nearest(v, cell) * cell
}

/// `nearest(v, unit)` is the whole number whose product with `unit` lies
/// nearest to `v`; of two that lie equally near, the one further from zero.
pub proof fn lemma_nearest(v: int, unit: int)
    requires
        unit > 0,
    ensures
        -unit <= 2 * (nearest(v, unit) * unit - v) <= unit,
        v >= 0 ==> nearest(v, unit) >= 0 && 2 * (nearest(v, unit) * unit - v) > -unit,
        v < 0 ==> nearest(v, unit) <= 0 && 2 * (nearest(v, unit) * unit - v) < unit,
{
    let a = if v >= 0 { v } else { -v };
    let q = (2 * a + unit) / (2 * unit);
    vstd::arithmetic::div_mod::lemma_fundamental_div_mod(2 * a + unit, 2 * unit);
    assert(2 * unit * q == 2 * (q * unit)) by (nonlinear_arith);
    assert((-q) * unit == -(q * unit)) by (nonlinear_arith);
}

/// Divides `v` by `unit` and rounds to the nearest whole number.
pub fn round_div(v: i64, unit: u32) -> (q: i64)
    requires
        unit > 0,
        -0x1000_0000_0000_0000 <= v <= 0x1000_0000_0000_0000,
    ensures
        q == nearest(v as int, unit as int),
{
    let d: u64 = 2 * (unit as u64);
    if v >= 0 {
        let n: u64 = 2 * (v as u64) + unit as u64;
        (n / d) as i64
    } else {
        let n: u64 = 2 * ((-v) as u64) + unit as u64;
        -((n / d) as i64)
    }
}

/// The multiple of `cell` nearest to `v`.
pub fn snap(v: i64, cell: u32) -> (at: i64)
    requires
        cell > 0,
        -0x1_0000_0000 <= v <= 0x1_0000_0000,
    ensures
        at == snapped(v as int, cell as int),
        -cell <= 2 * (at - v) <= cell,
{
    let q = round_div(v, cell);
    proof {
        lemma_nearest(v as int, cell as int);
    }
    q * (cell as i64)
}

impl CameraView {
    /// The camera shows the interface, not the world.
    pub open spec fn is_ui(self) -> bool {
        self.name matches Some(name) && name@ == "UiCamera"@
    }
}

/// Where the world is looked at from: the place of the last camera that does
/// not show the interface, the origin of the screen if there is none.
pub open spec fn spec_camera_offset(cameras: Seq<CameraView>) -> ScreenPoint
    decreases cameras.len(),
{
    if cameras.len() == 0 {
        ScreenPoint { x: 0, y: 0 }
    } else if !cameras.last().is_ui() {
        ScreenPoint { x: cameras.last().x, y: cameras.last().y }
    } else {
        spec_camera_offset(cameras.drop_last())
    }
}

/// Where the world is looked at from.
pub fn camera_offset(cameras: &Vec<CameraView>) -> (offset: ScreenPoint)
    ensures
        offset == spec_camera_offset(cameras@),
{
    let ui = "UiCamera".to_owned();
    let mut offset = ScreenPoint { x: 0, y: 0 };
    let mut i: usize = 0;
    while i < cameras.len()
        invariant
            i <= cameras@.len(),
            ui@ == "UiCamera"@,
            offset == spec_camera_offset(cameras@.take(i as int)),
        decreases cameras@.len() - i,
    {
        assert(cameras@.take(i + 1).drop_last() =~= cameras@.take(i as int));
        let shows_ui: bool = match &cameras[i].name {
            Some(name) => *name == ui,
            None => false,
        };
        if !shows_ui {
            offset = ScreenPoint { x: cameras[i].x, y: cameras[i].y };
        }
        i = i + 1;
    }
    assert(cameras@.take(i as int) =~= cameras@);
    offset
}

/// Where the mouse points after the window reported it at `at`, seen from
/// `offset` through a window of the given size, on a grid of cells of size
/// `cell`: the place on the screen is moved by the offset, measured from the
/// middle of the window, and snapped to the grid.
pub open spec fn pointed(
    at: ScreenPoint,
    offset: ScreenPoint,
    window_width: u32,
    window_height: u32,
    cell: u32,
) -> Mouse {
    let x = snapped(at.x + offset.x - window_width / 2, cell as int) as i32;
    let y = snapped(at.y + offset.y - window_height / 2, cell as int) as i32;
    Mouse {
        position: ScreenPoint { x, y },
        world_position: Location { x, y, z: 0, frame: WorldLocation::World },
        ui_position: at,
    }
}

/// `at` is a point whose coordinates are coordinates of the world.
pub open spec fn on_screen(at: ScreenPoint) -> bool {
    -WORLD_LIMIT <= at.x <= WORLD_LIMIT && -WORLD_LIMIT <= at.y <= WORLD_LIMIT
}

/// Follows the mouse through the movements that the window reported, in
/// order: the mouse ends where the last of them takes it, and stays where it
/// was if there is none.
pub fn track_mouse_movement_system(
    events: &Vec<ScreenPoint>,
    cameras: &Vec<CameraView>,
    window_width: u32,
    window_height: u32,
    cell: u32,
    mouse: &mut Mouse,
)
    requires
        0 < cell <= WORLD_LIMIT,
        window_width <= WORLD_LIMIT,
        window_height <= WORLD_LIMIT,
        on_screen(spec_camera_offset(cameras@)),
        forall|i: int| 0 <= i < events@.len() ==> on_screen(#[trigger] events@[i]),
    ensures
        *final(mouse) == if events@.len() == 0 {
            *old(mouse)
        } else {
            pointed(
                events@.last(),
                spec_camera_offset(cameras@),
                window_width,
                window_height,
                cell,
            )
        },
{
    let offset = camera_offset(cameras);
    let half_width: i64 = (window_width / 2) as i64;
    let half_height: i64 = (window_height / 2) as i64;
    let mut i: usize = 0;
    while i < events.len()
        invariant
            i <= events@.len(),
            0 < cell <= WORLD_LIMIT,
            window_width <= WORLD_LIMIT,
            window_height <= WORLD_LIMIT,
            half_width == window_width / 2,
            half_height == window_height / 2,
            on_screen(offset),
            offset == spec_camera_offset(cameras@),
            forall|k: int| 0 <= k < events@.len() ==> on_screen(#[trigger] events@[k]),
            *mouse == if i == 0 {
                *old(mouse)
            } else {
                pointed(events@[i - 1], offset, window_width, window_height, cell)
            },
        decreases events@.len() - i,
    {
        let at = events[i];
        let x = snap(at.x as i64 + offset.x as i64 - half_width, cell);
        let y = snap(at.y as i64 + offset.y as i64 - half_height, cell);
        mouse.position = ScreenPoint { x: x as i32, y: y as i32 };
        mouse.world_position = Location {
            x: x as i32,
            y: y as i32,
            z: 0,
            frame: WorldLocation::World,
        };
        mouse.ui_position = at;
        i = i + 1;
    }
}

/// The button that counts where several were pressed at once: the left one
/// before the right one, the right one before the middle one.
pub open spec fn pressed_button(left: bool, right: bool, middle: bool) -> Option<MouseButton> {
    if left {
        Some(MouseButton::Left)
    } else if right {
        Some(MouseButton::Right)
    } else if middle {
        Some(MouseButton::Middle)
    } else {
        None
    }
}

/// The click that is reported for the buttons pressed in this tick, if any
/// was pressed, with the places that the mouse points at.
pub fn mouse_click_system(left: bool, right: bool, middle: bool, timestamp: u64, mouse: &Mouse) -> (event:
    Option<MouseClickEvent>)
    ensures
        event == match pressed_button(left, right, middle) {
            Some(button) => Some(
                MouseClickEvent {
                    timestamp,
                    button,
                    ui_position: mouse.ui_position,
                    world_position: mouse.world_position,
                },
            ),
            None => None,
        },
{
    let button = if left {
        Some(MouseButton::Left)
    } else if right {
        Some(MouseButton::Right)
    } else if middle {
        Some(MouseButton::Middle)
    } else {
        None
    };
    match button {
        Some(button) => Some(
            MouseClickEvent {
                timestamp,
                button,
                ui_position: mouse.ui_position,
                world_position: mouse.world_position,
            },
        ),
        None => None,
    }
}

/// `steps` whole steps after the wheel has turned by `turn` thousandths:
/// the sum, rounded to whole steps.
pub open spec fn turned(steps: int, turn: int) -> int {
    nearest(steps * WHEEL_UNIT + turn, WHEEL_UNIT as int)
}

/// The scroll state after the turns of `wheel`, in order.
pub open spec fn scrolled(scroll: ScrollState, wheel: Seq<WheelMove>) -> ScrollState
    decreases wheel.len(),
{
    if wheel.len() == 0 {
        scroll
    } else {
        let before = scrolled(scroll, wheel.drop_last());
        ScrollState {
            x: turned(before.x as int, wheel.last().x as int) as i64,
            y: turned(before.y as int, wheel.last().y as int) as i64,
        }
    }
}

/// Each turn of the wheel moves a scroll state by no more than a fixed
/// number of steps.
proof fn lemma_scrolled_bound(scroll: ScrollState, wheel: Seq<WheelMove>)
    requires
        -SCROLL_LIMIT <= scroll.x <= SCROLL_LIMIT,
        -SCROLL_LIMIT <= scroll.y <= SCROLL_LIMIT,
        wheel.len() <= WHEEL_EVENTS,
    ensures
        -SCROLL_LIMIT - wheel.len() * 0x40_0000 <= scrolled(scroll, wheel).x <= SCROLL_LIMIT
            + wheel.len() * 0x40_0000,
        -SCROLL_LIMIT - wheel.len() * 0x40_0000 <= scrolled(scroll, wheel).y <= SCROLL_LIMIT
            + wheel.len() * 0x40_0000,
    decreases wheel.len(),
{
    if wheel.len() > 0 {
        lemma_scrolled_bound(scroll, wheel.drop_last());
    }
}

/// Reads the wheel. The timer counts `delta`. Where it is finished then,
/// the scroll state takes in the turns of `wheel`, in order, and the timer
/// starts anew if there was a turn. Where it is not, the scroll state returns
/// to zero.
pub fn mouse_wheel_system(
    delta: u32,
    timer: &mut Timer,
    wheel: &Vec<WheelMove>,
    scroll: &mut ScrollState,
)
    requires
        -SCROLL_LIMIT <= old(scroll).x <= SCROLL_LIMIT,
        -SCROLL_LIMIT <= old(scroll).y <= SCROLL_LIMIT,
        wheel@.len() <= WHEEL_EVENTS,
    ensures
        *final(scroll) == if old(timer).ticked(delta).finished {
            scrolled(*old(scroll), wheel@)
        } else {
            ScrollState { x: 0, y: 0 }
        },
        *final(timer) == if old(timer).ticked(delta).finished && wheel@.len() > 0 {
            old(timer).ticked(delta).restarted()
        } else {
            old(timer).ticked(delta)
        },
{
    timer.tick(delta);
    if timer.finished {
        let mut i: usize = 0;
        while i < wheel.len()
            invariant
                i <= wheel@.len(),
                wheel@.len() <= WHEEL_EVENTS,
                -SCROLL_LIMIT <= old(scroll).x <= SCROLL_LIMIT,
                -SCROLL_LIMIT <= old(scroll).y <= SCROLL_LIMIT,
                *scroll == scrolled(*old(scroll), wheel@.take(i as int)),
                *timer == if i > 0 {
                    old(timer).ticked(delta).restarted()
                } else {
                    old(timer).ticked(delta)
                },
            decreases wheel@.len() - i,
        {
            proof {
                lemma_scrolled_bound(*old(scroll), wheel@.take(i as int));
                assert(wheel@.take(i + 1).drop_last() =~= wheel@.take(i as int));
            }
            let turn = wheel[i];
            let unit: i64 = WHEEL_UNIT as i64;
            scroll.x = round_div(scroll.x * unit + turn.x as i64, WHEEL_UNIT);
            scroll.y = round_div(scroll.y * unit + turn.y as i64, WHEEL_UNIT);
            timer.reset();
            i = i + 1;
        }
        assert(wheel@.take(i as int) =~= wheel@);
    } else {
        scroll.x = 0;
        scroll.y = 0;
    }
}

impl Keys {
    /// The direction that the player faces: that of the last key pressed, in
    /// the order left, right, up, down; none where no key is pressed.
    pub open spec fn facing(self) -> CardinalDirection {
        if self.down {
            CardinalDirection::South
        } else if self.up {
            CardinalDirection::North
        } else if self.right {
            CardinalDirection::East
        } else if self.left {
            CardinalDirection::West
        } else {
            CardinalDirection::Stationary
        }
    }

    /// The horizontal sense of the movement: keys that oppose each other
    /// cancel.
    pub open spec fn dx(self) -> int {
        (if self.right { 1int } else { 0 }) - (if self.left { 1int } else { 0 })
    }

    /// The vertical sense of the movement.
    pub open spec fn dy(self) -> int {
        (if self.up { 1int } else { 0 }) - (if self.down { 1int } else { 0 })
    }
}

impl MoveAnimation {
    /// The frames of a walk in `direction`.
    pub open spec fn frames(self, direction: CardinalDirection) -> Seq<Sprite> {
        match direction {
            CardinalDirection::North => self.up@,
            CardinalDirection::South => self.down@,
            CardinalDirection::West => self.left@,
            CardinalDirection::East => self.right@,
            CardinalDirection::Stationary => Seq::empty(),
        }
    }
}

/// Moves the player as the keys say.
///
/// Where no key is pressed, nothing changes. Else the timer of the walk
/// counts `delta`, the player moves by `step_x` and `step_y` in the senses of
/// the keys, and the movement is recorded with the direction faced. Where the
/// timer is finished then, the next frame of the walk in that direction is
/// shown, the first after the last, and returned, and the timer starts anew.
pub fn player_movement_system(
    keys: &Keys,
    step_x: u32,
    step_y: u32,
    delta: u32,
    timer: &mut Timer,
    position: &mut Location,
    movement: &mut Movement,
    animation: &mut MoveAnimation,
) -> (frame: Option<Sprite>)
    requires
        old(position).in_world(),
        step_x <= WORLD_LIMIT,
        step_y <= WORLD_LIMIT,
        old(timer).ticked(delta).finished && keys.facing() != CardinalDirection::Stationary ==> old(
            animation,
        ).frames(keys.facing()).len() > 0 && old(animation).count < usize::MAX,
    ensures
        final(animation).up == old(animation).up,
        final(animation).down == old(animation).down,
        final(animation).left == old(animation).left,
        final(animation).right == old(animation).right,
        keys.facing() == CardinalDirection::Stationary ==> {
            &&& *final(position) == *old(position)
            &&& *final(movement) == *old(movement)
            &&& *final(timer) == *old(timer)
            &&& final(animation).count == old(animation).count
            &&& frame is None
        },
        keys.facing() != CardinalDirection::Stationary ==> {
            &&& final(position).x == old(position).x + keys.dx() * step_x
            &&& final(position).y == old(position).y + keys.dy() * step_y
            &&& final(position).z == old(position).z
            &&& final(position).frame == old(position).frame
            &&& *final(movement) == (Movement {
                from: *old(position),
                to: *final(position),
                direction: keys.facing(),
            })
            &&& if old(timer).ticked(delta).finished {
                &&& *final(timer) == old(timer).ticked(delta).restarted()
                &&& final(animation).count == (old(animation).count + 1) % (old(animation).frames(
                    keys.facing(),
                ).len() as int)
                &&& frame == Some(
                    old(animation).frames(keys.facing())[final(animation).count as int],
                )
            } else {
                &&& *final(timer) == old(timer).ticked(delta)
                &&& final(animation).count == old(animation).count
                &&& frame is None
            }
        },
{
    let mut facing = CardinalDirection::Stationary;
    let mut dx: i32 = 0;
    let mut dy: i32 = 0;
    if keys.left {
        facing = CardinalDirection::West;
        dx = dx - 1;
    }
    if keys.right {
        facing = CardinalDirection::East;
        dx = dx + 1;
    }
    if keys.up {
        facing = CardinalDirection::North;
        dy = dy + 1;
    }
    if keys.down {
        facing = CardinalDirection::South;
        dy = dy - 1;
    }
    match facing {
        CardinalDirection::Stationary => None,
        _ => {
            timer.tick(delta);
            let from = *position;
            assert(dx * step_x == if dx == 0 {
                0int
            } else if dx == 1 {
                step_x as int
            } else {
                -(step_x as int)
            }) by (nonlinear_arith)
                requires
                    -1 <= dx <= 1,
            ;
            assert(dy * step_y == if dy == 0 {
                0int
            } else if dy == 1 {
                step_y as int
            } else {
                -(step_y as int)
            }) by (nonlinear_arith)
                requires
                    -1 <= dy <= 1,
            ;
            position.x = from.x + dx * (step_x as i32);
            position.y = from.y + dy * (step_y as i32);
            *movement = Movement { from, to: *position, direction: facing };
            if timer.finished {
                let frames = match facing {
                    CardinalDirection::North => &animation.up,
                    CardinalDirection::South => &animation.down,
                    CardinalDirection::West => &animation.left,
                    _ => &animation.right,
                };
                let next = (animation.count + 1) % frames.len();
                let frame = frames[next].clone();
                animation.count = next;
                timer.reset();
                Some(frame)
            } else {
                None
            }
        },
    }
}

} // verus!
