use vstd::prelude::*;

use crate::animation::{frames_after, lemma_animation_stays_on_its_frames};
use crate::components::{AnimationIndices, Direction, Movable, Velocity};

verus! {

// ---------------------------------------------------------------------------
// Steering from the arrow keys
// ---------------------------------------------------------------------------

/// Which arrow keys are held down during a frame.
#[derive(Clone, Copy, Debug, PartialEq, Eq, Structural)]
pub struct ArrowKeys {
    pub left: bool,
    pub right: bool,
    pub down: bool,
    pub up: bool,
}

/// The hero's step on the horizontal axis: left wins over right.
pub open spec fn horizontal_step(keys: ArrowKeys) -> int {
    if keys.left {
        -1
    } else if keys.right {
        1
    } else {
        0
    }
}

/// The hero's step on the vertical axis: down wins over up.
pub open spec fn vertical_step(keys: ArrowKeys) -> int {
    if keys.down {
        -1
    } else if keys.up {
        1
    } else {
        0
    }
}

/// The way the hero faces after a frame: a held vertical key decides,
/// else a held horizontal key, else the hero keeps facing as before.
pub open spec fn facing_after(keys: ArrowKeys, current: Direction) -> Direction {
    if keys.down {
        Direction::Down
    } else if keys.up {
        Direction::Up
    } else if keys.left {
        Direction::Left
    } else if keys.right {
        Direction::Right
    } else {
        current
    }
}

/// The hero's velocity and facing after a frame with `keys` held.
pub open spec fn steered(keys: ArrowKeys, current: Direction) -> (Velocity, Direction) {
    (
        Velocity { x: horizontal_step(keys) as i32, y: vertical_step(keys) as i32 },
        facing_after(keys, current),
    )
}

/// Sets the hero's velocity and facing from the arrow keys held this frame.
///
/// Left is checked before right and down before up; the vertical keys are
/// handled after the horizontal ones, so they decide the facing when both
/// axes are held. With no key held the hero stops and keeps its facing.
pub fn steer(keys: ArrowKeys, current: Direction) -> (res: (Velocity, Direction))
    ensures
        res.0.x == horizontal_step(keys),
        res.0.y == vertical_step(keys),
        res.1 == facing_after(keys, current),
        res == steered(keys, current),
        keys.left ==> res.0.x == -1,
        !keys.left && keys.right ==> res.0.x == 1,
        !keys.left && !keys.right ==> res.0.x == 0,
        keys.down ==> res.0.y == -1,
        !keys.down && keys.up ==> res.0.y == 1,
        !keys.down && !keys.up ==> res.0.y == 0,
        keys.down ==> res.1 == Direction::Down,
        !keys.down && keys.up ==> res.1 == Direction::Up,
        !keys.down && !keys.up && keys.left ==> res.1 == Direction::Left,
        !keys.down && !keys.up && !keys.left && keys.right ==> res.1 == Direction::Right,
        !keys.down && !keys.up && !keys.left && !keys.right ==> res.1 == current,
{
    let mut direction = current;
    let x: i32;
    let y: i32;
    if keys.left {
        direction = Direction::Left;
        x = -1;
    } else if keys.right {
        direction = Direction::Right;
        x = 1;
    } else {
        x = 0;
    }
    if keys.down {
        direction = Direction::Down;
        y = -1;
    } else if keys.up {
        direction = Direction::Up;
        y = 1;
    } else {
        y = 0;
    }
    (Velocity { x, y }, direction)
}

/// What each arrow key does: the left arrow walks the hero left (velocity
/// -1), the right arrow right (+1) unless left is also held, the down arrow
/// down (-1), the up arrow up (+1) unless down is also held; an axis with no
/// key held stands still. The hero faces down or up when a vertical key
/// decides its vertical step, else left or right when a horizontal key
/// decides its horizontal step, and keeps its facing when no key is held.
pub proof fn lemma_arrow_keys(keys: ArrowKeys, current: Direction)
    ensures
        ({
            let (v, d) = steered(keys, current);
            &&& keys.left ==> v.x == -1
            &&& !keys.left && keys.right ==> v.x == 1
            &&& !keys.left && !keys.right ==> v.x == 0
            &&& keys.down ==> v.y == -1
            &&& !keys.down && keys.up ==> v.y == 1
            &&& !keys.down && !keys.up ==> v.y == 0
            &&& keys.down ==> d == Direction::Down
            &&& !keys.down && keys.up ==> d == Direction::Up
            &&& !keys.down && !keys.up && keys.left ==> d == Direction::Left
            &&& !keys.down && !keys.up && !keys.left && keys.right ==> d == Direction::Right
            &&& !keys.down && !keys.up && !keys.left && !keys.right ==> d == current
        }),
{
}

/// The facing always agrees with the velocity: it points along the vertical
/// step when there is one, else along the horizontal step, and only when
/// the hero stands still does it keep the previous facing.
pub proof fn lemma_facing_follows_velocity(keys: ArrowKeys, current: Direction)
    ensures
        ({
            let (v, d) = steered(keys, current);
            &&& -1 <= v.x <= 1
            &&& -1 <= v.y <= 1
            &&& v.y == -1 ==> d == Direction::Down
            &&& v.y == 1 ==> d == Direction::Up
            &&& v.y == 0 && v.x == -1 ==> d == Direction::Left
            &&& v.y == 0 && v.x == 1 ==> d == Direction::Right
            &&& v.x == 0 && v.y == 0 ==> d == current
        }),
{
}

/// Holding the same keys again changes nothing: steering is idempotent, and
/// once a key is held the previous facing no longer matters.
pub proof fn lemma_steering_idempotent(keys: ArrowKeys, current: Direction, other: Direction)
    ensures
        steered(keys, steered(keys, current).1) == steered(keys, current),
        (keys.left || keys.right || keys.down || keys.up) ==> steered(keys, current)
            == steered(keys, other),
{
}

// ---------------------------------------------------------------------------
// Facing, sprite flipping and lasers
// ---------------------------------------------------------------------------

/// Whether a sprite facing `direction` is drawn mirrored: the side-view
/// sprites face right, so only a left-facing sprite is flipped.
pub fn sprite_flip_x(direction: Direction) -> (flip: bool)
    ensures
        flip == (direction == Direction::Left),
{
    match direction {
        Direction::Left => true,
        _ => false,
    }
}

/// The unit step on each axis pointing the way `direction` faces.
pub open spec fn facing_step(direction: Direction) -> (int, int) {
    match direction {
        Direction::Up => (0, 1),
        Direction::Down => (0, -1),
        Direction::Left => (-1, 0),
        Direction::Right => (1, 0),
    }
}

/// How far, in degrees counter-clockwise, the upward-pointing laser sprite
/// is turned to point the way `direction` faces.
pub open spec fn laser_rotation(direction: Direction) -> int {
    match direction {
        Direction::Up => 0,
        Direction::Down => 180,
        Direction::Left => 90,
        Direction::Right => -90,
    }
}

/// A laser as the hero fires it: its velocity, the turn of its sprite in
/// degrees, and whether it is removed once it leaves the window.
#[derive(Clone, Copy, Debug, PartialEq, Eq, Structural)]
pub struct LaserShot {
    pub velocity: Velocity,
    pub rotation_degrees: i32,
    pub movable: Movable,
}

/// The laser fired by a hero facing `direction`: it flies at two steps per
/// tick the way the hero faces, its sprite is turned that way, and it is
/// removed once it leaves the window.
pub fn laser_shot(direction: Direction) -> (shot: LaserShot)
    ensures
        shot.velocity.x == 2 * facing_step(direction).0,
        shot.velocity.y == 2 * facing_step(direction).1,
        shot.rotation_degrees == laser_rotation(direction),
        shot.movable.auto_despawn,
        direction == Direction::Up ==> shot.velocity == (Velocity { x: 0, y: 2 }) && shot.rotation_degrees == 0,
        direction == Direction::Down ==> shot.velocity == (Velocity { x: 0, y: -2i32 }) && shot.rotation_degrees == 180,
        direction == Direction::Left ==> shot.velocity == (Velocity { x: -2i32, y: 0 }) && shot.rotation_degrees == 90,
        direction == Direction::Right ==> shot.velocity == (Velocity { x: 2, y: 0 }) && shot.rotation_degrees == -90,
{
    let (dx, dy, rot): (i32, i32, i32) = match direction {
        Direction::Up => (0, 1, 0),
        Direction::Down => (0, -1, 180),
        Direction::Left => (-1, 0, 90),
        Direction::Right => (1, 0, -90),
    };
    LaserShot {
        velocity: Velocity { x: 2 * dx, y: 2 * dy },
        rotation_degrees: rot,
        movable: Movable { auto_despawn: true },
    }
}

/// Fires a laser in the frame the fire key goes down, and nothing otherwise.
pub fn fire(direction: Direction, fire_just_pressed: bool) -> (shot: Option<LaserShot>)
    ensures
        shot is Some <==> fire_just_pressed,
        shot matches Some(s) ==> {
            &&& s.velocity.x == 2 * facing_step(direction).0
            &&& s.velocity.y == 2 * facing_step(direction).1
            &&& s.rotation_degrees == laser_rotation(direction)
            &&& s.movable.auto_despawn
        },
{
    if fire_just_pressed {
        Some(laser_shot(direction))
    } else {
        None
    }
}


/// A laser leaves the hero at two steps per tick the way it faces — up
/// (0, 2), down (0, -2), left (-2, 0), right (2, 0) — its sprite, drawn
/// pointing up, turned by 0, 180, 90 and -90 degrees respectively.
pub proof fn lemma_laser_for_each_facing(direction: Direction)
    ensures
        ({
            let (sx, sy) = facing_step(direction);
            let v = (2 * sx, 2 * sy);
            let r = laser_rotation(direction);
            &&& direction == Direction::Up ==> v == (0int, 2int) && r == 0
            &&& direction == Direction::Down ==> v == (0int, -2int) && r == 180
            &&& direction == Direction::Left ==> v == (-2int, 0int) && r == 90
            &&& direction == Direction::Right ==> v == (2int, 0int) && r == -90
        }),
{
}

/// The direction of the up-pointing vector (0, 1) after a counter-clockwise
/// turn by `degrees`, a multiple of a quarter turn.
pub open spec fn turned_up(degrees: int) -> (int, int) {
    let quarter = ((degrees % 360) + 360) % 360;
    if quarter == 0 {
        (0, 1)
    } else if quarter == 90 {
        (-1, 0)
    } else if quarter == 180 {
        (0, -1)
    } else {
        (1, 0)
    }
}

/// A fired laser flies the way its sprite points: its velocity is twice the
/// up vector turned by the sprite's rotation, so it never flies sideways.
pub proof fn lemma_laser_flies_where_it_points(direction: Direction)
    ensures
        ({
            let rot = laser_rotation(direction);
            let (ux, uy) = turned_up(rot);
            &&& 2 * ux == 2 * facing_step(direction).0
            &&& 2 * uy == 2 * facing_step(direction).1
            &&& rot % 90 == 0
        }),
{
}

// ---------------------------------------------------------------------------
// Choosing the hero's sprite sheet
// ---------------------------------------------------------------------------

/// The sheet of the hero standing still, seen from the front, back and side.
pub const IDLE_SHEET: usize = 0;

/// The sheet of the hero walking away from the viewer.
pub const WALK_BACK_SHEET: usize = 1;

/// The sheet of the hero walking towards the viewer.
pub const WALK_FRONT_SHEET: usize = 2;

/// The sheet of the hero walking sideways.
pub const WALK_SIDE_SHEET: usize = 3;

/// The first frame of the idle sheet.
pub const IDLE_FIRST_FRAME: usize = 0;

/// The last frame of the idle sheet.
pub const IDLE_LAST_FRAME: usize = 2;

/// The last frame of each walking sheet, whose first frame is 0.
pub const WALK_LAST_FRAME: usize = 5;

/// The walking sheet for a hero facing `direction`.
pub open spec fn walk_sheet(direction: Direction) -> usize {
    match direction {
        Direction::Up => WALK_BACK_SHEET,
        Direction::Down => WALK_FRONT_SHEET,
        _ => WALK_SIDE_SHEET,
    }
}

/// The frame of the idle sheet that shows a hero facing `direction`.
pub open spec fn idle_frame(direction: Direction) -> usize {
    match direction {
        Direction::Up => 2,
        Direction::Down => 1,
        _ => 0,
    }
}

/// The walking sheet for a hero facing `direction`.
pub fn walk_sheet_for(direction: Direction) -> (sheet: usize)
    ensures
        sheet == walk_sheet(direction),
        direction == Direction::Up ==> sheet == 1,
        direction == Direction::Down ==> sheet == 2,
        direction == Direction::Left || direction == Direction::Right ==> sheet == 3,
{
    match direction {
        Direction::Up => WALK_BACK_SHEET,
        Direction::Down => WALK_FRONT_SHEET,
        _ => WALK_SIDE_SHEET,
    }
}

/// What the hero shows next: the sheet, the frame of it, and, where it
/// changes, the frames its animation runs through.
#[derive(Clone, Copy, Debug, PartialEq, Eq, Structural)]
pub struct SheetChoice {
    pub sheet: usize,
    pub frame: usize,
    pub indices: Option<AnimationIndices>,
}

/// What the hero shows next, from its facing, whether it moves, and whether
/// it already shows the walking sheet for its facing.
///
/// A moving hero shows the walking sheet for its facing from its first
/// frame, with an animation over frames 0 to 5; if it already shows that
/// sheet nothing changes (`None`), so its walk is not restarted every frame.
/// A hero standing still shows the idle frame for its facing, and its
/// animation frames are left as they are.
pub open spec fn sheet_choice(direction: Direction, moving: bool, shows_walk_sheet: bool) -> Option<
    SheetChoice,
> {
    if moving && shows_walk_sheet {
        None
    } else if moving {
        Some(
            SheetChoice {
                sheet: walk_sheet(direction),
                frame: 0,
                indices: Some(AnimationIndices { first: 0, last: WALK_LAST_FRAME }),
            },
        )
    } else {
        Some(SheetChoice { sheet: IDLE_SHEET, frame: idle_frame(direction), indices: None })
    }
}

/// Chooses the hero's sprite sheet from its facing and whether it moves, as
/// `sheet_choice` says. `shows_walk_sheet` tells whether the hero already
/// shows the walking sheet for `direction`; it matters only when it moves.
pub fn choose_sheet(direction: Direction, moving: bool, shows_walk_sheet: bool) -> (choice:
    Option<SheetChoice>)
    ensures
        choice == sheet_choice(direction, moving, shows_walk_sheet),
        moving && shows_walk_sheet ==> choice is None,
        moving && !shows_walk_sheet ==> (choice matches Some(c) && c.frame == 0 && c.indices
            == Some(AnimationIndices { first: 0, last: 5 })),
        moving && !shows_walk_sheet && direction == Direction::Up ==> (choice matches Some(c) && c.sheet == 1),
        moving && !shows_walk_sheet && direction == Direction::Down ==> (choice matches Some(c) && c.sheet == 2),
        moving && !shows_walk_sheet && (direction == Direction::Left || direction
            == Direction::Right) ==> (choice matches Some(c) && c.sheet == 3),
        !moving && direction == Direction::Up ==> choice == Some(
            SheetChoice { sheet: 0, frame: 2, indices: None },
        ),
        !moving && direction == Direction::Down ==> choice == Some(
            SheetChoice { sheet: 0, frame: 1, indices: None },
        ),
        !moving && (direction == Direction::Left || direction == Direction::Right) ==> choice
            == Some(SheetChoice { sheet: 0, frame: 0, indices: None }),
{
    if moving {
        if shows_walk_sheet {
            return None;
        }
        let indices = AnimationIndices { first: 0, last: WALK_LAST_FRAME };
        Some(
            SheetChoice {
                sheet: walk_sheet_for(direction),
                frame: indices.first,
                indices: Some(indices),
            },
        )
    } else {
        let frame: usize = match direction {
            Direction::Up => 2,
            Direction::Down => 1,
            _ => 0,
        };
        Some(SheetChoice { sheet: IDLE_SHEET, frame, indices: None })
    }
}

/// Which sheet and frame the hero is shown with. Standing still it shows
/// the idle sheet (0): frame 2, its back, facing up; frame 1, its front,
/// facing down; frame 0, its side, facing left or right; and its animation
/// frames are kept. Moving, it shows from frame 0 the walking sheet of its
/// facing — 1 (back) up, 2 (front) down, 3 (side) left or right — animated
/// over frames 0 to 5, unless it already shows that sheet, when nothing
/// changes.
pub proof fn lemma_sheet_for_each_facing(direction: Direction, moving: bool, shows_walk_sheet: bool)
    ensures
        ({
            let choice = sheet_choice(direction, moving, shows_walk_sheet);
            &&& moving && shows_walk_sheet ==> choice is None
            &&& moving && !shows_walk_sheet ==> (choice matches Some(c) && c.frame == 0
                && c.indices == Some(AnimationIndices { first: 0, last: 5 }))
            &&& moving && !shows_walk_sheet && direction == Direction::Up ==> (choice matches Some(c) && c.sheet == 1)
            &&& moving && !shows_walk_sheet && direction == Direction::Down ==> (choice matches Some(c) && c.sheet == 2)
            &&& moving && !shows_walk_sheet && (direction == Direction::Left || direction
                == Direction::Right) ==> (choice matches Some(c) && c.sheet == 3)
            &&& !moving && direction == Direction::Up ==> choice == Some(
                SheetChoice { sheet: 0, frame: 2, indices: None },
            )
            &&& !moving && direction == Direction::Down ==> choice == Some(
                SheetChoice { sheet: 0, frame: 1, indices: None },
            )
            &&& !moving && (direction == Direction::Left || direction == Direction::Right) ==> choice
                == Some(SheetChoice { sheet: 0, frame: 0, indices: None })
        }),
{
}

/// The sheet and frame a hero shows after `choice`, starting from `sheet`
/// and `frame`.
pub open spec fn shown_after(sheet: usize, frame: usize, choice: Option<SheetChoice>) -> (usize, usize) {
    match choice {
        Some(c) => (c.sheet, c.frame),
        None => (sheet, frame),
    }
}

/// Choosing a sheet settles at once: whatever sheet a moving hero showed,
/// after one choice it shows the walking sheet of its facing and the next
/// choice changes nothing; a hero standing still is shown its idle frame,
/// the same however often the choice is made.
pub proof fn lemma_sheet_choice_settles(direction: Direction, moving: bool, sheet: usize, frame: usize)
    ensures
        ({
            let first = sheet_choice(direction, moving, sheet == walk_sheet(direction));
            let (next_sheet, next_frame) = shown_after(sheet, frame, first);
            let again = sheet_choice(direction, moving, next_sheet == walk_sheet(direction));
            &&& moving ==> next_sheet == walk_sheet(direction) && again is None
            &&& !moving ==> next_sheet == IDLE_SHEET && next_frame == idle_frame(direction)
                && again == first
        }),
{
}


/// A hero that starts walking shows only frames of its walking sheet: the
/// walk starts on frame 0 and, however often its clock fires, stays within
/// frames 0 to 5.
pub proof fn lemma_walk_stays_on_its_sheet(direction: Direction, n: nat)
    ensures
        ({
            let choice = sheet_choice(direction, true, false).unwrap();
            let indices = choice.indices.unwrap();
            &&& choice.sheet == walk_sheet(direction)
            &&& 0 <= frames_after(choice.frame as int, indices, n) <= WALK_LAST_FRAME
        }),
{
    let indices = AnimationIndices { first: 0, last: WALK_LAST_FRAME };
    lemma_animation_stays_on_its_frames(0, indices, n);
}

// ---------------------------------------------------------------------------
// The hero as it enters the game
// ---------------------------------------------------------------------------

/// The state the hero starts the game in.
#[derive(Clone, Copy, Debug, PartialEq, Eq, Structural)]
pub struct HeroStart {
    pub sheet: usize,
    pub frame: usize,
    pub indices: AnimationIndices,
    pub velocity: Velocity,
    pub movable: Movable,
    pub direction: Direction,
    pub flip_x: bool,
}

/// The hero enters standing still, facing down, on the first frame of the
/// idle sheet with an animation over its frames 0 to 2, not mirrored, and
/// is never removed for leaving the window.
pub fn hero_start() -> (start: HeroStart)
    ensures
        start.sheet == IDLE_SHEET,
        start.indices == (AnimationIndices { first: IDLE_FIRST_FRAME, last: IDLE_LAST_FRAME }),
        start.sheet == 0,
        start.frame == 0,
        start.indices == (AnimationIndices { first: 0, last: 2 }),
        start.frame == start.indices.first,
        start.velocity == (Velocity { x: 0, y: 0 }),
        !start.movable.auto_despawn,
        start.direction == Direction::Down,
        !start.flip_x,
{
    let indices = AnimationIndices { first: IDLE_FIRST_FRAME, last: IDLE_LAST_FRAME };
    HeroStart {
        sheet: IDLE_SHEET,
        frame: indices.first,
        indices,
        velocity: Velocity::still(),
        movable: Movable { auto_despawn: false },
        direction: Direction::Down,
        flip_x: false,
    }
}

} // verus!
