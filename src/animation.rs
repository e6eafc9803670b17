//! The actor's mouth animation and facing, in whole degrees.
use vstd::prelude::*;
use crate::geometry::Direction;

verus! {

/// Widest mouth opening, in degrees.
pub const MOUTH_MAX: i32 = 70;

/// Narrowest mouth opening, in degrees.
pub const MOUTH_MIN: i32 = 5;

/// The mouth state after one tick: it opens by `speed` degrees until it
/// reaches `MOUTH_MAX`, then closes by `speed` until it reaches `MOUTH_MIN`,
/// clamping at each end and turning round there.
pub open spec fn next_mouth(opening: bool, angle: int, speed: int) -> (bool, int) {
    if opening {
        if angle + speed >= MOUTH_MAX {
            (false, MOUTH_MAX as int)
        } else {
            (true, angle + speed)
        }
    } else {
        if angle - speed <= MOUTH_MIN {
            (true, MOUTH_MIN as int)
        } else {
            (false, angle - speed)
        }
    }
}

/// Advances the mouth animation by one tick.
pub fn update_pacman_mouth_angle(
    pacman_mouth_opening: &mut bool,
    pacman_mouth_angle: &mut i32,
    pacman_mouth_speed: i32,
)
    requires
        i32::MIN <= *old(pacman_mouth_angle) + pacman_mouth_speed <= i32::MAX,
        i32::MIN <= *old(pacman_mouth_angle) - pacman_mouth_speed <= i32::MAX,
    ensures
        (*final(pacman_mouth_opening), *final(pacman_mouth_angle) as int) == next_mouth(
            *old(pacman_mouth_opening),
            *old(pacman_mouth_angle) as int,
            pacman_mouth_speed as int,
        ),
{
    if *pacman_mouth_opening {
        *pacman_mouth_angle = *pacman_mouth_angle + pacman_mouth_speed;
        if *pacman_mouth_angle >= MOUTH_MAX {
            *pacman_mouth_angle = MOUTH_MAX;
            *pacman_mouth_opening = false;
        }
    } else {
        *pacman_mouth_angle = *pacman_mouth_angle - pacman_mouth_speed;
        if *pacman_mouth_angle <= MOUTH_MIN {
            *pacman_mouth_angle = MOUTH_MIN;
            *pacman_mouth_opening = true;
        }
    }
}

/// The heading the actor faces, in degrees clockwise from the positive x
/// axis (screen y grows downwards): right 0, down 90, left 180, up -90; an
/// actor standing still faces right.
pub open spec fn facing(dir: Direction) -> int {
    match dir {
        Direction::Right => 0,
        Direction::Left => 180,
        Direction::Up => -90,
        Direction::Down => 90,
        Direction::Still => 0,
    }
}

/// The heading the actor faces for `dir`.
pub fn facing_angle(dir: Direction) -> (r: i32)
    ensures
        r == facing(dir),
{
    match dir {
        Direction::Right => 0,
        Direction::Left => 180,
        Direction::Up => -90,
        Direction::Down => 90,
        Direction::Still => 0,
    }
}

} // verus!
