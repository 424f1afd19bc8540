//! Static platforms and the one-sided landing rule that bodies obey.
use vstd::prelude::*;
use crate::fixed::WORLD_LIMIT;
use crate::geometry::Rect;

verus! {

/// Downward speed a body gains each frame.
pub const GRAVITY: i64 = 500;

/// Greatest downward speed of a body.
pub const TERMINAL_SPEED: i64 = 15_000;

/// Height of the hard floor under the whole world.
pub const FLOOR_Y: i64 = 450_000;

/// A static rectangle that bodies can land on from above. It never
/// changes after it is made.
#[derive(Clone, Copy, Debug, PartialEq, Eq, Structural)]
pub struct Platform {
    pub x: i64,
    pub y: i64,
    pub width: i64,
    pub height: i64,
}

impl Platform {
    /// The platform lies inside the representable world.
    pub open spec fn wf(self) -> bool {
        &&& -WORLD_LIMIT <= self.x <= WORLD_LIMIT
        &&& -WORLD_LIMIT <= self.y <= WORLD_LIMIT
        &&& 0 <= self.width <= WORLD_LIMIT
        &&& 0 <= self.height <= WORLD_LIMIT
    }

    /// The platform as a rectangle.
    pub open spec fn rect_spec(self) -> Rect {
        Rect { x: self.x, y: self.y, w: self.width, h: self.height }
    }

    /// A platform with the given left edge, top edge and extent.
    pub fn new(x: i64, y: i64, width: i64, height: i64) -> (p: Platform)
        ensures
            p == (Platform { x, y, width, height }),
    {
        Platform { x, y, width, height }
    }

    /// The platform as a rectangle.
    pub fn rect(&self) -> (r: Rect)
        ensures
            r == self.rect_spec(),
    {
        Rect { x: self.x, y: self.y, w: self.width, h: self.height }
    }
}

/// Every platform of the sequence is well formed.
pub open spec fn all_platforms_wf(platforms: Seq<Platform>) -> bool {
    forall|i: int| 0 <= i < platforms.len() ==> (#[trigger] platforms[i]).wf()
}

/// Vertical speed after one frame of gravity, held at terminal speed.
pub open spec fn fall_speed(vel_y: int) -> int {
    if vel_y + GRAVITY > TERMINAL_SPEED {
        TERMINAL_SPEED as int
    } else {
        vel_y + GRAVITY
    }
}

/// A falling body lands on a platform it overlaps when its top edge is
/// still above the platform's top edge. Bodies pass through platforms
/// from below and from the side.
pub open spec fn lands_on(body: Rect, vel_y: int, platform: Platform) -> bool {
    &&& body.overlaps_spec(platform.rect_spec())
    &&& vel_y > 0
    &&& body.y < platform.y
}

/// Index of the first platform at or after `start` that the body lands
/// on, if there is one.
pub open spec fn first_landing_from(
    body: Rect,
    vel_y: int,
    platforms: Seq<Platform>,
    start: int,
) -> Option<int>
    decreases platforms.len() - start,
{
    if start < 0 || start >= platforms.len() {
        None
    } else if lands_on(body, vel_y, platforms[start]) {
        Some(start)
    } else {
        first_landing_from(body, vel_y, platforms, start + 1)
    }
}

/// Index of the first platform, in order, that the body lands on.
pub open spec fn first_landing(body: Rect, vel_y: int, platforms: Seq<Platform>) -> Option<int> {
    first_landing_from(body, vel_y, platforms, 0)
}

/// What [`first_landing_from`] finds is in range and is landed on, no
/// earlier platform from `start` on is, and nothing is found only when
/// no platform from `start` on is landed on.
pub proof fn lemma_first_landing_from(body: Rect, vel_y: int, platforms: Seq<Platform>, start: int)
    requires
        0 <= start,
    ensures
        match first_landing_from(body, vel_y, platforms, start) {
            Some(i) => {
                &&& start <= i < platforms.len()
                &&& lands_on(body, vel_y, platforms[i])
                &&& forall|j: int| start <= j < i ==> !lands_on(body, vel_y, #[trigger] platforms[j])
            },
            None => forall|j: int|
                start <= j < platforms.len() ==> !lands_on(body, vel_y, #[trigger] platforms[j]),
        },
    decreases platforms.len() - start,
{
    if start < platforms.len() && !lands_on(body, vel_y, platforms[start]) {
        lemma_first_landing_from(body, vel_y, platforms, start + 1);
    }
}

/// Finds the first platform, in order, that the body lands on.
pub fn find_landing(body: &Rect, vel_y: i64, platforms: &[Platform]) -> (r: Option<usize>)
    requires
        body.wf(),
        all_platforms_wf(platforms@),
    ensures
        match r {
            Some(i) => first_landing(*body, vel_y as int, platforms@) == Some(i as int),
            None => first_landing(*body, vel_y as int, platforms@) is None,
        },
{
    let mut i: usize = 0;
    while i < platforms.len()
        invariant
            0 <= i <= platforms.len(),
            body.wf(),
            all_platforms_wf(platforms@),
            first_landing(*body, vel_y as int, platforms@) == first_landing_from(
                *body,
                vel_y as int,
                platforms@,
                i as int,
            ),
        decreases platforms.len() - i,
    {
        let platform = platforms[i];
        assert(platform.wf());
        if vel_y > 0 && body.y < platform.y && body.overlaps(&platform.rect()) {
            return Some(i);
        }
        i += 1;
    }
    None
}

/// Where a body comes to rest within one frame.
#[derive(Clone, Copy, Debug, PartialEq, Eq, Structural)]
pub struct Footing {
    /// Top edge of the body after landing and floor are applied.
    pub y: i64,
    /// Vertical speed after landing and floor are applied.
    pub vel_y: i64,
    /// The body stands on a platform or on the floor.
    pub on_ground: bool,
}

/// Landing, then floor: a body that lands on a platform is set on top of
/// the first such platform with no vertical speed; after that, a body
/// whose bottom edge is below the floor is set on the floor with no
/// vertical speed.
pub open spec fn footing_spec(body: Rect, vel_y: int, platforms: Seq<Platform>) -> Footing {
    let landed = first_landing(body, vel_y, platforms);
    let y = match landed {
        Some(i) => platforms[i].y - body.h,
        None => body.y as int,
    };
    let speed = match landed {
        Some(_) => 0,
        None => vel_y,
    };
    if y + body.h > FLOOR_Y {
        Footing { y: (FLOOR_Y - body.h) as i64, vel_y: 0, on_ground: true }
    } else {
        Footing { y: y as i64, vel_y: speed as i64, on_ground: landed is Some }
    }
}

/// Resolves landing and floor for a body that has just moved.
pub fn footing(body: &Rect, vel_y: i64, platforms: &[Platform]) -> (r: Footing)
    requires
        body.wf(),
        all_platforms_wf(platforms@),
    ensures
        r == footing_spec(*body, vel_y as int, platforms@),
        r.y + body.h <= FLOOR_Y,
        r.y >= body.y || r.y >= -WORLD_LIMIT - body.h,
        r.vel_y == vel_y || r.vel_y == 0,
{
    let landed = find_landing(body, vel_y, platforms);
    proof {
        lemma_first_landing_from(*body, vel_y as int, platforms@, 0);
    }
    let mut y: i64 = body.y;
    let mut speed: i64 = vel_y;
    let mut on_ground = false;
    if let Some(i) = landed {
        assert(platforms@[i as int].wf());
        y = platforms[i].y - body.h;
        speed = 0;
        on_ground = true;
    }
    if y + body.h > FLOOR_Y {
        y = FLOOR_Y - body.h;
        speed = 0;
        on_ground = true;
    }
    Footing { y, vel_y: speed, on_ground }
}

/// A body that has found its footing is not below the floor, is no
/// higher than it was or than the top of the lowest possible platform
/// allows, and either keeps its vertical speed or has lost it.
pub proof fn lemma_footing_bounds(body: Rect, vel_y: int, platforms: Seq<Platform>)
    requires
        body.wf(),
        all_platforms_wf(platforms),
        i64::MIN <= vel_y <= i64::MAX,
    ensures
        footing_spec(body, vel_y, platforms).y + body.h <= FLOOR_Y,
        footing_spec(body, vel_y, platforms).y >= body.y || footing_spec(body, vel_y, platforms).y
            >= -WORLD_LIMIT - body.h,
        footing_spec(body, vel_y, platforms).vel_y == vel_y || footing_spec(
            body,
            vel_y,
            platforms,
        ).vel_y == 0,
{
    lemma_first_landing_from(body, vel_y, platforms, 0);
    match first_landing(body, vel_y, platforms) {
        Some(i) => {
            assert(platforms[i].wf());
        },
        None => {},
    }
}

} // verus!
