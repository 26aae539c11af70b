use vstd::prelude::*;

verus! {

/// Timing of an attack, in ticks: windup without a hitbox, frames with a
/// live hitbox, and vulnerability afterwards. `on_block` and `on_hit` are
/// carried for the hit-stun logic that reads them.
#[derive(Clone, Copy, Debug, PartialEq, Eq, Structural)]
pub struct FrameData {
    pub startup: i16,
    pub active: i16,
    pub recovery: i16,
    pub on_block: i16,
    pub on_hit: i16,
}

/// Phase of a running attack.
#[derive(Clone, Copy, Debug, PartialEq, Eq, Structural)]
pub enum AttackState {
    Startup,
    Active,
    Recovery,
}

/// Which attack of a character's set is meant.
#[derive(Clone, Copy, Debug, PartialEq, Eq, Structural)]
pub enum AttackType {
    Slash,
    Kick,
}

/// An axis-aligned rectangle used for collision.
#[derive(Clone, Copy, Debug, PartialEq, Eq, Structural)]
pub struct HitBox {
    pub x: i32,
    pub y: i32,
    pub width: i32,
    pub height: i32,
}

/// Length of a whole attack, in ticks.
pub open spec fn total_frames(fd: FrameData) -> int {
    fd.startup + fd.active + fd.recovery
}

/// Frame data that an attack can run on: no negative window, at least one
/// tick in all, and a length that the frame counter can hold.
pub open spec fn valid_frame_data(fd: FrameData) -> bool {
    &&& fd.startup >= 0
    &&& fd.active >= 0
    &&& fd.recovery >= 0
    &&& 0 < total_frames(fd) <= i16::MAX
}

/// Phase of an attack after `frame` ticks, by the cumulative thresholds of
/// its frame data.
pub open spec fn phase_of(fd: FrameData, frame: int) -> AttackState {
    if frame > fd.startup + fd.active {
        AttackState::Recovery
    } else if frame > fd.startup {
        AttackState::Active
    } else {
        AttackState::Startup
    }
}

/// Whether a rectangle can be moved by an offset without leaving `i32`.
pub open spec fn can_translate(h: HitBox, dx: int, dy: int) -> bool {
    i32::MIN <= h.x + dx <= i32::MAX && i32::MIN <= h.y + dy <= i32::MAX
}

/// A rectangle moved by an offset.
pub open spec fn translated(h: HitBox, dx: int, dy: int) -> HitBox {
    HitBox { x: (h.x + dx) as i32, y: (h.y + dy) as i32, width: h.width, height: h.height }
}

impl FrameData {
    pub fn new(startup: i16, active: i16, recovery: i16, on_block: i16, on_hit: i16) -> (r: Self)
        ensures
            r == (FrameData { startup, active, recovery, on_block, on_hit }),
    {
        Self { startup, active, recovery, on_block, on_hit }
    }

    /// Whether an attack can run on this frame data.
    pub fn is_valid(&self) -> (r: bool)
        ensures
            r == valid_frame_data(*self),
    {
        let total: i32 = self.startup as i32 + self.active as i32 + self.recovery as i32;
        self.startup >= 0 && self.active >= 0 && self.recovery >= 0 && 0 < total && total
            <= i16::MAX as i32
    }

    /// Length of a whole attack, in ticks.
    pub fn total(&self) -> (r: i16)
        requires
            valid_frame_data(*self),
        ensures
            r == total_frames(*self),
    {
        self.startup + self.active + self.recovery
    }

    /// Phase after `frame` ticks.
    pub fn phase_at(&self, frame: i16) -> (r: AttackState)
        ensures
            r == phase_of(*self, frame as int),
    {
        if frame as i32 > self.startup as i32 + self.active as i32 {
            AttackState::Recovery
        } else if frame > self.startup {
            AttackState::Active
        } else {
            AttackState::Startup
        }
    }
}

impl AttackType {
    /// Index of the attack in a character's table of attacks.
    pub fn into_uszie(&self) -> (r: usize)
        ensures
            r == (match *self {
                AttackType::Slash => 0usize,
                AttackType::Kick => 1usize,
            }),
    {
        match self {
            AttackType::Slash => 0,
            AttackType::Kick => 1,
        }
    }
}

impl HitBox {
    pub fn new(x: i32, y: i32, width: i32, height: i32) -> (r: Self)
        ensures
            r == (HitBox { x, y, width, height }),
    {
        HitBox { x, y, width, height }
    }

    /// This rectangle moved by an offset.
    pub fn translate(&self, dx: i32, dy: i32) -> (r: Self)
        requires
            can_translate(*self, dx as int, dy as int),
        ensures
            r == translated(*self, dx as int, dy as int),
    {
        HitBox { x: self.x + dx, y: self.y + dy, width: self.width, height: self.height }
    }
}

} // verus!
