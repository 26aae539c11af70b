use vstd::prelude::*;
use vstd::arithmetic::div_mod::{lemma_mod_self_0, lemma_small_mod};
use crate::attack::{
    AttackState, FrameData, HitBox, can_translate, phase_of, total_frames, translated,
    valid_frame_data,
};

verus! {

/// Abstract state of a running attack.
pub struct AttackView {
    pub base: HitBox,
    pub hitbox: HitBox,
    pub frames: FrameData,
    pub state: AttackState,
    pub frame_count: int,
    pub anim_frame: int,
    pub anim_frames: int,
}

/// The invariant of a running attack: valid timing, a frame counter inside
/// the attack, an animation cursor inside the animation, and a phase that
/// agrees with the counter once the attack has started.
pub open spec fn attack_wf(v: AttackView) -> bool {
    &&& valid_frame_data(v.frames)
    &&& 0 <= v.frame_count < total_frames(v.frames)
    &&& 1 <= v.anim_frames <= i16::MAX
    &&& 0 <= v.anim_frame < v.anim_frames
    &&& v.frame_count > 0 ==> v.state == phase_of(v.frames, v.frame_count)
}

/// The attack as it is before its first tick, and after each completion.
pub open spec fn at_rest(v: AttackView) -> AttackView {
    AttackView { hitbox: v.base, frame_count: 0, anim_frame: 0, ..v }
}

/// One tick of an attack: the counter and the animation cursor move on, the
/// phase follows the counter, a change of phase puts the hitbox back on its
/// base, and the last tick of the attack brings it back to rest. The flag
/// tells whether the attack completed on this tick.
pub open spec fn tick(v: AttackView) -> (AttackView, bool) {
    let f = v.frame_count + 1;
    let state = phase_of(v.frames, f);
    let hitbox = if state == v.state { v.hitbox } else { v.base };
    let anim = (v.anim_frame + 1) % v.anim_frames;
    if f == total_frames(v.frames) {
        (AttackView { state, ..at_rest(v) }, true)
    } else {
        (AttackView { hitbox, state, frame_count: f, anim_frame: anim, ..v }, false)
    }
}

/// The attack after `k` ticks.
pub open spec fn run(v: AttackView, k: nat) -> AttackView
    decreases k,
{
    if k == 0 {
        v
    } else {
        tick(run(v, (k - 1) as nat)).0
    }
}

/// A running attack: its timing, its hitbox at rest and as placed in the
/// world, its phase, and the cursor into its animation.
pub struct Attack {
    base_hitbox: HitBox,
    actual: HitBox,
    frame_data: FrameData,
    state: AttackState,
    frame_count: i16,
    animation_frame: i16,
    animation_frames: i16,
}

impl View for Attack {
    type V = AttackView;

    closed spec fn view(&self) -> AttackView {
        AttackView {
            base: self.base_hitbox,
            hitbox: self.actual,
            frames: self.frame_data,
            state: self.state,
            frame_count: self.frame_count as int,
            anim_frame: self.animation_frame as int,
            anim_frames: self.animation_frames as int,
        }
    }
}

impl Attack {
    /// An attack at rest, in its startup phase, or `None` where the frame data
    /// cannot run or the animation has no frame.
    pub fn new(base_hitbox: HitBox, animation_frames: i16, frame_data: FrameData) -> (r: Option<
        Self,
    >)
        ensures
            r is Some <==> valid_frame_data(frame_data) && animation_frames >= 1,
            r matches Some(a) ==> attack_wf(a@) && a@ == (AttackView {
                base: base_hitbox,
                hitbox: base_hitbox,
                frames: frame_data,
                state: AttackState::Startup,
                frame_count: 0,
                anim_frame: 0,
                anim_frames: animation_frames as int,
            }),
    {
        if !frame_data.is_valid() || animation_frames < 1 {
            return None;
        }
        Some(
            Attack {
                actual: base_hitbox,
                base_hitbox,
                frame_data,
                state: AttackState::Startup,
                frame_count: 0,
                animation_frame: 0,
                animation_frames,
            },
        )
    }

    /// Moves the hitbox to the attacker's position: it becomes the base
    /// hitbox moved by the offset. Meant to be called on every tick of the
    /// attack.
    pub fn shift_actual(&mut self, shift_x: i32, shift_y: i32)
        requires
            can_translate(old(self)@.base, shift_x as int, shift_y as int),
        ensures
            final(self)@ == (AttackView {
                hitbox: translated(old(self)@.base, shift_x as int, shift_y as int),
                ..old(self)@
            }),
    {
        self.actual = self.base_hitbox.translate(shift_x, shift_y);
    }

    /// Puts the hitbox back on its base.
    pub fn reset_actual(&mut self)
        ensures
            final(self)@ == (AttackView { hitbox: old(self)@.base, ..old(self)@ }),
    {
        self.actual = self.base_hitbox;
    }

    /// Advances the attack by one tick; returns whether it completed on this
    /// tick, after which it is at rest again.
    pub fn update(&mut self) -> (r: bool)
        requires
            attack_wf(old(self)@),
        ensures
            attack_wf(final(self)@),
            (final(self)@, r) == tick(old(self)@),
    {
        proof {
            let a = self.animation_frame as int;
            let n = self.animation_frames as int;
            if a + 1 < n {
                lemma_small_mod((a + 1) as nat, n as nat);
            } else {
                lemma_mod_self_0(n);
            }
        }
        self.frame_count = self.frame_count + 1;
        self.animation_frame = if self.animation_frame + 1 >= self.animation_frames {
            0
        } else {
            self.animation_frame + 1
        };
        let next = self.frame_data.phase_at(self.frame_count);
        if next != self.state {
            self.actual = self.base_hitbox;
        }
        self.state = next;
        if self.frame_count == self.frame_data.total() {
            self.reset_actual();
            self.frame_count = 0;
            self.animation_frame = 0;
            return true;
        }
        false
    }

    /// Cancels the attack: it is at rest again, in its startup phase.
    pub fn reset(&mut self)
        requires
            attack_wf(old(self)@),
        ensures
            attack_wf(final(self)@),
            final(self)@ == (AttackView { state: AttackState::Startup, ..at_rest(old(self)@) }),
    {
        self.actual = self.base_hitbox;
        self.frame_count = 0;
        self.animation_frame = 0;
        self.state = AttackState::Startup;
    }

    pub fn state(&self) -> (r: AttackState)
        ensures
            r == self@.state,
    {
        self.state
    }

    pub fn frame_count(&self) -> (r: i16)
        ensures
            r == self@.frame_count,
    {
        self.frame_count
    }

    /// Index of the animation frame to draw on this tick.
    pub fn animation_frame(&self) -> (r: i16)
        ensures
            r == self@.anim_frame,
    {
        self.animation_frame
    }

    pub fn frame_data(&self) -> (r: FrameData)
        ensures
            r == self@.frames,
    {
        self.frame_data
    }

    pub fn base_hitbox(&self) -> (r: HitBox)
        ensures
            r == self@.base,
    {
        self.base_hitbox
    }

    /// Whether the hitbox may be used for collision: only while active.
    pub fn is_hitbox_active(&self) -> (r: bool)
        ensures
            r == (self@.state == AttackState::Active),
    {
        self.state == AttackState::Active
    }

    /// The hitbox as placed in the world, while the attack is active.
    pub fn current_hitbox(&self) -> (r: Option<HitBox>)
        ensures
            r == (if self@.state == AttackState::Active {
                Some(self@.hitbox)
            } else {
                None
            }),
    {
        if self.state == AttackState::Active {
            Some(self.actual)
        } else {
            None
        }
    }
}

/// Over one cycle from rest, the counter climbs tick by tick, the phase
/// follows the thresholds, and the last tick brings the attack back to rest.
proof fn lemma_cycle(v: AttackView, k: nat)
    requires
        attack_wf(v),
        v.frame_count == 0,
        k <= total_frames(v.frames),
    ensures
        attack_wf(run(v, k)),
        run(v, k).frames == v.frames,
        run(v, k).base == v.base,
        run(v, k).anim_frames == v.anim_frames,
        k < total_frames(v.frames) ==> run(v, k).frame_count == k,
        k == total_frames(v.frames) ==> run(v, k) == (AttackView {
            state: phase_of(v.frames, k as int),
            ..at_rest(v)
        }),
        k > 0 ==> run(v, k).state == phase_of(v.frames, k as int),
        k > 0 ==> tick(run(v, (k - 1) as nat)).1 == (k == total_frames(v.frames)),
    decreases k,
{
    if k > 0 {
        lemma_cycle(v, (k - 1) as nat);
        let p = run(v, (k - 1) as nat);
        assert(p.frame_count == k - 1);
        assert(0 <= p.anim_frame < p.anim_frames);
        let a = p.anim_frame + 1;
        if a < p.anim_frames {
            lemma_small_mod(a as nat, p.anim_frames as nat);
        } else {
            lemma_mod_self_0(p.anim_frames);
        }
    }
}

/// An attack that completed runs its next cycle exactly as the one before:
/// on every tick the same phase, and completion on the same tick.
pub proof fn lemma_restart_repeats(v: AttackView, k: nat)
    requires
        attack_wf(v),
        v.frame_count == 0,
        1 <= k <= total_frames(v.frames),
    ensures
        run(v, total_frames(v.frames) as nat).frame_count == 0,
        run(run(v, total_frames(v.frames) as nat), k).state == run(v, k).state,
        run(v, k).state == phase_of(v.frames, k as int),
        tick(run(run(v, total_frames(v.frames) as nat), (k - 1) as nat)).1 == tick(
            run(v, (k - 1) as nat),
        ).1,
{
    let t = total_frames(v.frames) as nat;
    lemma_cycle(v, t);
    let w = run(v, t);
    lemma_cycle(w, k);
    lemma_cycle(v, k);
}

/// A shift made before the attack turns active does not carry over: on the
/// tick that the attack turns active its hitbox is back on its base.
pub proof fn lemma_shift_not_sticky(v: AttackView, dx: int, dy: int)
    requires
        attack_wf(v),
        v.state == AttackState::Startup,
        can_translate(v.base, dx, dy),
    ensures
        ({
            let shifted = AttackView { hitbox: translated(v.base, dx, dy), ..v };
            tick(shifted).0.state == AttackState::Active ==> tick(shifted).0.hitbox == v.base
        }),
{
}

} // verus!
