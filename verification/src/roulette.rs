//! The spin formula: which index is highlighted at a given moment of the
//! animation.
//!
//! Time is measured in whole phase units rather than a real number:
//! `PHASE_STEPS` units make one full spin, one unit per rendered frame.
//! Progress through the spin is eased quadratically (fast start, slow
//! settle), the eased value being kept scaled by `EASE_SCALE` so that all
//! arithmetic stays in integers.

use vstd::prelude::*;

verus! {

/// Phase units in a complete spin: a phase of `PHASE_STEPS` stands for the
/// fully settled animation. The driver advances the phase by one unit per
/// frame, so this is also the spin's duration in frames.
pub const PHASE_STEPS: u32 = 1000;

/// `PHASE_STEPS` squared: the scale of the eased progress value.
pub const EASE_SCALE: u64 = 1_000_000;

/// The phase, clamped to the animation's meaningful range
/// `[0, PHASE_STEPS]`: beyond the upper end the display is frozen.
pub open spec fn clamped_phase(phase: int) -> int {
    if phase < 0 {
        0
    } else if phase > PHASE_STEPS {
        PHASE_STEPS as int
    } else {
        phase
    }
}

/// Ease-out quadratic progress, scaled by `EASE_SCALE`: with
/// `t = phase / PHASE_STEPS` in real terms this is `1 - (1 - t)^2`,
/// so the apparent motion is fast at first and settles slowly.
pub open spec fn eased_progress(phase: int) -> int {
    let q = PHASE_STEPS - clamped_phase(phase);
    EASE_SCALE - q * q
}

/// How many item widths the highlight travels over a whole spin: four full
/// laps around the list plus the distance to the target, so every spin
/// visibly circles the list several times wherever the target sits.
pub open spec fn virtual_steps(length: int, target: int) -> int {
    4 * length + target
}

/// The highlight's un-wrapped position along the virtual track at a given
/// phase: the eased fraction of the full travel, rounded down.
pub open spec fn spin_position(phase: int, length: int, target: int) -> int {
    virtual_steps(length, target) * eased_progress(phase) / EASE_SCALE as int
}

/// The highlighted index at a given phase: the virtual position wrapped
/// onto the list.
pub open spec fn spin_index(phase: int, length: int, target: int) -> int {
    spin_position(phase, length, target) % length
}

/// One spin of the roulette: a fixed list length, the index the highlight
/// must land on, and how far the animation has advanced.
pub struct Roulette {
    /// Elapsed animation time in phase units; `PHASE_STEPS` means settled.
    pub phase: u32,
    /// Number of items on the list; fixed at creation, always positive.
    pub len: usize,
    /// The index the spin lands on once the phase reaches `PHASE_STEPS`.
    pub target: usize,
}

impl Roulette {
    /// A spin is well formed when its list is nonempty and its target is on
    /// the list.
    pub open spec fn wf(self) -> bool {
        0 < self.len && self.target < self.len
    }

    /// A fresh spin at phase zero.
    pub fn new(len: usize, target: usize) -> (r: Roulette)
        requires
            0 < len,
            target < len,
        ensures
            r.wf(),
            r.phase == 0,
            r.len == len,
            r.target == target,
    {
        Roulette { phase: 0, len, target }
    }

    /// The index highlighted at the current phase.
    pub fn current_index(&self) -> (r: usize)
        requires
            self.wf(),
        ensures
            r == spin_index(self.phase as int, self.len as int, self.target as int),
            r < self.len,
    {
        let ph: u32 = if self.phase > PHASE_STEPS {
            PHASE_STEPS
        } else {
            self.phase
        };
        let q: u64 = (PHASE_STEPS - ph) as u64;
        assert(q * q <= EASE_SCALE) by (nonlinear_arith)
            requires
                q <= 1000,
        ;
        let eased: u64 = EASE_SCALE - q * q;
        let steps: u128 = (self.len as u128) * 4 + (self.target as u128);
        proof {
            assert(steps * (eased as u128) <= steps * 1_000_000) by (nonlinear_arith)
                requires
                    0 <= steps,
                    eased <= 1_000_000,
            ;
        }
        let pos: u128 = steps * (eased as u128) / (EASE_SCALE as u128);
        proof {
            vstd::arithmetic::div_mod::lemma_mod_bound(
                pos as int,
                self.len as int,
            );
        }
        (pos % (self.len as u128)) as usize
    }

    /// Whether the animation has settled on its target.
    pub fn is_settled(&self) -> (r: bool)
        ensures
            r == (self.phase >= PHASE_STEPS),
    {
        self.phase >= PHASE_STEPS
    }

    /// One frame's advancement: the phase grows by one unit until the spin
    /// settles, after which it stays put (the display is frozen anyway).
    pub fn advance(&mut self)
        ensures
            final(self).len == old(self).len,
            final(self).target == old(self).target,
            old(self).phase < PHASE_STEPS ==> final(self).phase == old(self).phase + 1,
            old(self).phase >= PHASE_STEPS ==> final(self).phase == old(self).phase,
    {
        if self.phase < PHASE_STEPS {
            self.phase = self.phase + 1;
        }
    }
}

/// At phase zero the highlight is on index 0, whatever the target: every
/// spin starts at the top of the list.
pub proof fn lemma_index_at_start(length: int, target: int)
    requires
        0 < length,
        0 <= target < length,
    ensures
        spin_position(0, length, target) == 0,
        spin_index(0, length, target) == 0,
{
    let q0 = PHASE_STEPS - clamped_phase(0);
    assert(q0 == 1000);
    assert(q0 * q0 == 1_000_000) by (nonlinear_arith)
        requires
            q0 == 1000,
    ;
    assert(eased_progress(0) == 0);
    assert(virtual_steps(length, target) * 0 == 0);
    vstd::arithmetic::div_mod::lemma_small_mod(0, length as nat);
}

/// From phase `PHASE_STEPS` on, the highlight sits exactly on the target,
/// having travelled the full virtual track: four whole laps plus the
/// distance to the target.
pub proof fn lemma_index_settled(phase: int, length: int, target: int)
    requires
        phase >= PHASE_STEPS,
        0 < length,
        0 <= target < length,
    ensures
        spin_position(phase, length, target) == 4 * length + target,
        spin_index(phase, length, target) == target,
{
    let steps = virtual_steps(length, target);
    assert(clamped_phase(phase) == PHASE_STEPS);
    assert(eased_progress(phase) == EASE_SCALE);
    vstd::arithmetic::div_mod::lemma_div_multiples_vanish(steps, EASE_SCALE as int);
    assert(EASE_SCALE as int * steps == steps * EASE_SCALE as int)
        by (nonlinear_arith);
    assert(spin_position(phase, length, target) == steps);
    vstd::arithmetic::div_mod::lemma_mod_multiples_vanish(4, target, length);
    vstd::arithmetic::div_mod::lemma_small_mod(target as nat, length as nat);
}

/// The highlighted index is a pure function of phase, length and target:
/// two queries with identical inputs give identical answers.
pub proof fn lemma_index_deterministic(
    phase1: int,
    length1: int,
    target1: int,
    phase2: int,
    length2: int,
    target2: int,
)
    requires
        phase1 == phase2,
        length1 == length2,
        target1 == target2,
    ensures
        spin_index(phase1, length1, target1) == spin_index(phase2, length2, target2),
{
}

/// As the phase grows, the un-wrapped position never moves backward: the
/// highlight only ever advances along the list, and a drop in the wrapped
/// index is a lap boundary, not a regression.
pub proof fn lemma_position_monotone(phase1: int, phase2: int, length: int, target: int)
    requires
        phase1 <= phase2,
        0 < length,
        0 <= target,
    ensures
        spin_position(phase1, length, target) <= spin_position(phase2, length, target),
{
    let steps = virtual_steps(length, target);
    let q1 = PHASE_STEPS - clamped_phase(phase1);
    let q2 = PHASE_STEPS - clamped_phase(phase2);
    assert(0 <= q2 <= q1);
    assert(q2 * q2 <= q1 * q1) by (nonlinear_arith)
        requires
            0 <= q2 <= q1,
    ;
    let e1 = eased_progress(phase1);
    let e2 = eased_progress(phase2);
    assert(e1 <= e2);
    assert(steps * e1 <= steps * e2) by (nonlinear_arith)
        requires
            e1 <= e2,
            0 <= steps,
    ;
    vstd::arithmetic::div_mod::lemma_div_is_ordered(steps * e1, steps * e2, EASE_SCALE as int);
}

} // verus!
