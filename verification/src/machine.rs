//! The controller: owns the target list, the optional font payload and the
//! active spin, and makes every decision the frame loop needs — starting a
//! spin, advancing it, styling each row, and pacing repaints.

use vstd::prelude::*;
use rand::Rng;
use crate::roulette::{Roulette, PHASE_STEPS, lemma_index_at_start, spin_index};

verus! {

/// Why a spin could not be started.
#[derive(Clone, Copy, Debug, PartialEq, Eq, Structural)]
pub enum ConfigError {
    /// The target list is empty: there is nothing to land on.
    EmptyTargets,
    /// The requested target index is not on the list.
    TargetOutOfRange,
}

/// How one row of the target list is to be drawn.
#[derive(Clone, Copy, Debug, PartialEq, Eq, Structural)]
pub enum RowStyle {
    /// Not highlighted.
    Plain,
    /// Highlighted by a spin still in motion.
    Highlighted,
    /// Highlighted by a spin that has settled: the final selection.
    Landed,
}

/// The application's whole mutable state: the immutable target list and
/// font bytes set at construction, and the spin currently running, if any.
pub struct Machine {
    /// The ordered display strings, fixed after construction.
    pub targets: Vec<String>,
    /// Raw font bytes for the front end, or `None` to fall back to its
    /// default fonts; fixed after construction.
    pub font: Option<Vec<u8>>,
    /// The active spin. Replaced outright on each trigger, never paused.
    pub roulette: Option<Roulette>,
}

impl Machine {
    /// A machine is well formed when any active spin is itself well formed
    /// and spins over exactly the machine's own target list.
    pub open spec fn wf(self) -> bool {
        self.roulette matches Some(r) ==> r.wf() && r.len == self.targets@.len()
    }

    /// A fresh controller with no spin running.
    pub fn new(targets: Vec<String>, font: Option<Vec<u8>>) -> (m: Machine)
        ensures
            m.wf(),
            m.targets == targets,
            m.font == font,
            m.roulette is None,
    {
        Machine { targets, font, roulette: None }
    }

    /// The index the front end should highlight, if a spin exists.
    pub open spec fn displayed_index(self) -> Option<int> {
        match self.roulette {
            Some(r) => Some(spin_index(r.phase as int, r.len as int, r.target as int)),
            None => None,
        }
    }

    /// How the row at position `i` is to be drawn: highlighted exactly when
    /// an active spin points at it, in the final colour once that spin has
    /// settled. Pure derived state: styling never changes the spin.
    pub open spec fn style_of(self, i: int) -> RowStyle {
        match self.roulette {
            Some(r) => if spin_index(r.phase as int, r.len as int, r.target as int) == i {
                if r.phase >= PHASE_STEPS {
                    RowStyle::Landed
                } else {
                    RowStyle::Highlighted
                }
            } else {
                RowStyle::Plain
            },
            None => RowStyle::Plain,
        }
    }

    /// Start a spin that will land on `target`, replacing any spin already
    /// running — an in-flight animation is discarded outright, and the
    /// highlight resets to the first item. With an empty target list, or a
    /// target off the list, nothing changes and the configuration error
    /// says which fault it was.
    pub fn trigger(&mut self, target: usize) -> (r: Result<(), ConfigError>)
        requires
            old(self).wf(),
        ensures
            final(self).wf(),
            final(self).targets == old(self).targets,
            final(self).font == old(self).font,
            r is Ok <==> target < old(self).targets@.len(),
            target < old(self).targets@.len() ==> (final(self).roulette matches Some(s)
                && s.phase == 0 && s.len == old(self).targets@.len() && s.target == target),
            target < old(self).targets@.len() ==> final(self).displayed_index() == Some(0int),
            old(self).targets@.len() == 0 ==> r == Err::<(), ConfigError>(
                ConfigError::EmptyTargets,
            ) && final(self).roulette == old(self).roulette,
            0 < old(self).targets@.len() <= target ==> r == Err::<(), ConfigError>(
                ConfigError::TargetOutOfRange,
            ) && final(self).roulette == old(self).roulette,
    {
        let len = self.targets.len();
        if len == 0 {
            Err(ConfigError::EmptyTargets)
        } else if target >= len {
            Err(ConfigError::TargetOutOfRange)
        } else {
            self.roulette = Some(Roulette::new(len, target));
            proof {
                lemma_index_at_start(len as int, target as int);
            }
            Ok(())
        }
    }

    /// Start a spin with a uniformly random target, replacing any spin
    /// already running. With an empty target list nothing changes and the
    /// configuration error is reported instead of faulting. On success the
    /// chosen target is returned and the highlight resets to the first
    /// item.
    pub fn spin(&mut self) -> (r: Result<usize, ConfigError>)
        requires
            old(self).wf(),
        ensures
            final(self).wf(),
            final(self).targets == old(self).targets,
            final(self).font == old(self).font,
            r is Ok <==> 0 < old(self).targets@.len(),
            old(self).targets@.len() == 0 ==> r == Err::<usize, ConfigError>(
                ConfigError::EmptyTargets,
            ) && final(self).roulette == old(self).roulette,
            r matches Ok(t) ==> t < old(self).targets@.len()
                && (final(self).roulette matches Some(s)
                && s.phase == 0 && s.len == old(self).targets@.len() && s.target == t),
            r is Ok ==> final(self).displayed_index() == Some(0int),
    {
        let len = self.targets.len();
        if len == 0 {
            Err(ConfigError::EmptyTargets)
        } else {
            let target = pick_target(len);
            self.roulette = Some(Roulette::new(len, target));
            proof {
                lemma_index_at_start(len as int, target as int);
            }
            Ok(target)
        }
    }

    /// One frame's advancement of the active spin, if there is one: its
    /// phase grows by one unit until it settles, and nothing else moves.
    pub fn advance_frame(&mut self)
        requires
            old(self).wf(),
        ensures
            final(self).wf(),
            final(self).targets == old(self).targets,
            final(self).font == old(self).font,
            old(self).roulette is None ==> final(self).roulette is None,
            old(self).roulette matches Some(s) ==> (final(self).roulette matches Some(t)
                && t.len == s.len && t.target == s.target
                && (s.phase < PHASE_STEPS ==> t.phase == s.phase + 1)
                && (s.phase >= PHASE_STEPS ==> t.phase == s.phase)),
    {
        match &mut self.roulette {
            Some(r) => r.advance(),
            None => {},
        }
    }

    /// Whether the front end must keep scheduling frames: only while a spin
    /// is running and has not settled. Once settled the display is frozen
    /// and the loop may idle until the next trigger.
    pub fn needs_repaint(&self) -> (r: bool)
        ensures
            r == (self.roulette matches Some(s) && s.phase < PHASE_STEPS),
    {
        match &self.roulette {
            Some(r) => r.phase < PHASE_STEPS,
            None => false,
        }
    }

    /// The style for the row at position `i`, per [`Machine::style_of`].
    pub fn row_style(&self, i: usize) -> (s: RowStyle)
        requires
            self.wf(),
        ensures
            s == self.style_of(i as int),
    {
        match &self.roulette {
            Some(r) => {
                let idx = r.current_index();
                if idx == i {
                    if r.phase >= PHASE_STEPS {
                        RowStyle::Landed
                    } else {
                        RowStyle::Highlighted
                    }
                } else {
                    RowStyle::Plain
                }
            },
            None => RowStyle::Plain,
        }
    }
}

/// Relies on rand's `thread_rng` and `Rng::gen_range` over `0..len`: the
/// sample is uniform over the given range, so in particular below `len`;
/// `gen_range` panics on an empty range, hence the precondition.
#[verifier::external_body]
fn pick_target(len: usize) -> (r: usize)
    requires
        0 < len,
    ensures
        r < len,
{
    let mut rng = rand::thread_rng();
    rng.gen_range(0..len)
}

} // verus!
