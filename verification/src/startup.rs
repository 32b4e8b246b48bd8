use vstd::prelude::*;

verus! {

/// Number of dashboard ticks the power-on gauge sweep lasts.
pub const STARTUP_TICKS: u32 = 80;

/// The stage of the power-on gauge sweep that a tick falls in.
#[derive(Clone, Copy, Debug, PartialEq, Eq, Structural)]
pub enum StartupPhase {
    /// Needles sweep up from zero towards full scale.
    Sweep,
    /// Needles hold at full scale.
    Hold,
    /// Needles wind down to engine idle.
    WindDown,
    /// Needles rest at idle.
    Idle,
    /// The sweep is over: the gauges show live data.
    Complete,
}

/// The phase of the sweep once `tick` of its `STARTUP_TICKS` ticks have
/// elapsed: below 2/5 of the sweep the needles rise, below 1/2 they hold,
/// below 4/5 they wind down, and from there on they idle.
pub open spec fn phase_at(tick: int) -> StartupPhase {
    if 5 * tick < 2 * STARTUP_TICKS {
        StartupPhase::Sweep
    } else if 2 * tick < STARTUP_TICKS {
        StartupPhase::Hold
    } else if 5 * tick < 4 * STARTUP_TICKS {
        StartupPhase::WindDown
    } else {
        StartupPhase::Idle
    }
}

/// The tick count after one more dashboard tick: it counts up to
/// `STARTUP_TICKS` and stays there.
pub open spec fn next_tick(tick: nat) -> nat {
    if tick < STARTUP_TICKS {
        tick + 1
    } else {
        tick
    }
}

/// The phase that one more dashboard tick reports, from the tick count
/// before it.
pub open spec fn phase_after(tick: nat) -> StartupPhase {
    if tick < STARTUP_TICKS {
        phase_at((tick + 1) as int)
    } else {
        StartupPhase::Complete
    }
}

/// The tick count after `n` dashboard ticks from power-on.
pub open spec fn ticks_after(n: nat) -> nat
    decreases n,
{
    if n == 0 {
        0
    } else {
        next_tick(ticks_after((n - 1) as nat))
    }
}

/// Position of a phase in the order the sweep runs through them.
pub open spec fn phase_rank(phase: StartupPhase) -> int {
    match phase {
        StartupPhase::Sweep => 0,
        StartupPhase::Hold => 1,
        StartupPhase::WindDown => 2,
        StartupPhase::Idle => 3,
        StartupPhase::Complete => 4,
    }
}

/// Progress of the power-on gauge sweep, counted in dashboard ticks.
pub struct StartupSequence {
    tick: u32,
}

impl View for StartupSequence {
    type V = nat;

    closed spec fn view(&self) -> nat {
        self.tick as nat
    }
}

impl StartupSequence {
    /// A sweep that has not started yet.
    pub fn new() -> (s: Self)
        ensures
            s@ == 0,
    {
        StartupSequence { tick: 0 }
    }

    /// The number of sweep ticks elapsed so far.
    pub fn tick(&self) -> (t: u32)
        ensures
            t == self@,
    {
        self.tick
    }

    /// Whether the sweep still overrides the gauges.
    pub fn is_startup(&self) -> (b: bool)
        ensures
            b == (self@ < STARTUP_TICKS),
    {
        self.tick < STARTUP_TICKS
    }

    /// Advances the sweep by one dashboard tick and reports the phase the
    /// new tick falls in (`Complete` once the sweep is over).
    pub fn advance(&mut self) -> (phase: StartupPhase)
        ensures
            final(self)@ == next_tick(old(self)@),
            phase == phase_after(old(self)@),
    {
        if self.tick < STARTUP_TICKS {
            self.tick = self.tick + 1;
            let t = self.tick;
            if 5 * t < 2 * STARTUP_TICKS {
                StartupPhase::Sweep
            } else if 2 * t < STARTUP_TICKS {
                StartupPhase::Hold
            } else if 5 * t < 4 * STARTUP_TICKS {
                StartupPhase::WindDown
            } else {
                StartupPhase::Idle
            }
        } else {
            StartupPhase::Complete
        }
    }
}

/// After `n` ticks from power-on the sweep has counted `min(n, STARTUP_TICKS)`
/// ticks, so it is still running exactly while `n < STARTUP_TICKS`.
pub proof fn lemma_ticks_after(n: nat)
    ensures
        ticks_after(n) == if n < STARTUP_TICKS { n } else { STARTUP_TICKS as nat },
        ticks_after(n) <= STARTUP_TICKS,
        (ticks_after(n) < STARTUP_TICKS) == (n < STARTUP_TICKS),
    decreases n,
{
    if n > 0 {
        lemma_ticks_after((n - 1) as nat);
    }
}

/// The tick reported by the `n`-th advance from power-on is a sweep phase
/// for the first `STARTUP_TICKS` advances and `Complete` for every later one.
pub proof fn lemma_sweep_length(n: nat)
    ensures
        (phase_after(ticks_after(n)) == StartupPhase::Complete) == (n >= STARTUP_TICKS),
{
    lemma_ticks_after(n);
}

/// The phases only move forward: each tick reports a phase no earlier than
/// the previous tick did, and once complete the sweep stays complete.
pub proof fn lemma_phase_monotone(tick: nat)
    ensures
        phase_rank(phase_after(tick)) <= phase_rank(phase_after(next_tick(tick))),
        phase_after(tick) == StartupPhase::Complete ==> phase_after(next_tick(tick))
            == StartupPhase::Complete,
{
}

} // verus!
