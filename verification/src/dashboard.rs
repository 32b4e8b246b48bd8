use vstd::prelude::*;

use crate::controls::KeyCommand;
use crate::signals::Indicators;
use crate::startup::{
    lemma_ticks_after, next_tick, phase_after, ticks_after, StartupPhase, StartupSequence,
    STARTUP_TICKS,
};

verus! {

/// The theme after the key command `cmd`: the night-mode key flips it,
/// every other command keeps it.
pub open spec fn night_after(night_mode: bool, cmd: KeyCommand) -> bool {
    if cmd == KeyCommand::ToggleNightMode {
        !night_mode
    } else {
        night_mode
    }
}

/// The drop-shadow setting after the key command `cmd`: the shadow key
/// flips it, every other command keeps it.
pub open spec fn shadow_after(show_drop_shadow: bool, cmd: KeyCommand) -> bool {
    if cmd == KeyCommand::ToggleDropShadow {
        !show_drop_shadow
    } else {
        show_drop_shadow
    }
}

/// How one dashboard tick fills the gauges.
#[derive(Clone, Copy, Debug, PartialEq, Eq, Structural)]
pub enum FramePlan {
    /// The power-on sweep drives the speedometer and tachometer (from
    /// `phase` and the sweep's `tick`), the data source is not polled, the
    /// lamps show `lamps` and the gear indicator shows `gear`.
    Sweep { phase: StartupPhase, tick: u32, lamps: Indicators, gear: i32 },
    /// The data source is polled and every gauge shows its readings.
    Live,
}

/// The plan of the tick that follows a sweep count of `tick`: while the
/// advanced sweep is still running, the sweep drives the gauges with all
/// lamps off and neutral gear; otherwise live data is shown.
pub open spec fn frame_plan_after(tick: nat) -> FramePlan {
    if next_tick(tick) < STARTUP_TICKS {
        FramePlan::Sweep {
            phase: phase_after(tick),
            tick: next_tick(tick) as u32,
            lamps: Indicators { left_turn: false, right_turn: false, high_beam: false },
            gear: 0,
        }
    } else {
        FramePlan::Live
    }
}

/// The dashboard's own display state: theme, drop shadow and the power-on
/// gauge sweep. The trip computer and the data source are kept by the
/// caller.
pub struct DashboardState {
    pub night_mode: bool,
    pub show_drop_shadow: bool,
    pub startup: StartupSequence,
}

impl DashboardState {
    /// Day theme, drop shadow shown, gauge sweep not started.
    pub fn new() -> (s: Self)
        ensures
            !s.night_mode,
            s.show_drop_shadow,
            s.startup@ == 0,
    {
        DashboardState { night_mode: false, show_drop_shadow: true, startup: StartupSequence::new() }
    }

    /// Whether the power-on sweep still overrides the gauges.
    pub fn is_startup(&self) -> (b: bool)
        ensures
            b == (self.startup@ < STARTUP_TICKS),
    {
        self.startup.is_startup()
    }

    /// Advances the power-on sweep by one dashboard tick and reports the
    /// phase the tick falls in; the display settings are unchanged.
    pub fn update_startup(&mut self) -> (phase: StartupPhase)
        ensures
            final(self).startup@ == next_tick(old(self).startup@),
            phase == phase_after(old(self).startup@),
            final(self).night_mode == old(self).night_mode,
            final(self).show_drop_shadow == old(self).show_drop_shadow,
    {
        self.startup.advance()
    }

    /// Starts one dashboard tick: advances the power-on sweep and decides
    /// whether the sweep or the data source fills the gauges.
    pub fn begin_frame(&mut self) -> (plan: FramePlan)
        ensures
            final(self).startup@ == next_tick(old(self).startup@),
            plan == frame_plan_after(old(self).startup@),
            final(self).night_mode == old(self).night_mode,
            final(self).show_drop_shadow == old(self).show_drop_shadow,
    {
        let phase = self.startup.advance();
        if self.startup.is_startup() {
            FramePlan::Sweep {
                phase,
                tick: self.startup.tick(),
                lamps: Indicators::new(),
                gear: 0,
            }
        } else {
            FramePlan::Live
        }
    }

    /// Applies the part of a key command that concerns the display: the
    /// night-mode key flips the theme, the shadow key flips the drop shadow,
    /// and every other command leaves the display state as it was.
    pub fn apply_key(&mut self, cmd: KeyCommand)
        ensures
            final(self).night_mode == night_after(old(self).night_mode, cmd),
            final(self).show_drop_shadow == shadow_after(old(self).show_drop_shadow, cmd),
            final(self).startup@ == old(self).startup@,
    {
        match cmd {
            KeyCommand::ToggleNightMode => {
                self.night_mode = !self.night_mode;
            },
            KeyCommand::ToggleDropShadow => {
                self.show_drop_shadow = !self.show_drop_shadow;
            },
            _ => {},
        }
    }
}

/// From power-on, the sweep fills the gauges on the first
/// `STARTUP_TICKS - 1` ticks and live data fills them on every later tick.
pub proof fn lemma_sweep_frames(n: nat)
    ensures
        (frame_plan_after(ticks_after(n)) is Sweep) == (n + 1 < STARTUP_TICKS),
{
    lemma_ticks_after(n);
    lemma_ticks_after(n + 1);
}

/// Pressing the same key twice leaves the display settings as they were.
pub proof fn lemma_same_key_twice_restores(night_mode: bool, show_drop_shadow: bool, cmd: KeyCommand)
    ensures
        night_after(night_after(night_mode, cmd), cmd) == night_mode,
        shadow_after(shadow_after(show_drop_shadow, cmd), cmd) == show_drop_shadow,
{
}

} // verus!
