use obd2_dashboard::{
    DashboardState, FramePlan, Indicators, StartupPhase, StartupSequence, STARTUP_TICKS,
};

#[test]
fn sweep_runs_through_phases_in_order() {
    let mut s = StartupSequence::new();
    let mut phases = Vec::new();
    for _ in 0..STARTUP_TICKS {
        assert!(s.is_startup());
        phases.push(s.advance());
    }
    let count = |p: StartupPhase| phases.iter().filter(|&&q| q == p).count();
    // ticks 1..=31 sweep, 32..=39 hold, 40..=63 wind down, 64..=80 idle
    assert_eq!(count(StartupPhase::Sweep), 31);
    assert_eq!(count(StartupPhase::Hold), 8);
    assert_eq!(count(StartupPhase::WindDown), 24);
    assert_eq!(count(StartupPhase::Idle), 17);
    assert_eq!(phases[0], StartupPhase::Sweep);
    assert_eq!(phases[30], StartupPhase::Sweep);
    assert_eq!(phases[31], StartupPhase::Hold);
    assert_eq!(phases[39], StartupPhase::WindDown);
    assert_eq!(phases[63], StartupPhase::Idle);
    assert_eq!(phases[79], StartupPhase::Idle);
}

#[test]
fn sweep_lasts_exactly_startup_ticks() {
    let mut s = StartupSequence::new();
    for n in 0..STARTUP_TICKS {
        assert_eq!(s.tick(), n);
        assert!(s.is_startup());
        s.advance();
    }
    assert_eq!(s.tick(), 80);
    assert!(!s.is_startup());
}

#[test]
fn sweep_stays_complete() {
    let mut s = StartupSequence::new();
    for _ in 0..STARTUP_TICKS {
        s.advance();
    }
    for _ in 0..500 {
        assert_eq!(s.advance(), StartupPhase::Complete);
        assert_eq!(s.tick(), STARTUP_TICKS);
        assert!(!s.is_startup());
    }
}

#[test]
fn dashboard_update_startup_keeps_display() {
    let mut d = DashboardState::new();
    assert_eq!(d.update_startup(), StartupPhase::Sweep);
    assert_eq!(d.startup.tick(), 1);
    assert!(!d.night_mode);
    assert!(d.show_drop_shadow);
    for _ in 1..STARTUP_TICKS {
        d.update_startup();
    }
    assert!(!d.is_startup());
    assert_eq!(d.update_startup(), StartupPhase::Complete);
}

#[test]
fn sweep_drives_gauges_until_the_last_startup_tick() {
    let mut d = DashboardState::new();
    let off = Indicators { left_turn: false, right_turn: false, high_beam: false };
    for n in 0..STARTUP_TICKS - 1 {
        match d.begin_frame() {
            FramePlan::Sweep { phase, tick, lamps, gear } => {
                assert_eq!(tick, n + 1);
                assert_eq!(lamps, off);
                assert_eq!(gear, 0);
                let expected = if n + 1 < 32 {
                    StartupPhase::Sweep
                } else if n + 1 < 40 {
                    StartupPhase::Hold
                } else if n + 1 < 64 {
                    StartupPhase::WindDown
                } else {
                    StartupPhase::Idle
                };
                assert_eq!(phase, expected);
            }
            FramePlan::Live => panic!("live data on sweep tick {n}"),
        }
    }
    // the 80th tick ends the sweep and already shows live data
    assert_eq!(d.begin_frame(), FramePlan::Live);
    assert_eq!(d.startup.tick(), STARTUP_TICKS);
    for _ in 0..10 {
        assert_eq!(d.begin_frame(), FramePlan::Live);
    }
    assert!(!d.night_mode);
    assert!(d.show_drop_shadow);
}
