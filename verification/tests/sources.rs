use obd2_dashboard::{hardware_requested, stress_test_indicators, Esp32Source, Indicators, Lamp};

#[test]
fn indicators_start_off() {
    let s = Indicators::new();
    assert_eq!(s.read_turn_signals(), (false, false));
    assert!(!s.read_headlights());
}

#[test]
fn toggles_touch_one_lamp() {
    let mut s = Indicators::new();
    s.toggle_left_turn();
    assert_eq!(s.read_turn_signals(), (true, false));
    assert!(!s.read_headlights());
    s.toggle_right_turn();
    assert_eq!(s.read_turn_signals(), (true, true));
    s.toggle_high_beam();
    assert!(s.read_headlights());
    assert_eq!(s.read_turn_signals(), (true, true));
}

#[test]
fn toggle_twice_restores() {
    let start = Indicators { left_turn: true, right_turn: false, high_beam: true };
    let mut s = start;
    s.toggle_left_turn();
    s.toggle_left_turn();
    assert_eq!(s, start);
    s.toggle_right_turn();
    s.toggle_right_turn();
    assert_eq!(s, start);
    s.toggle_high_beam();
    s.toggle_high_beam();
    assert_eq!(s, start);
}

#[test]
fn toggles_commute() {
    let mut a = Indicators::new();
    a.toggle_left_turn();
    a.toggle_high_beam();
    let mut b = Indicators::new();
    b.toggle_high_beam();
    b.toggle_left_turn();
    assert_eq!(a, b);
}

#[test]
fn stress_test_lamps_alternate_every_two_seconds() {
    let on = Indicators { left_turn: true, right_turn: false, high_beam: true };
    let off = Indicators { left_turn: false, right_turn: true, high_beam: false };
    assert_eq!(stress_test_indicators(0), on);
    assert_eq!(stress_test_indicators(1), on);
    assert_eq!(stress_test_indicators(2), off);
    assert_eq!(stress_test_indicators(3), off);
    assert_eq!(stress_test_indicators(4), on);
    assert_eq!(stress_test_indicators(29), on);
    assert_eq!(stress_test_indicators(30), off);
    assert_eq!(stress_test_indicators(-1), on);
    assert_eq!(stress_test_indicators(-3), off);
    assert_eq!(stress_test_indicators(i32::MIN), on);
    // 2147483647 / 2 = 1073741823, which is odd
    assert_eq!(stress_test_indicators(i32::MAX), off);
}

#[test]
fn esp32_stub_reports_neutral_defaults() {
    let mut s = Esp32Source::new();
    s.tick();
    s.start_driving();
    assert_eq!(s.read_turn_signals(), (false, false));
    assert!(!s.read_headlights());
    assert_eq!(s.read_gear(), 0);
    assert_eq!(Esp32Source::default(), Esp32Source);
}

#[test]
fn hardware_flag_selects_hardware() {
    let args = |xs: &[&str]| xs.iter().map(|s| s.to_string()).collect::<Vec<String>>();
    assert!(hardware_requested(&args(&["dash", "--hardware"])));
    assert!(hardware_requested(&args(&["--hardware"])));
    assert!(hardware_requested(&args(&["dash", "--verbose", "--hardware", "x"])));
    assert!(!hardware_requested(&args(&["dash"])));
    assert!(!hardware_requested(&args(&[])));
    assert!(!hardware_requested(&args(&["dash", "--hardware=1", "-hardware", "--Hardware"])));
}

#[test]
fn lamp_state_is_parity_of_its_toggles() {
    let toggles = [
        Lamp::LeftTurn,
        Lamp::HighBeam,
        Lamp::LeftTurn,
        Lamp::RightTurn,
        Lamp::LeftTurn,
        Lamp::HighBeam,
        Lamp::RightTurn,
        Lamp::RightTurn,
    ];
    let mut s = Indicators::new();
    let (mut n_left, mut n_right, mut n_beam) = (0u32, 0u32, 0u32);
    for lamp in toggles {
        match lamp {
            Lamp::LeftTurn => {
                s.toggle_left_turn();
                n_left += 1;
            }
            Lamp::RightTurn => {
                s.toggle_right_turn();
                n_right += 1;
            }
            Lamp::HighBeam => {
                s.toggle_high_beam();
                n_beam += 1;
            }
        }
        assert_eq!(s.read_turn_signals(), (n_left % 2 == 1, n_right % 2 == 1));
        assert_eq!(s.read_headlights(), n_beam % 2 == 1);
    }
    // three left, three right, two high-beam toggles
    assert_eq!(s, Indicators { left_turn: true, right_turn: true, high_beam: false });
}
