use vstd::prelude::*;

verus! {

/// The user-driven lamps of the simulated car: the two turn signals and
/// the high beam.
#[derive(Clone, Copy, Debug, PartialEq, Eq, Structural)]
pub struct Indicators {
    pub left_turn: bool,
    pub right_turn: bool,
    pub high_beam: bool,
}

impl Indicators {
    /// `self` with the left turn signal flipped.
    pub open spec fn with_left_toggled(self) -> Indicators {
        Indicators { left_turn: !self.left_turn, right_turn: self.right_turn, high_beam: self.high_beam }
    }

    /// `self` with the right turn signal flipped.
    pub open spec fn with_right_toggled(self) -> Indicators {
        Indicators { left_turn: self.left_turn, right_turn: !self.right_turn, high_beam: self.high_beam }
    }

    /// `self` with the high beam flipped.
    pub open spec fn with_high_beam_toggled(self) -> Indicators {
        Indicators { left_turn: self.left_turn, right_turn: self.right_turn, high_beam: !self.high_beam }
    }

    /// All lamps off.
    pub fn new() -> (s: Self)
        ensures
            !s.left_turn,
            !s.right_turn,
            !s.high_beam,
    {
        Indicators { left_turn: false, right_turn: false, high_beam: false }
    }

    /// Flips the left turn signal; the other lamps keep their state.
    pub fn toggle_left_turn(&mut self)
        ensures
            *final(self) == old(self).with_left_toggled(),
    {
        self.left_turn = !self.left_turn;
    }

    /// Flips the right turn signal; the other lamps keep their state.
    pub fn toggle_right_turn(&mut self)
        ensures
            *final(self) == old(self).with_right_toggled(),
    {
        self.right_turn = !self.right_turn;
    }

    /// Flips the high beam; the other lamps keep their state.
    pub fn toggle_high_beam(&mut self)
        ensures
            *final(self) == old(self).with_high_beam_toggled(),
    {
        self.high_beam = !self.high_beam;
    }

    /// The `(left, right)` turn signal states.
    pub fn read_turn_signals(&self) -> (signals: (bool, bool))
        ensures
            signals == (self.left_turn, self.right_turn),
    {
        (self.left_turn, self.right_turn)
    }

    /// The high-beam state.
    pub fn read_headlights(&self) -> (on: bool)
        ensures
            on == self.high_beam,
    {
        self.high_beam
    }
}

/// One of the user-driven lamps.
#[derive(Clone, Copy, Debug, PartialEq, Eq, Structural)]
pub enum Lamp {
    LeftTurn,
    RightTurn,
    HighBeam,
}

impl Indicators {
    /// `self` with `lamp` flipped.
    pub open spec fn with_toggled(self, lamp: Lamp) -> Indicators {
        match lamp {
            Lamp::LeftTurn => self.with_left_toggled(),
            Lamp::RightTurn => self.with_right_toggled(),
            Lamp::HighBeam => self.with_high_beam_toggled(),
        }
    }
}

/// The lamps after flipping each lamp of `toggles` in turn, starting from `s`.
pub open spec fn after_toggles(s: Indicators, toggles: Seq<Lamp>) -> Indicators
    decreases toggles.len(),
{
    if toggles.len() == 0 {
        s
    } else {
        after_toggles(s, toggles.drop_last()).with_toggled(toggles.last())
    }
}

/// How many times `lamp` occurs in `toggles`.
pub open spec fn toggle_count(toggles: Seq<Lamp>, lamp: Lamp) -> nat
    decreases toggles.len(),
{
    if toggles.len() == 0 {
        0
    } else {
        toggle_count(toggles.drop_last(), lamp) + if toggles.last() == lamp {
            1nat
        } else {
            0nat
        }
    }
}

/// Each lamp's state after a run of toggles is its state before, flipped
/// once for every toggle of that lamp: it differs from the start exactly
/// when that lamp was toggled an odd number of times, whatever the other
/// lamps' toggles were.
pub proof fn lemma_lamp_parity(s: Indicators, toggles: Seq<Lamp>)
    ensures
        after_toggles(s, toggles).left_turn == (s.left_turn != (toggle_count(toggles, Lamp::LeftTurn)
            % 2 == 1)),
        after_toggles(s, toggles).right_turn == (s.right_turn != (toggle_count(
            toggles,
            Lamp::RightTurn,
        ) % 2 == 1)),
        after_toggles(s, toggles).high_beam == (s.high_beam != (toggle_count(toggles, Lamp::HighBeam)
            % 2 == 1)),
    decreases toggles.len(),
{
    if toggles.len() > 0 {
        lemma_lamp_parity(s, toggles.drop_last());
    }
}

/// Starting with every lamp off, as `Indicators::new` does, a lamp is lit
/// exactly when it has been toggled an odd number of times.
pub proof fn lemma_lamp_parity_from_off(toggles: Seq<Lamp>)
    ensures
        after_toggles(Indicators { left_turn: false, right_turn: false, high_beam: false }, toggles)
            == (Indicators {
            left_turn: toggle_count(toggles, Lamp::LeftTurn) % 2 == 1,
            right_turn: toggle_count(toggles, Lamp::RightTurn) % 2 == 1,
            high_beam: toggle_count(toggles, Lamp::HighBeam) % 2 == 1,
        }),
{
    lemma_lamp_parity(Indicators { left_turn: false, right_turn: false, high_beam: false }, toggles);
}

/// Each toggle undoes itself: flipping the same lamp twice restores every
/// lamp to the state it had before.
pub proof fn lemma_toggle_twice_restores(s: Indicators)
    ensures
        s.with_left_toggled().with_left_toggled() == s,
        s.with_right_toggled().with_right_toggled() == s,
        s.with_high_beam_toggled().with_high_beam_toggled() == s,
{
}

/// The lamps are independent: flipping two different lamps gives the same
/// state in either order.
pub proof fn lemma_toggles_commute(s: Indicators)
    ensures
        s.with_left_toggled().with_right_toggled() == s.with_right_toggled().with_left_toggled(),
        s.with_left_toggled().with_high_beam_toggled()
            == s.with_high_beam_toggled().with_left_toggled(),
        s.with_right_toggled().with_high_beam_toggled()
            == s.with_high_beam_toggled().with_right_toggled(),
{
}

/// The lamp states the gauge stress test shows `elapsed_secs` whole seconds
/// into its run: the turn signals alternate every two seconds, left and
/// high beam together and right opposite to them.
pub open spec fn stress_test_lamps(elapsed_secs: int) -> Indicators {
    let half = if elapsed_secs >= 0 { elapsed_secs / 2 } else { -((-elapsed_secs) / 2) };
    let on = half % 2 == 0;
    Indicators { left_turn: on, right_turn: !on, high_beam: on }
}

/// The stress-test lamp pattern, stated by its shape: left turn and high
/// beam are lit together, the right turn signal is lit exactly when they
/// are not; both lamps are lit during the first two seconds, every two
/// seconds the pattern inverts (so it repeats every four seconds), and a
/// negative time shows the same lamps as its magnitude.
pub proof fn lemma_stress_test_pattern(t: int)
    ensures
        stress_test_lamps(t).high_beam == stress_test_lamps(t).left_turn,
        stress_test_lamps(t).right_turn == !stress_test_lamps(t).left_turn,
        0 <= t < 2 ==> stress_test_lamps(t).left_turn,
        t >= 0 ==> stress_test_lamps(t + 2).left_turn == !stress_test_lamps(t).left_turn,
        t >= 0 ==> stress_test_lamps(t + 4) == stress_test_lamps(t),
        stress_test_lamps(-t) == stress_test_lamps(t),
{
    if t >= 0 {
        assert((t + 2) / 2 == t / 2 + 1);
        assert((t + 4) / 2 == t / 2 + 2);
    }
    let h = if t >= 0 { t / 2 } else { (-t) / 2 };
    assert(h >= 0);
    assert(((-h) % 2 == 0) == (h % 2 == 0)) by {
        assert(-h == (-h / 2) * 2 + (-h) % 2);
    }
}

/// Computes `stress_test_lamps`, dividing toward zero as the integer
/// division of the stress test does.
pub fn stress_test_indicators(elapsed_secs: i32) -> (lamps: Indicators)
    ensures
        lamps == stress_test_lamps(elapsed_secs as int),
{
    let half: u32 = if elapsed_secs >= 0 {
        (elapsed_secs as u32) / 2
    } else {
        let magnitude: u32 = (-(elapsed_secs as i64)) as u32;
        magnitude / 2
    };
    let on = half % 2 == 0;
    Indicators { left_turn: on, right_turn: !on, high_beam: on }
}

} // verus!
