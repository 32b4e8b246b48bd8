use vstd::prelude::*;
use vstd::string::StrSliceExecFns;

use crate::text::same_text;

verus! {

/// What a key press asks the dashboard to do.
#[derive(Clone, Copy, Debug, PartialEq, Eq, Structural)]
pub enum KeyCommand {
    /// Raise the commanded speed (`up`).
    SpeedUp,
    /// Lower the commanded speed (`down`).
    SpeedDown,
    /// Flip the left turn signal (`left`).
    ToggleLeftTurn,
    /// Flip the right turn signal (`right`).
    ToggleRightTurn,
    /// Flip the high beam (`h` / `H`).
    ToggleHighBeam,
    /// Switch between day and night theme (`n` / `N`).
    ToggleNightMode,
    /// Show or hide the gauge drop shadow (`s` / `S`).
    ToggleDropShadow,
    /// Zero the trip computer (`r` / `R`).
    ResetTrip,
    /// Fill the tank (`f` / `F`).
    Refuel,
    /// Shift one gear up (`a` / `A`).
    ShiftUp,
    /// Shift one gear down (`z` / `Z`).
    ShiftDown,
    /// Leave the event loop (`q` / `Q` / `esc`).
    Quit,
}

/// The command bound to the one-character key `c`, if any.
pub open spec fn letter_command(c: char) -> Option<KeyCommand> {
    if c == 'h' || c == 'H' {
        Some(KeyCommand::ToggleHighBeam)
    } else if c == 'n' || c == 'N' {
        Some(KeyCommand::ToggleNightMode)
    } else if c == 's' || c == 'S' {
        Some(KeyCommand::ToggleDropShadow)
    } else if c == 'r' || c == 'R' {
        Some(KeyCommand::ResetTrip)
    } else if c == 'f' || c == 'F' {
        Some(KeyCommand::Refuel)
    } else if c == 'a' || c == 'A' {
        Some(KeyCommand::ShiftUp)
    } else if c == 'z' || c == 'Z' {
        Some(KeyCommand::ShiftDown)
    } else if c == 'q' || c == 'Q' {
        Some(KeyCommand::Quit)
    } else {
        None
    }
}

/// The command bound to the normalized key name `key`: the named keys
/// `up`, `down`, `left`, `right`, `esc` (lower case only) and the letter
/// keys of `letter_command` in either case; every other name is unbound.
pub open spec fn key_command(key: Seq<char>) -> Option<KeyCommand> {
    if key.len() == 1 {
        letter_command(key[0])
    } else if key == seq!['u', 'p'] {
        Some(KeyCommand::SpeedUp)
    } else if key == seq!['d', 'o', 'w', 'n'] {
        Some(KeyCommand::SpeedDown)
    } else if key == seq!['l', 'e', 'f', 't'] {
        Some(KeyCommand::ToggleLeftTurn)
    } else if key == seq!['r', 'i', 'g', 'h', 't'] {
        Some(KeyCommand::ToggleRightTurn)
    } else if key == seq!['e', 's', 'c'] {
        Some(KeyCommand::Quit)
    } else {
        None
    }
}

/// The full key table, stated key by key: each command is bound to exactly
/// the key names listed for it, so `q`, `Q` and `esc` are the only keys
/// that quit.
pub proof fn lemma_key_bindings(key: Seq<char>)
    ensures
        (key_command(key) == Some(KeyCommand::SpeedUp)) == (key == seq!['u', 'p']),
        (key_command(key) == Some(KeyCommand::SpeedDown)) == (key == seq!['d', 'o', 'w', 'n']),
        (key_command(key) == Some(KeyCommand::ToggleLeftTurn)) == (key == seq!['l', 'e', 'f', 't']),
        (key_command(key) == Some(KeyCommand::ToggleRightTurn)) == (key == seq![
            'r',
            'i',
            'g',
            'h',
            't',
        ]),
        (key_command(key) == Some(KeyCommand::ToggleHighBeam)) == (key == seq!['h'] || key
            == seq!['H']),
        (key_command(key) == Some(KeyCommand::ToggleNightMode)) == (key == seq!['n'] || key
            == seq!['N']),
        (key_command(key) == Some(KeyCommand::ToggleDropShadow)) == (key == seq!['s'] || key
            == seq!['S']),
        (key_command(key) == Some(KeyCommand::ResetTrip)) == (key == seq!['r'] || key == seq!['R']),
        (key_command(key) == Some(KeyCommand::Refuel)) == (key == seq!['f'] || key == seq!['F']),
        (key_command(key) == Some(KeyCommand::ShiftUp)) == (key == seq!['a'] || key == seq!['A']),
        (key_command(key) == Some(KeyCommand::ShiftDown)) == (key == seq!['z'] || key == seq!['Z']),
        (key_command(key) == Some(KeyCommand::Quit)) == (key == seq!['q'] || key == seq!['Q'] || key
            == seq!['e', 's', 'c']),
{
    if key.len() == 1 {
        let c = key[0];
        assert(key =~= seq![c]);
    }
}

/// Every one-character key other than the sixteen bound letters
/// h H n N s S r R f F a A z Z q Q is ignored.
pub proof fn lemma_unbound_letters(c: char)
    requires
        c != 'h' && c != 'H' && c != 'n' && c != 'N' && c != 's' && c != 'S' && c != 'r' && c
            != 'R' && c != 'f' && c != 'F' && c != 'a' && c != 'A' && c != 'z' && c != 'Z' && c
            != 'q' && c != 'Q',
    ensures
        key_command(seq![c]) == None::<KeyCommand>,
{
}

/// Maps a normalized key name, as the window's key handler reports it,
/// to the command it is bound to.
pub fn parse_key(key: &str) -> (cmd: Option<KeyCommand>)
    ensures
        cmd == key_command(key@),
{
    let n = key.unicode_len();
    if n == 1 {
        let c = key.get_char(0);
        if c == 'h' || c == 'H' {
            Some(KeyCommand::ToggleHighBeam)
        } else if c == 'n' || c == 'N' {
            Some(KeyCommand::ToggleNightMode)
        } else if c == 's' || c == 'S' {
            Some(KeyCommand::ToggleDropShadow)
        } else if c == 'r' || c == 'R' {
            Some(KeyCommand::ResetTrip)
        } else if c == 'f' || c == 'F' {
            Some(KeyCommand::Refuel)
        } else if c == 'a' || c == 'A' {
            Some(KeyCommand::ShiftUp)
        } else if c == 'z' || c == 'Z' {
            Some(KeyCommand::ShiftDown)
        } else if c == 'q' || c == 'Q' {
            Some(KeyCommand::Quit)
        } else {
            None
        }
    } else {
        proof {
            reveal_strlit("up");
            reveal_strlit("down");
            reveal_strlit("left");
            reveal_strlit("right");
            reveal_strlit("esc");
            assert("up"@ =~= seq!['u', 'p']);
            assert("down"@ =~= seq!['d', 'o', 'w', 'n']);
            assert("left"@ =~= seq!['l', 'e', 'f', 't']);
            assert("right"@ =~= seq!['r', 'i', 'g', 'h', 't']);
            assert("esc"@ =~= seq!['e', 's', 'c']);
        }
        if same_text(key, "up") {
            Some(KeyCommand::SpeedUp)
        } else if same_text(key, "down") {
            Some(KeyCommand::SpeedDown)
        } else if same_text(key, "left") {
            Some(KeyCommand::ToggleLeftTurn)
        } else if same_text(key, "right") {
            Some(KeyCommand::ToggleRightTurn)
        } else if same_text(key, "esc") {
            Some(KeyCommand::Quit)
        } else {
            None
        }
    }
}

} // verus!
