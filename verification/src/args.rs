use vstd::prelude::*;

use crate::text::same_text;

verus! {

/// The command-line flag that selects the hardware data source.
pub open spec fn hardware_flag() -> Seq<char> {
    seq!['-', '-', 'h', 'a', 'r', 'd', 'w', 'a', 'r', 'e']
}

/// Whether the command line (program name included) holds the
/// `--hardware` flag as one of its arguments.
pub fn hardware_requested(args: &Vec<String>) -> (requested: bool)
    ensures
        requested == exists|i: int| 0 <= i < args@.len() && #[trigger] args@[i]@ == hardware_flag(),
{
    proof {
        reveal_strlit("--hardware");
        assert("--hardware"@ =~= hardware_flag());
    }
    let n = args.len();
    let mut i: usize = 0;
    while i < n
        invariant
            n == args@.len(),
            i <= n,
            "--hardware"@ == hardware_flag(),
            forall|j: int| 0 <= j < i ==> #[trigger] args@[j]@ != hardware_flag(),
        decreases n - i,
    {
        if same_text(args[i].as_str(), "--hardware") {
            return true;
        }
        i += 1;
    }
    false
}

} // verus!
