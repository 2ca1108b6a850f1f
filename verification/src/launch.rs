//! Deriving the launch intent from the process arguments: the application
//! starts minimized exactly when the designated flag is among them.

use vstd::prelude::*;

use crate::lifecycle::LaunchIntent;

verus! {

/// The argument that requests a minimized start.
pub open spec fn minimized_flag() -> Seq<char> {
    "--minimized"@
}

/// Whether an argument list contains the minimized flag.
pub open spec fn args_request_minimized(args: Seq<String>) -> bool {
    exists|i: int| 0 <= i < args.len() && #[trigger] args[i]@ == minimized_flag()
}

/// The launch intent an argument list determines.
pub open spec fn spec_launch_intent(args: Seq<String>) -> LaunchIntent {
    if args_request_minimized(args) {
        LaunchIntent::StartMinimized
    } else {
        LaunchIntent::StartNormal
    }
}

/// Scan the launch arguments once: any occurrence of the minimized flag
/// selects a minimized start, its absence a normal one.
pub fn launch_intent_from_args(args: &Vec<String>) -> (intent: LaunchIntent)
    ensures
        intent == spec_launch_intent(args@),
        intent is StartMinimized <==> args_request_minimized(args@),
{
    let flag: String = String::from_str("--minimized");
    let n: usize = args.len();
    let mut i: usize = 0;
    while i < n
        invariant
            n == args@.len(),
            i <= n,
            flag@ == minimized_flag(),
            forall|j: int| 0 <= j < i ==> #[trigger] args[j]@ != minimized_flag(),
        decreases n - i,
    {
        if args[i].eq(&flag) {
            return LaunchIntent::StartMinimized;
        }
        i = i + 1;
    }
    LaunchIntent::StartNormal
}

} // verus!
