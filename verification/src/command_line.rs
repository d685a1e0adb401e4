//! The command line pane: what it shows of a command that was run.

use vstd::prelude::*;

verus! {

/// What the pane shows of a finished command: what it printed where it
/// succeeded, and its error output where it failed.
pub fn command_output(success: bool, stdout: String, stderr: String) -> (shown: String)
    ensures
        shown@ == (if success {
            stdout@
        } else {
            stderr@
        }),
{
    if success {
        stdout
    } else {
        stderr
    }
}

} // verus!
