//! The command-line decision: the program takes exactly one positional
//! argument, the ROM path. Any other argument count earns the user a usage
//! line and a clean exit, before any ROM load or window creation.

use vstd::prelude::*;

verus! {

/// Where the ROM path stands among the process arguments, if anywhere:
/// exactly two arguments (the program's own name and the path) select the
/// second; any other count selects nothing, and the caller prints the
/// usage line and does no further work.
pub fn rom_arg_index(arg_count: usize) -> (r: Option<usize>)
    ensures
        arg_count == 2 ==> r == Some(1usize),
        arg_count != 2 ==> r is None,
{
    if arg_count == 2 {
        Some(1)
    } else {
        None
    }
}

} // verus!
