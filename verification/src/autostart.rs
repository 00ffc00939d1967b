use vstd::prelude::*;

verus! {

/// The UTF-16 code unit of `"`.
pub const QUOTE: u16 = 0x22;

/// The registry `Run` command for an executable path: the path in quotes
/// (so that spaces survive), NUL-terminated.
pub open spec fn spec_run_command_line(path: Seq<u16>) -> Seq<u16> {
    seq![QUOTE] + path + seq![QUOTE, 0u16]
}

/// Builds the autostart command line from the executable path's UTF-16 units.
pub fn run_command_line(path: &[u16]) -> (wide: Vec<u16>)
    requires
        path@.len() + 3 <= usize::MAX,
    ensures
        wide@ == spec_run_command_line(path@),
{
    let mut wide: Vec<u16> = Vec::new();
    wide.push(QUOTE);
    let mut i: usize = 0;
    while i < path.len()
        invariant
            i <= path@.len(),
            wide@ == seq![QUOTE] + path@.take(i as int),
        decreases path@.len() - i,
    {
        wide.push(path[i]);
        proof {
            assert(path@.take(i + 1) =~= path@.take(i as int).push(path@[i as int]));
        }
        i = i + 1;
    }
    wide.push(QUOTE);
    wide.push(0);
    assert(path@.take(path@.len() as int) =~= path@);
    assert(wide@ =~= spec_run_command_line(path@));
    wide
}

} // verus!
