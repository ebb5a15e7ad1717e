//! The usage message of the program.

use vstd::prelude::*;
use vstd::string::*;

verus! {

/// The usage message for a program started as `exe`.
pub open spec fn usage_line(exe: Seq<char>) -> Seq<char> {
    "Usage: "@ + exe + " <file>\n"@
}

/// Writes the usage message to `out`, after what `out` holds.
pub fn print_usage(out: &mut String, exe: &str)
    ensures
        final(out)@ == old(out)@ + usage_line(exe@),
{
    out.append("Usage: ");
    out.append(exe);
    out.append(" <file>\n");
    assert(out@ =~= old(out)@ + usage_line(exe@));
}

} // verus!
