//! Reading the operator's start preference from the command line.

use vstd::prelude::*;
use crate::text::same_text;

verus! {

/// Why the sequence must not start.
#[derive(Clone, Copy, Debug, PartialEq, Eq, Structural)]
pub enum StartupError {
    /// The argument at `index` is none of the known flags.
    InvalidArgument { index: usize },
}

/// The flag that asks for the primary knife.
pub open spec fn primary_flag() -> Seq<char> {
    "-p"@
}

/// The flag that asks for the secondary knife.
pub open spec fn secondary_flag() -> Seq<char> {
    "-s"@
}

/// Whether an argument is one of the two flags.
pub open spec fn is_flag(arg: Seq<char>) -> bool {
    arg == primary_flag() || arg == secondary_flag()
}

/// The two flags differ.
pub proof fn lemma_flags_differ()
    ensures
        primary_flag() != secondary_flag(),
        primary_flag() =~= seq!['-', 'p'],
        secondary_flag() =~= seq!['-', 's'],
{
    reveal_strlit("-p");
    reveal_strlit("-s");
    assert(primary_flag()[1] != secondary_flag()[1]);
}

/// Decides from the arguments after the program's name whether to start on
/// the primary knife. Without arguments it is the primary; among several
/// flags the last one decides. The first argument that is no flag is
/// reported and nothing is selected.
pub fn controller_selection(args: &Vec<String>) -> (selected: Result<bool, StartupError>)
    ensures
        match selected {
            Ok(primary) => {
                &&& forall|i: int| 0 <= i < args@.len() ==> is_flag(#[trigger] args@[i]@)
                &&& primary == (args@.len() == 0 || args@[args@.len() - 1]@ == primary_flag())
            },
            Err(StartupError::InvalidArgument { index }) => {
                &&& index < args@.len()
                &&& !is_flag(args@[index as int]@)
                &&& forall|i: int| 0 <= i < index ==> is_flag(#[trigger] args@[i]@)
            },
        },
{
    proof {
        lemma_flags_differ();
    }
    let mut primary = true;
    let mut i: usize = 0;
    while i < args.len()
        invariant
            i <= args@.len(),
            forall|j: int| 0 <= j < i ==> is_flag(#[trigger] args@[j]@),
            primary == (i == 0 || args@[i - 1]@ == primary_flag()),
            primary_flag() != secondary_flag(),
        decreases args@.len() - i,
    {
        let arg = args[i].as_str();
        if same_text(arg, "-s") {
            primary = false;
        } else if same_text(arg, "-p") {
            primary = true;
        } else {
            return Err(StartupError::InvalidArgument { index: i });
        }
        i = i + 1;
    }
    Ok(primary)
}

} // verus!
