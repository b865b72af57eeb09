//! Command-line flags.

use vstd::prelude::*;
use crate::text::texts;

verus! {

/// `flag` is one of the arguments.
pub open spec fn has_flag(args: Seq<Seq<char>>, flag: Seq<char>) -> bool {
    exists|i: int| 0 <= i < args.len() && #[trigger] args[i] == flag
}


/// Whether any argument is exactly `flag`, as `args.iter().any(|a| a == flag)`.
pub fn contains_flag(args: &Vec<String>, flag: &str) -> (b: bool)
    ensures
        b == has_flag(texts(args@), flag@),
{
    let wanted = String::from_str(flag);
    let mut i: usize = 0;
    while i < args.len()
        invariant
            i <= args@.len(),
            wanted@ == flag@,
            forall|j: int| 0 <= j < i ==> #[trigger] args@[j]@ != flag@,
        decreases args@.len() - i,
    {
        if args[i] == wanted {
            assert(texts(args@)[i as int] == flag@);
            return true;
        }
        i = i + 1;
    }
    assert forall|j: int| 0 <= j < args@.len() implies #[trigger] texts(args@)[j] != flag@ by {
        assert(texts(args@)[j] == args@[j]@);
    }
    false
}

} // verus!
