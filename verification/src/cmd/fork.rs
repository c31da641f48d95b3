//! Forking the repository that projects are published into.

use vstd::prelude::*;

verus! {

/// The page on which the library repository is forked.
pub const FORK_URL: &'static str = "https://github.com/oseda-dev/oseda-lib/fork";

/// What to tell the user when the page cannot be opened for them.
pub fn fork_hint() -> (hint: String)
    ensures
        hint@ == "Please visit "@ + FORK_URL@
            + " in a browser and fork the oseda-lib repository"@,
{
    String::from_str("Please visit ").concat(FORK_URL).concat(
        " in a browser and fork the oseda-lib repository",
    )
}

} // verus!
