use vstd::prelude::*;

use crate::casefold::lower;
use crate::casefold::matches_keyword;

verus! {

/// The oxidation algorithm a caller can select on the command line.
///
/// Each variant names one overall character of the effect, from the
/// lightest treatment to the heaviest low-pass filtering.
#[derive(Debug, Clone, Copy, PartialEq, Eq, Structural)]
pub enum OxidationAlgorithm {
    Light,
    Brown,
    Heavy,
}

impl OxidationAlgorithm {
    /// Maps a selector string to an algorithm, matching the names
    /// case-insensitively. Any unrecognized selector falls back to
    /// `Brown`, the default character of the effect.
    pub fn from_selector(s: &str) -> (r: OxidationAlgorithm)
        ensures
            lower(s@) == "light"@ ==> r == OxidationAlgorithm::Light,
            lower(s@) == "heavy"@ ==> r == OxidationAlgorithm::Heavy,
            (lower(s@) != "light"@ && lower(s@) != "heavy"@) ==> r == OxidationAlgorithm::Brown,
    {
        proof {
            reveal_strlit("light");
            reveal_strlit("heavy");
            // The two names differ in their first character, so a
            // selector cannot match both.
            assert("light"@ != "heavy"@) by {
                assert("light"@[0] != "heavy"@[0]);
            }
        }
        if matches_keyword(s, "light") {
            OxidationAlgorithm::Light
        } else if matches_keyword(s, "heavy") {
            OxidationAlgorithm::Heavy
        } else {
            OxidationAlgorithm::Brown
        }
    }
}

} // verus!
