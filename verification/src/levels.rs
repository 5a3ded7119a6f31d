use vstd::prelude::*;

use crate::casefold::lower;
use crate::casefold::matches_keyword;
use crate::error::OxidizerError;

verus! {

/// The intensity of the "oxidation" (low-pass) filter effect.
///
/// Each level stands for one fixed filter coefficient (alpha) of the
/// one-pole low-pass recursion: `Clear` keeps most treble, `Deep`
/// gives a mellow tone, and `Muffled` removes most high frequency.
#[derive(Debug, Clone, Copy, PartialEq, Eq, Structural)]
pub enum OxidationLevel {
    Clear,
    Deep,
    Muffled,
}

impl OxidationLevel {
    /// Parses a string into an `OxidationLevel`, matching the level
    /// names case-insensitively. Any other input is rejected with
    /// [`OxidizerError::InvalidValue`] carrying the offending string.
    pub fn try_from_str(s: &str) -> (r: Result<OxidationLevel, OxidizerError>)
        ensures
            (r == Ok::<OxidationLevel, OxidizerError>(OxidationLevel::Clear)) <==> lower(s@)
                == "clear"@,
            (r == Ok::<OxidationLevel, OxidizerError>(OxidationLevel::Deep)) <==> lower(s@)
                == "deep"@,
            (r == Ok::<OxidationLevel, OxidizerError>(OxidationLevel::Muffled)) <==> lower(s@)
                == "muffled"@,
            r is Err <==> (lower(s@) != "clear"@ && lower(s@) != "deep"@ && lower(s@)
                != "muffled"@),
            r matches Err(e) ==> (e matches OxidizerError::InvalidValue(m) && m@ == s@),
    {
        proof {
            reveal_strlit("clear");
            reveal_strlit("deep");
            reveal_strlit("muffled");
            // The three names have distinct lengths, so no two can match.
            assert("clear"@.len() == 5);
            assert("deep"@.len() == 4);
            assert("muffled"@.len() == 7);
        }
        if matches_keyword(s, "clear") {
            Ok(OxidationLevel::Clear)
        } else if matches_keyword(s, "muffled") {
            Ok(OxidationLevel::Muffled)
        } else if matches_keyword(s, "deep") {
            Ok(OxidationLevel::Deep)
        } else {
            Err(OxidizerError::InvalidValue(s.to_owned()))
        }
    }
}

} // verus!
