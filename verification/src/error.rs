//! What can go wrong with a claim of authorship.

use vstd::prelude::*;

verus! {

/// Why there is no claim, or why a claim was turned down. Each of these
/// makes the round invalid; none is recovered from here.
#[derive(Clone, Copy, Debug, PartialEq, Eq, Structural)]
pub enum ClaimError {
    /// The claim did not come with the origin of an inherent.
    NotPermittedOrigin,
    /// An author is already recorded for this round.
    AuthorAlreadySet,
    /// The admission policy turned the candidate down.
    CannotBeAuthor,
    /// The inherent data of the round names no author.
    InherentMissing,
    /// What the inherent data holds as the author does not decode to one.
    InherentUndecodable,
}

} // verus!
