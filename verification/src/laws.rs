//! What holds of the authorship of a round, whatever the host does with it.

use vstd::prelude::*;

use crate::error::ClaimError;
use crate::identity::Identity;
use crate::inherent_data::INHERENT_IDENTIFIER;
use crate::module::{Call, Config, Module};
use crate::state::State;

verus! {

/// At the start of a round there is no author, whatever the last round left.
pub proof fn no_author_after_reset<A: Identity>(state: State<A>)
    ensures
        state.reset().author is None,
        state.reset().log == state.log,
        state.reset().noted == state.noted,
{
}

/// The first claim of a round, with the origin of an inherent and for an
/// author that the final policy admits, is accepted: the author is recorded,
/// the log grows by the one record of this author, and the listener is told
/// of this author once.
pub proof fn first_claim_is_accepted<A: Identity>(state: State<A>, author: A)
    ensures
        state.reset().verdict(true, true) is Ok,
        state.reset().claim(true, author, true).author == Some(author),
        state.reset().claim(true, author, true).log == state.log.push(
            State::<A>::record_of(author),
        ),
        state.reset().claim(true, author, true).noted == state.noted.push(author),
{
}

/// Once a claim is accepted, every further claim in the round is turned down
/// because the author is set, whoever it names and whatever the policy says
/// of them, and changes nothing.
pub proof fn second_claim_is_refused<A: Identity>(
    state: State<A>,
    first: A,
    second: A,
    admitted: bool,
)
    ensures
        ({
            let claimed = state.reset().claim(true, first, true);
            &&& claimed.verdict(true, admitted) == Err::<(), ClaimError>(
                ClaimError::AuthorAlreadySet,
            )
            &&& claimed.claim(true, second, admitted) == claimed
        }),
{
}

/// A claim that does not come with the origin of an inherent is turned down
/// for its origin, whatever the round holds and whatever the policy says of
/// the author, and changes nothing.
pub proof fn unprivileged_claim_is_refused<A: Identity>(state: State<A>, author: A, admitted: bool)
    ensures
        state.verdict(false, admitted) == Err::<(), ClaimError>(ClaimError::NotPermittedOrigin),
        state.claim(false, author, admitted) == state,
{
}

/// A claim for an author that the final policy does not admit changes
/// nothing. In a round without an author, it is turned down for that reason.
pub proof fn inadmissible_claim_is_refused<A: Identity>(state: State<A>, author: A)
    ensures
        state.claim(true, author, false) == state,
        state.verdict(true, false) is Err,
        state.author is None ==> state.verdict(true, false) == Err::<(), ClaimError>(
            ClaimError::CannotBeAuthor,
        ),
{
}

/// To start a round twice is to start it once.
pub proof fn reset_is_idempotent<A: Identity>(state: State<A>)
    ensures
        state.reset().reset() == state.reset(),
{
}

/// A claim never replaces an author: within a round the slot goes from empty
/// to one author and stays there.
pub proof fn author_is_written_once<A: Identity>(
    state: State<A>,
    privileged: bool,
    author: A,
    admitted: bool,
)
    ensures
        state.author is Some ==> state.claim(privileged, author, admitted).author == state.author,
        state.claim(privileged, author, admitted).author == state.author || (state.author is None
            && state.claim(privileged, author, admitted).author == Some(author)),
{
}

/// The log and the listener agree from the start, and every step keeps them
/// so: what is logged is what the listener hears, in the same order.
pub proof fn log_agrees_with_listener<A: Identity>(
    state: State<A>,
    privileged: bool,
    author: A,
    admitted: bool,
)
    ensures
        State::<A>::fresh().consistent(),
        state.consistent() ==> state.reset().consistent(),
        state.consistent() ==> state.claim(privileged, author, admitted).consistent(),
{
}

/// The author that a provider puts into a bag which names none yet is the
/// author of the claim that the bag gives rise to.
pub proof fn provided_author_is_claimed<T: Config>(
    entries: Map<Seq<u8>, Seq<u8>>,
    author: T::AuthorId,
)
    ensures
        Module::<T>::derived_call(entries.insert(INHERENT_IDENTIFIER@, author.encoding())) == Ok::<
            Call<T::AuthorId>,
            ClaimError,
        >(Call::SetAuthor(author)),
{
    author.decoding_inverts_encoding();
}

} // verus!
