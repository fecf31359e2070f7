//! For the node that builds a round: how it names the author.

use vstd::prelude::*;

use crate::identity::Identity;
use crate::inherent_data::{
    inherent_entries, InherentDataError, InherentIdentifier, INHERENT_IDENTIFIER,
};
use crate::inherent_error::{debug_text, InherentError};
use sp_inherents::InherentData;

verus! {

/// Names a known author in the inherent data of a round. It serves where
/// anyone may author; a host with policies of its own fills the bag itself.
pub struct InherentDataProvider<AuthorId>(pub AuthorId);

impl<AuthorId: Identity> InherentDataProvider<AuthorId> {
    /// The identifier under which the author is put into the bag.
    pub fn inherent_identifier(&self) -> (identifier: InherentIdentifier)
        ensures
            identifier == INHERENT_IDENTIFIER,
    {
        INHERENT_IDENTIFIER
    }

    /// Puts the author into the bag. A bag that names an author already is
    /// left as it is.
    pub fn provide_inherent_data(&self, inherent_data: &mut InherentData) -> (provided: Result<
        (),
        InherentDataError,
    >)
        ensures
            provided == if inherent_entries(*old(inherent_data)).dom().contains(
                INHERENT_IDENTIFIER@,
            ) {
                Err::<(), InherentDataError>(InherentDataError::InherentDataExists)
            } else {
                Ok(())
            },
            provided is Err ==> inherent_entries(*final(inherent_data)) == inherent_entries(
                *old(inherent_data),
            ),
            provided is Ok ==> inherent_entries(*final(inherent_data)) == inherent_entries(
                *old(inherent_data),
            ).insert(INHERENT_IDENTIFIER@, self.0.encoding()),
    {
        self.0.put_into(inherent_data, INHERENT_IDENTIFIER)
    }

    /// The text of an error of this module that came back encoded, if
    /// `error` is one.
    pub fn error_to_string(&self, error: &[u8]) -> (text: Option<String>)
        ensures
            text is Some <==> InherentError::decoding(INHERENT_IDENTIFIER@, error@) is Some,
            text matches Some(shown) ==> shown@ == InherentError::shown(
                debug_text(InherentError::decoding(INHERENT_IDENTIFIER@, error@)->Some_0),
            ),
    {
        match InherentError::try_from(&INHERENT_IDENTIFIER, error) {
            Some(e) => Some(e.to_text()),
            None => None,
        }
    }
}

} // verus!
