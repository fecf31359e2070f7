//! The identities that can stand as author, and their encoding.

use vstd::bytes::{lemma_auto_spec_u64_to_from_le_bytes, spec_u64_from_le_bytes, spec_u64_to_le_bytes};
use vstd::prelude::*;

use crate::inherent_data::{
    get_u64, inherent_entries, put_u64, InherentDataError, InherentIdentifier,
};
use sp_inherents::InherentData;

verus! {

/// An identity that can be named as the author of a round. It has one
/// encoding, under which it travels in the bag of inherent data and is
/// written to the log of the round.
pub trait Identity: Sized + Copy {
    /// The bytes that stand for this identity.
    spec fn encoding(&self) -> Seq<u8>;

    /// The identity that is read from the front of `bytes`, if they start
    /// with the encoding of one.
    spec fn decoding(bytes: Seq<u8>) -> Option<Self>;

    /// What was encoded is read back as it was.
    proof fn decoding_inverts_encoding(&self)
        ensures
            Self::decoding(self.encoding()) == Some(*self),
    ;

    /// Encodes this identity.
    fn encode(&self) -> (bytes: Vec<u8>)
        ensures
            bytes@ == self.encoding(),
    ;

    /// Puts this identity into the bag under `identifier`, unless the bag
    /// has an entry there already.
    fn put_into(&self, data: &mut InherentData, identifier: InherentIdentifier) -> (put: Result<
        (),
        InherentDataError,
    >)
        ensures
            put == if inherent_entries(*old(data)).dom().contains(identifier@) {
                Err::<(), InherentDataError>(InherentDataError::InherentDataExists)
            } else {
                Ok(())
            },
            put is Err ==> inherent_entries(*final(data)) == inherent_entries(*old(data)),
            put is Ok ==> inherent_entries(*final(data)) == inherent_entries(*old(data)).insert(
                identifier@,
                self.encoding(),
            ),
    ;

    /// Reads an identity from the entry of the bag under `identifier`.
    fn get_from(data: &InherentData, identifier: &InherentIdentifier) -> (got: Result<
        Option<Self>,
        InherentDataError,
    >)
        ensures
            got == stored_identity(
                inherent_entries(*data),
                identifier@,
                Self::decoding(inherent_entries(*data)[identifier@]),
            ),
    ;
}

/// What a bag with the entries `entries` gives under `identifier`, where
/// `decoded` is what the entry there decodes to: nothing where it has no
/// entry, an error where it has one that does not decode.
pub open spec fn stored_identity<A>(
    entries: Map<Seq<u8>, Seq<u8>>,
    identifier: Seq<u8>,
    decoded: Option<A>,
) -> Result<Option<A>, InherentDataError> {
    if !entries.dom().contains(identifier) {
        Ok(None)
    } else {
        match decoded {
            Some(author) => Ok(Some(author)),
            None => Err(InherentDataError::DecodingFailed),
        }
    }
}

/// `Encode::encode` of `parity_scale_codec` on a `u64`: its eight bytes, the
/// lowest first.
#[verifier::external_body]
fn encode_u64(value: &u64) -> (bytes: Vec<u8>)
    ensures
        bytes@ == spec_u64_to_le_bytes(*value),
{
    parity_scale_codec::Encode::encode(value)
}

impl Identity for u64 {
    open spec fn encoding(&self) -> Seq<u8> {
        spec_u64_to_le_bytes(*self)
    }

    open spec fn decoding(bytes: Seq<u8>) -> Option<u64> {
        if bytes.len() >= 8 {
            Some(spec_u64_from_le_bytes(bytes.subrange(0, 8)))
        } else {
            None
        }
    }

    proof fn decoding_inverts_encoding(&self) {
        lemma_auto_spec_u64_to_from_le_bytes();
        assert(self.encoding().subrange(0, 8) =~= self.encoding());
    }

    fn encode(&self) -> (bytes: Vec<u8>) {
        encode_u64(self)
    }

    fn put_into(&self, data: &mut InherentData, identifier: InherentIdentifier) -> (put: Result<
        (),
        InherentDataError,
    >) {
        match put_u64(data, identifier, self) {
            Ok(()) => Ok(()),
            Err(_) => Err(InherentDataError::InherentDataExists),
        }
    }

    fn get_from(data: &InherentData, identifier: &InherentIdentifier) -> (got: Result<
        Option<u64>,
        InherentDataError,
    >) {
        match get_u64(data, identifier) {
            Ok(found) => Ok(found),
            Err(_) => Err(InherentDataError::DecodingFailed),
        }
    }
}

} // verus!
