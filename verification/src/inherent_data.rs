//! The bag of inherent data that comes with a round, and the place of the
//! author in it.

use vstd::bytes::{spec_u64_from_le_bytes, spec_u64_to_le_bytes};
use vstd::prelude::*;

use sp_inherents::InherentData;

verus! {

/// The name of an entry of the bag.
pub type InherentIdentifier = [u8; 8];

/// The name under which the author of the round lies in the bag: `author__`.
pub const INHERENT_IDENTIFIER: InherentIdentifier = [97, 117, 116, 104, 111, 114, 95, 95];

/// Whether `identifier` names the author in the bag of inherent data.
pub fn is_author_identifier(identifier: &InherentIdentifier) -> (same: bool)
    ensures
        same == (identifier@ == INHERENT_IDENTIFIER@),
{
    let mut i: usize = 0;
    while i < 8
        invariant
            i <= 8,
            forall|j: int| 0 <= j < i ==> identifier@[j] == INHERENT_IDENTIFIER@[j],
        decreases 8 - i,
    {
        if identifier[i] != INHERENT_IDENTIFIER[i] {
            return false;
        }
        i = i + 1;
    }
    assert(identifier@ =~= INHERENT_IDENTIFIER@);
    true
}

/// The bag itself is `sp_inherents::InherentData`: a map from identifiers to
/// encoded values that only its own methods read and fill.
#[verifier::external_type_specification]
#[verifier::external_body]
pub struct ExInherentData(sp_inherents::InherentData);

/// What `sp_inherents` reports when the bag refuses an entry or cannot
/// decode one.
#[verifier::external_type_specification]
#[verifier::external_body]
pub struct ExInherentsError(sp_inherents::Error);

/// The entries of a bag: the bytes that it holds under each identifier.
pub uninterp spec fn inherent_entries(data: InherentData) -> Map<Seq<u8>, Seq<u8>>;

/// Why the bag did not take or give a value.
#[derive(Clone, Copy, Debug, PartialEq, Eq, Structural)]
pub enum InherentDataError {
    /// The bag already holds an entry under the identifier.
    InherentDataExists,
    /// The entry under the identifier is no encoding of the value asked for.
    DecodingFailed,
}

/// `InherentData::put_data` with a `u64`: a bag that has no entry under
/// `identifier` gets one, the eight bytes of `value` with the lowest first;
/// a bag that has one is left as it is and answers with an error.
#[verifier::external_body]
pub(crate) fn put_u64(data: &mut InherentData, identifier: InherentIdentifier, value: &u64) -> (put:
    Result<(), sp_inherents::Error>)
    ensures
        put is Err <==> inherent_entries(*old(data)).dom().contains(identifier@),
        put is Err ==> inherent_entries(*final(data)) == inherent_entries(*old(data)),
        put is Ok ==> inherent_entries(*final(data)) == inherent_entries(*old(data)).insert(
            identifier@,
            spec_u64_to_le_bytes(*value),
        ),
{
    data.put_data(identifier, value)
}

/// The number that lies under `identifier` in `entries`: the one that the
/// first eight bytes of the entry give, lowest byte first, whatever follows
/// them. None where there is no entry, or one too short to hold a number.
pub open spec fn u64_entry(entries: Map<Seq<u8>, Seq<u8>>, identifier: Seq<u8>) -> Option<u64> {
    if entries.dom().contains(identifier) && entries[identifier].len() >= 8 {
        Some(spec_u64_from_le_bytes(entries[identifier].subrange(0, 8)))
    } else {
        None
    }
}

/// `InherentData::get_data` for a `u64`: an error where the bag has an entry
/// under `identifier` that is shorter than eight bytes; else the number
/// that the entry holds, or nothing where the bag has no such entry.
#[verifier::external_body]
pub(crate) fn get_u64(data: &InherentData, identifier: &InherentIdentifier) -> (got: Result<
    Option<u64>,
    sp_inherents::Error,
>)
    ensures
        got is Err <==> (inherent_entries(*data).dom().contains(identifier@) && u64_entry(
            inherent_entries(*data),
            identifier@,
        ) is None),
        got is Ok ==> got->Ok_0 == u64_entry(inherent_entries(*data), identifier@),
{
    data.get_data::<u64>(identifier)
}

} // verus!
