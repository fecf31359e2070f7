//! The authorship of a round as a mathematical state, and the steps it can
//! take.

use vstd::prelude::*;

use crate::error::ClaimError;
use crate::identity::Identity;

verus! {

/// The tag of a consensus engine in the log of a round.
pub type ConsensusEngineId = [u8; 4];

/// The tag under which claims of authorship are logged: `auth`.
pub const ENGINE_ID: ConsensusEngineId = [97, 117, 116, 104];

/// An entry of the log of a round that records who authored it: the tag of
/// this engine and the encoded author.
#[derive(Debug, PartialEq, Eq)]
pub struct ClaimRecord {
    pub engine_id: ConsensusEngineId,
    pub payload: Vec<u8>,
}

/// A claim record as plain values.
pub struct Record {
    pub engine_id: Seq<u8>,
    pub payload: Seq<u8>,
}

impl View for ClaimRecord {
    type V = Record;

    open spec fn view(&self) -> Record {
        Record { engine_id: self.engine_id@, payload: self.payload@ }
    }
}

/// The records of a log as plain values, in the order of the log.
pub open spec fn records(log: Seq<ClaimRecord>) -> Seq<Record> {
    log.map_values(|record: ClaimRecord| record@)
}

/// The authorship of a round.
pub struct State<A> {
    /// The author of the round, once a claim is accepted.
    pub author: Option<A>,
    /// The claims that were logged, oldest first.
    pub log: Seq<Record>,
    /// The authors that the listener was told of, oldest first.
    pub noted: Seq<A>,
}

impl<A: Identity> State<A> {
    /// Before anything has happened: no author, nothing logged, nobody told.
    pub open spec fn fresh() -> Self {
        State { author: None, log: Seq::empty(), noted: Seq::empty() }
    }

    /// The record that logs `author` as the author of the round.
    pub open spec fn record_of(author: A) -> Record {
        Record { engine_id: ENGINE_ID@, payload: author.encoding() }
    }

    /// Whether the log and the listener agree: each record is that of the
    /// author that the listener was told of at the same time.
    pub open spec fn consistent(self) -> bool {
        &&& self.log.len() == self.noted.len()
        &&& forall|i: int|
            0 <= i < self.log.len() ==> #[trigger] self.log[i] == Self::record_of(self.noted[i])
    }

    /// The start of a round: the author is forgotten, the log and the
    /// listener are left alone.
    pub open spec fn reset(self) -> Self {
        State { author: None, ..self }
    }

    /// Whether a claim is accepted, and if not, why. `privileged` says that
    /// it came with the origin of an inherent, `admitted` that the final
    /// policy lets the candidate author.
    pub open spec fn verdict(self, privileged: bool, admitted: bool) -> Result<(), ClaimError> {
        if !privileged {
            Err(ClaimError::NotPermittedOrigin)
        } else if self.author is Some {
            Err(ClaimError::AuthorAlreadySet)
        } else if !admitted {
            Err(ClaimError::CannotBeAuthor)
        } else {
            Ok(())
        }
    }

    /// `author` becomes the author: one record is logged, and the listener
    /// is told once.
    pub open spec fn accept(self, author: A) -> Self {
        State {
            author: Some(author),
            log: self.log.push(Self::record_of(author)),
            noted: self.noted.push(author),
        }
    }

    /// The state after a claim: `author` is accepted where the verdict is
    /// good, and nothing changes where it is not.
    pub open spec fn claim(self, privileged: bool, author: A, admitted: bool) -> Self {
        if self.verdict(privileged, admitted) is Ok {
            self.accept(author)
        } else {
            self
        }
    }
}

} // verus!
