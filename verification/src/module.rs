//! The authorship of a round as the host drives it.

use vstd::prelude::*;

use crate::error::ClaimError;
use crate::identity::Identity;
use crate::inherent_data::{inherent_entries, INHERENT_IDENTIFIER};
use crate::inherent_error::InherentError;
use crate::origin::{ensure_none, Origin};
use crate::policy::{CanAuthor, EventHandler};
use crate::state::{records, ClaimRecord, State, ENGINE_ID};
use sp_inherents::InherentData;
use vstd::string::StringExecFns;

verus! {

/// What the host decides once, when it sets the module up.
pub trait Config {
    /// The accounts that can sign a call.
    type AccountId;

    /// The identities that can author a round.
    type AuthorId: Identity;

    /// Who is told of the author of each round.
    type EventHandler: EventHandler<Self::AuthorId>;

    /// The check that is made before the round is executed. It is meant to
    /// turn obviously wrong authors down early, and need not catch them all.
    type PreliminaryCanAuthor: CanAuthor<Self::AuthorId>;

    /// The check that is made when the claim is executed. It has the last
    /// word.
    type FullCanAuthor: CanAuthor<Self::AuthorId>;
}

/// The calls of this module.
#[derive(Debug, PartialEq, Eq)]
pub enum Call<AuthorId> {
    /// Claims the round for an author.
    SetAuthor(AuthorId),
}

/// The authorship of the current round, with the policies and the listener
/// of the host.
pub struct Module<T: Config> {
    author: Option<T::AuthorId>,
    digest: Vec<ClaimRecord>,
    noted: Ghost<Seq<T::AuthorId>>,
    event_handler: T::EventHandler,
    preliminary_can_author: T::PreliminaryCanAuthor,
    full_can_author: T::FullCanAuthor,
}

impl<T: Config> View for Module<T> {
    type V = State<T::AuthorId>;

    closed spec fn view(&self) -> State<T::AuthorId> {
        State { author: self.author, log: records(self.digest@), noted: self.noted@ }
    }
}

impl<T: Config> Module<T> {
    /// The listener as it stands.
    pub closed spec fn listener(&self) -> T::EventHandler {
        self.event_handler
    }

    /// The preliminary policy as it stands.
    pub closed spec fn preliminary_policy(&self) -> T::PreliminaryCanAuthor {
        self.preliminary_can_author
    }

    /// The final policy as it stands.
    pub closed spec fn final_policy(&self) -> T::FullCanAuthor {
        self.full_can_author
    }

    /// A module before its first round.
    pub fn new(
        event_handler: T::EventHandler,
        preliminary_can_author: T::PreliminaryCanAuthor,
        full_can_author: T::FullCanAuthor,
    ) -> (module: Self)
        ensures
            module@ == State::<T::AuthorId>::fresh(),
            module.listener() == event_handler,
            module.preliminary_policy() == preliminary_can_author,
            module.final_policy() == full_can_author,
    {
        let module = Module {
            author: None,
            digest: Vec::new(),
            noted: Ghost(Seq::empty()),
            event_handler,
            preliminary_can_author,
            full_can_author,
        };
        assert(records(module.digest@) =~= Seq::empty());
        module
    }

    /// A module that takes up a round where the host left it: with the
    /// author that the host has on record, and nothing logged or told yet.
    pub fn restore(
        author: Option<T::AuthorId>,
        event_handler: T::EventHandler,
        preliminary_can_author: T::PreliminaryCanAuthor,
        full_can_author: T::FullCanAuthor,
    ) -> (module: Self)
        ensures
            module@ == (State::<T::AuthorId> { author, ..State::<T::AuthorId>::fresh() }),
            module.listener() == event_handler,
            module.preliminary_policy() == preliminary_can_author,
            module.final_policy() == full_can_author,
    {
        let module = Module {
            author,
            digest: Vec::new(),
            noted: Ghost(Seq::empty()),
            event_handler,
            preliminary_can_author,
            full_can_author,
        };
        assert(records(module.digest@) =~= Seq::empty());
        module
    }

    /// The start of a round: whoever authored the last one is forgotten.
    pub fn on_initialize(&mut self)
        ensures
            final(self)@ == old(self)@.reset(),
            final(self).listener() == old(self).listener(),
            final(self).preliminary_policy() == old(self).preliminary_policy(),
            final(self).final_policy() == old(self).final_policy(),
    {
        self.author = None;
    }

    /// A claim whose admission is decided: `privileged` says that it came
    /// with the origin of an inherent, `admitted` what the final policy said
    /// of `author`. An accepted claim fills the slot, logs one record and
    /// tells the listener, in this order; a claim that is turned down leaves
    /// everything as it was.
    pub fn claim(&mut self, privileged: bool, author: T::AuthorId, admitted: bool) -> (claimed:
        Result<(), ClaimError>)
        ensures
            claimed == old(self)@.verdict(privileged, admitted),
            final(self)@ == old(self)@.claim(privileged, author, admitted),
            claimed is Ok ==> exists|handler: &mut T::EventHandler|
                mut_ref_current(handler) == old(self).listener() && mut_ref_future(handler)
                    == final(self).listener() && #[trigger] call_ensures(
                    <T::EventHandler as EventHandler<T::AuthorId>>::note_author,
                    (handler, author),
                    (),
                ),
            claimed is Err ==> *final(self) == *old(self),
            final(self).preliminary_policy() == old(self).preliminary_policy(),
            final(self).final_policy() == old(self).final_policy(),
    {
        if !privileged {
            return Err(ClaimError::NotPermittedOrigin);
        }
        if self.author.is_some() {
            return Err(ClaimError::AuthorAlreadySet);
        }
        if !admitted {
            return Err(ClaimError::CannotBeAuthor);
        }
        self.author = Some(author);
        let record = ClaimRecord { engine_id: ENGINE_ID, payload: author.encode() };
        self.digest.push(record);
        self.event_handler.note_author(author);
        proof {
            self.noted@ = self.noted@.push(author);
            assert(records(self.digest@) =~= records(old(self).digest@).push(
                State::<T::AuthorId>::record_of(author),
            ));
        }
        Ok(())
    }

    /// Claims the round for `author`. The claim is accepted where it comes
    /// with the origin of an inherent, the round has no author yet, and the
    /// final policy admits `author`; the policy is asked only where the first
    /// two hold, and the preliminary policy is not asked at all. An accepted
    /// claim fills the slot, logs one record and tells the listener once, in
    /// this order; a claim that is turned down leaves everything as it was.
    pub fn set_author(&mut self, origin: Origin<T::AccountId>, author: T::AuthorId) -> (claimed:
        Result<(), ClaimError>)
        ensures
            claimed == old(self)@.verdict(
                origin is Unsigned,
                old(self).final_policy().admits(&author),
            ),
            final(self)@ == old(self)@.claim(
                origin is Unsigned,
                author,
                old(self).final_policy().admits(&author),
            ),
            claimed is Ok ==> exists|handler: &mut T::EventHandler|
                mut_ref_current(handler) == old(self).listener() && mut_ref_future(handler)
                    == final(self).listener() && #[trigger] call_ensures(
                    <T::EventHandler as EventHandler<T::AuthorId>>::note_author,
                    (handler, author),
                    (),
                ),
            claimed is Err ==> *final(self) == *old(self),
            final(self).preliminary_policy() == old(self).preliminary_policy(),
            final(self).final_policy() == old(self).final_policy(),
    {
        let privileged = ensure_none(origin).is_ok();
        let admitted = privileged && self.author.is_none() && self.full_can_author.can_author(
            &author,
        );
        self.claim(privileged, author, admitted)
    }

    /// The author of the round, once the claim is accepted. What the log
    /// holds is not looked at: the slot has the last word.
    pub fn find_author<I>(&self, _digests: I) -> (author: Option<T::AuthorId>)
        ensures
            author == self@.author,
    {
        self.author
    }

    /// The claims that were logged, oldest first.
    pub fn digest(&self) -> (log: &Vec<ClaimRecord>)
        ensures
            records(log@) == self@.log,
    {
        &self.digest
    }

    /// The listener.
    pub fn event_handler(&self) -> (handler: &T::EventHandler)
        ensures
            *handler == self.listener(),
    {
        &self.event_handler
    }
}

/// The inherent of this module: how the author that the bag of inherent data
/// names becomes a claim, and what is checked of it before the round is
/// executed.
impl<T: Config> Module<T> {
    /// The call that a bag with the entries `entries` gives rise to: the
    /// claim for the author that the bag names. A bag that names none, or
    /// holds what decodes to none, gives no call.
    pub open spec fn derived_call(entries: Map<Seq<u8>, Seq<u8>>) -> Result<
        Call<T::AuthorId>,
        ClaimError,
    > {
        if !entries.dom().contains(INHERENT_IDENTIFIER@) {
            Err(ClaimError::InherentMissing)
        } else {
            match T::AuthorId::decoding(entries[INHERENT_IDENTIFIER@]) {
                Some(author) => Ok(Call::SetAuthor(author)),
                None => Err(ClaimError::InherentUndecodable),
            }
        }
    }

    /// Every round needs this inherent, whatever the bag holds: a round
    /// without it is refused with the error given here.
    pub fn is_inherent_required(_data: &InherentData) -> (required: Result<
        Option<InherentError>,
        InherentError,
    >)
        ensures
            required matches Ok(Some(error)) && error@ == "AuthorInherentRequired"@,
    {
        Ok(Some(InherentError::Other(String::from_str("AuthorInherentRequired"))))
    }

    /// The claim for the author that the bag names.
    pub fn create_inherent(data: &InherentData) -> (created: Result<Call<T::AuthorId>, ClaimError>)
        ensures
            created == Self::derived_call(inherent_entries(*data)),
    {
        match T::AuthorId::get_from(data, &INHERENT_IDENTIFIER) {
            Ok(Some(author)) => Ok(Call::SetAuthor(author)),
            Ok(None) => Err(ClaimError::InherentMissing),
            Err(_) => Err(ClaimError::InherentUndecodable),
        }
    }

    /// What the check before execution says once the preliminary policy has
    /// spoken: a candidate that it does not admit is refused.
    pub fn check_admission(admitted: bool) -> (checked: Result<(), InherentError>)
        ensures
            checked is Ok <==> admitted,
            checked matches Err(error) ==> error@ == "Cannot Be Author"@,
    {
        if admitted {
            Ok(())
        } else {
            Err(InherentError::Other(String::from_str("Cannot Be Author")))
        }
    }

    /// Checks a claim before the round is executed, by the preliminary
    /// policy alone: the claim passes exactly where this policy, asked of
    /// the author that the claim names, admits them. A claim that passes here
    /// can still be turned down when it is executed.
    pub fn check_inherent(&self, call: &Call<T::AuthorId>, _data: &InherentData) -> (checked:
        Result<(), InherentError>)
        ensures
            checked is Ok <==> self.preliminary_policy().admits(&call->0),
            checked matches Err(error) ==> error@ == "Cannot Be Author"@,
    {
        match call {
            Call::SetAuthor(claimed_author) => {
                let admitted = self.preliminary_can_author.can_author(claimed_author);
                Self::check_admission(admitted)
            },
        }
    }

    /// Whether `call` is the inherent of this module.
    pub fn is_inherent(call: &Call<T::AuthorId>) -> (inherent: bool)
        ensures
            inherent == (call is SetAuthor),
    {
        match call {
            Call::SetAuthor(_) => true,
        }
    }
}

} // verus!
