//! What the host plugs in: the admission policies and the listener.

use vstd::prelude::*;

verus! {

/// Somebody who wants to hear who the author of the round is.
pub trait EventHandler<Author> {
    /// Told once for each accepted claim, after the claim is recorded.
    fn note_author(&mut self, author: Author);
}

/// Nobody listens.
impl<T> EventHandler<T> for () {
    fn note_author(&mut self, _author: T) {
    }
}

/// A rule on who may author the round.
pub trait CanAuthor<AuthorId> {
    /// The decision of this policy on `author`: whether they may author at
    /// this point. It rests on the policy and the candidate, and on nothing
    /// else.
    spec fn admits(&self, author: &AuthorId) -> bool;

    /// Asks the policy for its decision on `author`.
    fn can_author(&self, author: &AuthorId) -> (allowed: bool)
        ensures
            allowed == self.admits(author),
    ;
}

/// Anyone may author.
impl<T> CanAuthor<T> for () {
    open spec fn admits(&self, author: &T) -> bool {
        true
    }

    fn can_author(&self, _author: &T) -> (allowed: bool) {
        true
    }
}

} // verus!
