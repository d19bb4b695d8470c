//! The session gate: one shared credential, issued lazily on first
//! retrieval and immutable afterwards, compared on every gated request.

use vstd::prelude::*;

use crate::command::str_eq;

verus! {

/// Owns the process-wide session key.  `None` until the key is first
/// retrieved; once issued the key never changes.
pub struct SessionGate {
    pub key: Option<String>,
}

/// The key held after one retrieval, where `fresh` is the value stored
/// when no key was present before.
pub open spec fn key_after_retrieval(key: Option<Seq<char>>, fresh: Seq<char>) -> Option<
    Seq<char>,
> {
    match key {
        Some(k) => Some(k),
        None => Some(fresh),
    }
}

/// Whether a candidate credential matches the current key; while no key
/// has been issued, no candidate matches.
pub open spec fn key_matches(key: Option<Seq<char>>, candidate: Seq<char>) -> bool {
    match key {
        Some(k) => candidate == k,
        None => false,
    }
}

/// The key text that such a retrieval hands back.
pub open spec fn retrieved_key(key: Option<Seq<char>>, fresh: Seq<char>) -> Seq<char> {
    match key {
        Some(k) => k,
        None => fresh,
    }
}

impl View for SessionGate {
    type V = Option<Seq<char>>;

    open spec fn view(&self) -> Option<Seq<char>> {
        match self.key {
            Some(k) => Some(k@),
            None => None,
        }
    }
}

impl SessionGate {
    /// Whether `candidate` matches the current key.
    pub open spec fn spec_matches(self, candidate: Seq<char>) -> bool {
        key_matches(self@, candidate)
    }

    /// A gate with no key issued yet.
    pub fn new() -> (g: SessionGate)
        ensures
            g@ is None,
    {
        SessionGate { key: None }
    }

    /// Returns the existing key, or stores `fresh` as the key if none
    /// exists yet; idempotent after the first call.
    pub fn get_or_create(&mut self, fresh: String) -> (r: String)
        ensures
            final(self)@ == key_after_retrieval(old(self)@, fresh@),
            r@ == retrieved_key(old(self)@, fresh@),
            final(self)@ == Some(r@),
    {
        match &self.key {
            Some(k) => k.clone(),
            None => {
                self.key = Some(fresh.clone());
                fresh
            },
        }
    }

    /// Exact comparison of a candidate credential against the current key.
    pub fn matches(&self, candidate: &str) -> (r: bool)
        ensures
            r == self.spec_matches(candidate@),
    {
        match &self.key {
            Some(k) => str_eq(k.as_str(), candidate),
            None => false,
        }
    }

    /// Returns the session key, issuing a fresh one on the first call.
    pub fn retrieve(&mut self) -> (r: String)
        ensures
            final(self)@ == key_after_retrieval(old(self)@, r@),
            r@ == retrieved_key(old(self)@, r@),
            final(self)@ == Some(r@),
            old(self)@ is None ==> r@.len() == 36,
    {
        let fresh = fresh_key();
        self.get_or_create(fresh)
    }
}

/// Relies on `uuid::Uuid::new_v4` and the hyphenated lower-case form its
/// `Display` impl renders: a fresh random UUID as 36 characters.  The value
/// is random, so nothing more is promised of it.
#[verifier::external_body]
fn fresh_key() -> (r: String)
    ensures
        r@.len() == 36,
{
    uuid::Uuid::new_v4().to_string()
}

/// Law: session-key retrieval is idempotent.  Once one retrieval has run
/// (issuing `f1` if no key existed), a second retrieval returns exactly the
/// key the first one returned and leaves it in place, whatever fresh value
/// `f2` it would otherwise have issued.
pub proof fn lemma_session_key_idempotent(key0: Option<Seq<char>>, f1: Seq<char>, f2: Seq<char>)
    ensures
        retrieved_key(key_after_retrieval(key0, f1), f2) == retrieved_key(key0, f1),
        key_after_retrieval(key_after_retrieval(key0, f1), f2) == key_after_retrieval(key0, f1),
{
}

} // verus!
