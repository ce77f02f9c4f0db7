//! What monitors share with their evaluator: ownership of the state, and
//! words that change in one step.
use std::sync::Arc;
use std::sync::atomic::AtomicU64;
use std::sync::atomic::Ordering;
use vstd::prelude::*;

verus! {

/// Makes one more owner of a shared value.
///
/// Calls `Arc::clone`, which returns a pointer to the same allocation: the
/// value behind it is the value behind `owner`.
#[verifier::external_body]
pub(crate) fn share<T>(owner: &Arc<T>) -> (other: Arc<T>)
    ensures
        other == *owner,
{
    Arc::clone(owner)
}

/// A change to a shared word that depends on the word alone.
pub trait WordUpdate {
    /// The word after the change, or `None` where the change declines.
    spec fn updated(&self, word: u64) -> Option<u64>;

    /// Computes the word after the change.
    fn update(&self, word: u64) -> (next: Option<u64>)
        ensures
            next == self.updated(word),
    ;
}

/// Applies `change` to the word in `cell` in one step, however often other
/// threads change the word meanwhile, and returns the word that it found.
///
/// Calls `AtomicU64::fetch_update` with a closure that calls `change.update`.
/// It returns `Ok` with the word that it replaced where the closure returned
/// `Some` for that word, and `Err` with the word that it left where the
/// closure returned `None` for it.
#[verifier::external_body]
pub(crate) fn fetch_update<U: WordUpdate>(cell: &AtomicU64, change: &U) -> (found: Result<u64, u64>)
    ensures
        found matches Ok(word) ==> change.updated(word) is Some,
        found matches Err(word) ==> change.updated(word) is None,
{
    cell.fetch_update(Ordering::AcqRel, Ordering::Acquire, |word| change.update(word))
}

/// A word of 128 bits that threads read and replace in one step. Nothing of
/// what it holds is visible here. On a machine without an instruction that
/// exchanges 16 bytes, the type keeps the step whole by locks of its own.
#[verifier::external_type_specification]
#[verifier::external_body]
pub struct ExAtomicU128(portable_atomic::AtomicU128);

/// A change to a shared wide word that depends on the word alone.
pub trait WideWordUpdate {
    /// The word after the change, or `None` where the change declines.
    spec fn updated(&self, word: u128) -> Option<u128>;

    /// Computes the word after the change.
    fn update(&self, word: u128) -> (next: Option<u128>)
        ensures
            next == self.updated(word),
    ;
}

/// Makes a shared wide word that holds `word`.
///
/// Calls `portable_atomic::AtomicU128::new`. Other threads may replace the
/// word at any time, so nothing is said of what the result holds later.
#[verifier::external_body]
pub(crate) fn new_wide_word(word: u128) -> portable_atomic::AtomicU128 {
    portable_atomic::AtomicU128::new(word)
}

/// Reads the word in `cell` in one step.
///
/// Calls `portable_atomic::AtomicU128::load` with `Acquire`, an ordering on
/// which it does not panic. Which word it reads depends on the other
/// threads.
#[verifier::external_body]
pub(crate) fn load_wide_word(cell: &portable_atomic::AtomicU128) -> u128 {
    cell.load(Ordering::Acquire)
}

/// Replaces the word in `cell` by `word` in one step.
///
/// Calls `portable_atomic::AtomicU128::store` with `Release`, an ordering on
/// which it does not panic.
#[verifier::external_body]
pub(crate) fn store_wide_word(cell: &portable_atomic::AtomicU128, word: u128) {
    cell.store(word, Ordering::Release)
}

/// Applies `change` to the word in `cell` in one step, however often other
/// threads change the word meanwhile, and returns the word that it found.
///
/// Calls `portable_atomic::AtomicU128::fetch_update` with a closure that
/// calls `change.update`, and with orderings on which it does not panic. It
/// returns `Ok` with the word that it replaced where the closure returned
/// `Some` for that word, and `Err` with the word that it left where the
/// closure returned `None` for it.
#[verifier::external_body]
pub(crate) fn fetch_update_wide_word<U: WideWordUpdate>(
    cell: &portable_atomic::AtomicU128,
    change: &U,
) -> (found: Result<u128, u128>)
    ensures
        found matches Ok(word) ==> change.updated(word) is Some,
        found matches Err(word) ==> change.updated(word) is None,
{
    cell.fetch_update(Ordering::AcqRel, Ordering::Acquire, |word| change.update(word))
}

} // verus!
