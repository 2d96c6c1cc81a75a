pub mod memory;

use vstd::prelude::*;

verus! {

/// A pluggable backend persisting one state value per key. `contents` is the
/// full key-to-state mapping a store holds; the three operations read and
/// rewrite it one key at a time, and a failed operation leaves it untouched.
/// Distinct keys never interfere: every ensures below changes at most the
/// entry of the key it was given.
pub trait LocalStore<S>: Sized {
    /// A backend-specific failure. The reference in-memory store never fails.
    type Error;

    /// The mapping from keys to stored state that the store currently holds.
    spec fn contents(&self) -> Map<Seq<char>, S>;

    /// Whether this store promises success: where this holds, every
    /// operation returns `Ok`. It holds of the reference in-memory store; a
    /// backend that can fail leaves it false.
    spec fn spec_infallible(&self) -> bool;

    /// Reads the state stored for `key`, or nothing if the key was never
    /// set (or was cleared). Never mutates the store.
    fn get(&self, key: &str) -> (r: Result<Option<S>, Self::Error>)
        ensures
            self.spec_infallible() ==> r is Ok,
            match r {
                Ok(v) => v == if self.contents().contains_key(key@) {
                    Some(self.contents()[key@])
                } else {
                    None::<S>
                },
                Err(_) => true,
            },
    ;

    /// Replaces (or creates) the stored state for `key` in full.
    fn set(&mut self, key: &str, state: S) -> (r: Result<(), Self::Error>)
        ensures
            old(self).spec_infallible() ==> r is Ok && final(self).spec_infallible(),
            match r {
                Ok(_) => final(self).contents() == old(self).contents().insert(key@, state),
                Err(_) => final(self).contents() == old(self).contents(),
            },
    ;

    /// Removes all state for `key`, so that the next `get` finds nothing.
    fn clear(&mut self, key: &str) -> (r: Result<(), Self::Error>)
        ensures
            old(self).spec_infallible() ==> r is Ok && final(self).spec_infallible(),
            match r {
                Ok(_) => final(self).contents() == old(self).contents().remove(key@),
                Err(_) => final(self).contents() == old(self).contents(),
            },
    ;
}

/// LAW: clearing a key and then reading it finds nothing. A successful
/// `clear` leaves `contents().remove(key)` by its contract, and by this fact
/// a following `get` of the same key answers `None`.
pub proof fn lemma_clear_then_get_is_none<S>(contents: Map<Seq<char>, S>, key: Seq<char>)
    ensures
        !contents.remove(key).contains_key(key),
{
}

} // verus!
