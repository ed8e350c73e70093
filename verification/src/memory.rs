//! The stores the scheduler asks its caller to perform.
//!
//! The scheduler never writes to memory itself. Where an operation has to
//! leave a value in a 32-bit word, such as a thread identifier or the zero
//! that marks a thread as gone, it hands the store back as a value.

use vstd::prelude::*;

verus! {

/// A 32-bit store the caller has to perform.
#[derive(Clone, Copy, Debug, PartialEq, Eq, Structural)]
pub struct WordStore {
    pub addr: usize,
    pub value: i32,
}

/// Memory as the futex and thread-identifier words see it: 32-bit words by
/// address.
pub type WordMemory = Map<usize, i32>;

/// Memory after an optional store.
pub open spec fn stored(mem: WordMemory, store: Option<WordStore>) -> WordMemory {
    match store {
        Some(s) => mem.insert(s.addr, s.value),
        None => mem,
    }
}

} // verus!
