//! The published level: one word that the capture side overwrites and any
//! number of readers load, without a lock.
//!
//! A level travels as the bit pattern of a single-precision number, widened
//! to the 64-bit word that the shared cell holds.

use std::sync::atomic::{AtomicU64, Ordering};
use vstd::prelude::*;

verus! {

/// The bit pattern of the level that a publisher holds before the first
/// write: that of zero.
pub const INITIAL_LEVEL_BITS: u32 = 0;

/// The word that carries a level's bit pattern: the pattern in its low half,
/// zeros above.
pub open spec fn word_of(bits: u32) -> u64 {
    bits as u64
}

/// The bit pattern that a word carries: its low 32 bits.
pub open spec fn bits_of(word: u64) -> u32 {
    (word as int % 0x1_0000_0000) as u32
}

/// Widens a level's bit pattern to the word that the cell stores.
pub fn encode_level(bits: u32) -> (word: u64)
    ensures
        word == word_of(bits),
{
    bits as u64
}

/// Takes a level's bit pattern out of a word loaded from the cell.
pub fn decode_level(word: u64) -> (bits: u32)
    ensures
        bits == bits_of(word),
{
    let low: u64 = word % 0x1_0000_0000;
    low as u32
}

/// Whatever pattern is encoded comes back unchanged when it is decoded: the
/// cell neither loses nor alters a bit of the level.
pub proof fn lemma_decode_encode(bits: u32)
    ensures
        bits_of(word_of(bits)) == bits,
{
}

/// Distinct patterns are carried by distinct words.
pub proof fn lemma_encode_injective(a: u32, b: u32)
    requires
        word_of(a) == word_of(b),
    ensures
        a == b,
{
}

/// The current level, shared between one writer and any number of readers.
///
/// Each access is one atomic load or store of the whole word, so a reader
/// never sees part of one level and part of another. Which write a read
/// observes is decided by the threads' timing, so no contract below says
/// what a read returns. What can be said is with which word the cell was
/// made: the publisher keeps a record of it beside the cell.
pub struct LevelPublisher {
    cell: AtomicU64,
    made_with: Ghost<u64>,
}

impl LevelPublisher {
    /// The bit pattern of the level that was handed to the cell when the
    /// publisher was made. It is a record of that moment, and says nothing of
    /// what the cell holds once a writer has been at work.
    pub closed spec fn initial_bits(&self) -> u32 {
        bits_of(self.made_with@)
    }

    /// A publisher made with the initial level, zero.
    pub fn new() -> (publisher: LevelPublisher)
        ensures
            publisher.initial_bits() == INITIAL_LEVEL_BITS,
    {
        let word = encode_level(INITIAL_LEVEL_BITS);
        LevelPublisher { cell: AtomicU64::new(word), made_with: Ghost(word) }
    }

    /// Publishes the level with the given bit pattern.
    pub fn write(&self, bits: u32) {
        self.cell.store(encode_level(bits), Ordering::Relaxed);
    }

    /// The bit pattern of a level that was published, or of the initial one.
    pub fn read(&self) -> (bits: u32) {
        decode_level(self.cell.load(Ordering::Relaxed))
    }
}

} // verus!
