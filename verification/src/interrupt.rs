//! The interrupt status word that the transport shares with the device.
//!
//! The device raises bits in it from its own threads, so nothing is known of
//! what a load returns. What is stated here is what the transport hands to
//! the atomic operations and what it makes of their results.

use std::sync::atomic::AtomicUsize;
use std::sync::atomic::Ordering;
use std::sync::Arc;
use vstd::prelude::*;

verus! {

/// What the status register shows for the status word `word`: its low 32
/// bits.
pub open spec fn status_bits(word: usize) -> u32 {
    (word & 0xffff_ffff) as u32
}

/// The mask that acknowledging the bits `ack` combines with the status
/// word: every bit but those of `ack`.
pub open spec fn ack_mask(ack: u32) -> usize {
    !(ack as usize)
}

/// The status word `word` after the bits `ack` are acknowledged.
pub open spec fn acked_word(word: usize, ack: u32) -> usize {
    word & ack_mask(ack)
}

/// Computes `status_bits`.
pub fn status_register(word: usize) -> (bits: u32)
    ensures
        bits == status_bits(word),
{
    assert(word & 0xffff_ffff <= 0xffff_ffff) by (bit_vector);
    (word & 0xffff_ffff) as u32
}

/// Computes `ack_mask`.
pub fn ack_mask_for(ack: u32) -> (mask: usize)
    ensures
        mask == ack_mask(ack),
{
    !(ack as usize)
}

/// Acknowledging clears, in what the status register shows, exactly the
/// acknowledged bits: each bit of the result is set when it was set before
/// and is not acknowledged.
pub proof fn lemma_ack_clears_acked_bits(word: usize, ack: u32)
    ensures
        status_bits(acked_word(word, ack)) == status_bits(word) & !ack,
        status_bits(acked_word(word, ack)) & ack == 0,
        status_bits(acked_word(word, 0)) == status_bits(word),
{
    assert(((word & !(ack as usize)) & 0xffff_ffff) as u32 == ((word & 0xffff_ffff) as u32) & !ack)
        by (bit_vector);
    assert((((word & 0xffff_ffff) as u32) & !ack) & ack == 0) by (bit_vector);
    assert(((word & !(0u32 as usize)) & 0xffff_ffff) as u32 == (word & 0xffff_ffff) as u32)
        by (bit_vector);
}

/// A status word with no bit set.
pub(crate) fn new_status() -> (status: Arc<AtomicUsize>) {
    Arc::new(AtomicUsize::new(0))
}

/// Loads the status word.
pub(crate) fn load_status(status: &Arc<AtomicUsize>) -> (word: usize) {
    status.load(Ordering::SeqCst)
}

/// Combines the status word with `mask` by an atomic and, and returns the
/// word as it was before.
pub(crate) fn mask_status(status: &Arc<AtomicUsize>, mask: usize) -> (before: usize) {
    status.fetch_and(mask, Ordering::SeqCst)
}

} // verus!
