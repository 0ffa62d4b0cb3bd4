//! One machine word of frame-allocation state, shared by all cores.
//!
//! The word is only ever changed by atomic read-modify-write operations, so a
//! chunk can be used through a shared reference from any core, including from
//! interrupt handlers. What another core does between two operations is not
//! known here: each operation states what holds of its result whatever the
//! word held, and the decisions it takes on the values it observed are the
//! functions of `bits`.

use vstd::prelude::*;
use core::sync::atomic::{AtomicUsize, Ordering};
use crate::allocator::bits::{
    after_failed_swap,
    bit_is_used,
    claim_run,
    failures_at,
    first_free_window,
    make_window,
    run_is_free,
    run_was_allocated,
    window_fits,
    window_free,
    word_is_full,
};

verus! {

/// Allocation state of `usize::BITS` consecutive frames.
pub struct FrameBitmapChunk {
    word: AtomicUsize,
    initial: Ghost<usize>,
}

fn load_word(word: &AtomicUsize) -> usize {
    word.load(Ordering::SeqCst)
}

fn fetch_or_word(word: &AtomicUsize, mask: usize) -> usize {
    word.fetch_or(mask, Ordering::SeqCst)
}

fn fetch_xor_word(word: &AtomicUsize, mask: usize) -> usize {
    word.fetch_xor(mask, Ordering::SeqCst)
}

fn exchange_word(word: &AtomicUsize, current: usize, new: usize) -> Result<usize, usize> {
    word.compare_exchange(current, new, Ordering::SeqCst, Ordering::SeqCst)
}

/// Sets bit `index` of `value` in one atomic step and returns whether it was
/// set before.
pub fn atomic_bit_test_set(value: &AtomicUsize, index: u8) -> bool
    requires
        index < usize::BITS,
{
    let bit = make_window(1, index);
    let previous = fetch_or_word(value, bit);
    bit_is_used(previous, index)
}

impl FrameBitmapChunk {
    /// Frames described by one chunk.
    pub const BITS: u32 = usize::BITS;

    /// The word that the chunk was created with.
    pub closed spec fn initial_word(&self) -> usize {
        self.initial@
    }

    /// A chunk whose word is `initial_value`: the set bits are frames that
    /// are in use from the start.
    pub fn new(initial_value: usize) -> (chunk: Self)
        ensures
            chunk.initial_word() == initial_value,
    {
        FrameBitmapChunk { word: AtomicUsize::new(initial_value), initial: Ghost(initial_value) }
    }

    /// The word as it is at some moment during the call.
    pub fn snapshot(&self) -> usize {
        load_word(&self.word)
    }

    /// Claims one free frame and returns its bit.
    ///
    /// Gives up at once when the word is seen full. Otherwise the bits are
    /// tested and set one by one from bit 0 up, each in one atomic step, and
    /// the first bit that was clear when it was set is the caller's.
    pub fn allocate_single(&self) -> (claimed: Option<u8>)
        ensures
            claimed matches Some(bit) ==> bit < usize::BITS,
    {
        if !word_is_full(load_word(&self.word)) {
            let width: u8 = usize::BITS as u8;
            let mut bit: u8 = 0;
            while bit < width
                invariant
                    width == usize::BITS,
                decreases width - bit,
            {
                if !atomic_bit_test_set(&self.word, bit) {
                    return Some(bit);
                }
                bit = bit + 1;
            }
        }
        None
    }

    /// Tries once to claim the run of `count` frames at `offset`, given that
    /// the word was last seen as `observed`.
    ///
    /// Nothing is attempted, and `observed` is handed back, when the run is
    /// not free in `observed`. Otherwise the word is replaced by `observed`
    /// with the run set, provided it still is `observed`; if it is not, the
    /// word as it is now comes back.
    pub fn try_claim(&self, observed: usize, count: u8, offset: u8) -> (outcome: Result<(), usize>)
        requires
            window_fits(count, offset),
        ensures
            !window_free(observed, count, offset) ==> outcome == Err::<(), usize>(observed),
    {
        if !run_is_free(observed, count, offset) {
            return Err(observed);
        }
        match exchange_word(&self.word, observed, claim_run(observed, count, offset)) {
            Ok(_) => Ok(()),
            Err(current) => Err(current),
        }
    }

    /// Claims a run of `count` consecutive free frames and returns the bit it
    /// starts at.
    ///
    /// The offsets at which the run fits are visited from 0 up. An offset is
    /// passed over when the run is not free there in the word as last seen.
    /// Where it is free, the run is installed by compare-and-swap against that
    /// word; a failed swap brings the word up to date, and after two failed
    /// swaps at one offset the search moves on to the next.
    pub fn allocate_many(&self, count: u8) -> (claimed: Option<u8>)
        requires
            count <= usize::BITS,
        ensures
            claimed matches Some(offset) ==> window_fits(count, offset),
    {
        let width: u8 = usize::BITS as u8;
        let mut previous = load_word(&self.word);
        let mut shift: u8 = 0;
        let mut failed: u8 = 0;
        while shift < width
            invariant
                count <= usize::BITS,
                width == usize::BITS,
                shift <= width,
                failed < 2,
            decreases width - shift, 2 - failed,
        {
            match first_free_window(previous, count, shift) {
                None => {
                    return None;
                },
                Some(offset) => {
                    let carried = failures_at(shift, offset, failed);
                    match self.try_claim(previous, count, offset) {
                        Ok(_) => {
                            return Some(offset);
                        },
                        Err(current) => {
                            previous = current;
                            let next = after_failed_swap(offset, carried);
                            shift = next.0;
                            failed = next.1;
                        },
                    }
                },
            }
        }
        None
    }

    /// Releases the run of `count` frames at `offset` by flipping its bits in
    /// one atomic step.
    ///
    /// Returns whether every frame of the run was in use before: `false` means
    /// that a frame was released that was not allocated.
    pub fn free(&self, offset: u8, count: u8) -> (released: bool)
        requires
            count <= usize::BITS,
            offset < usize::BITS,
    {
        let mask = make_window(count, offset);
        let previous = fetch_xor_word(&self.word, mask);
        run_was_allocated(previous, count, offset)
    }
}

} // verus!
