//! Arithmetic on one bitmap word.
//!
//! A word describes `usize::BITS` consecutive frames: bit `i` is set while
//! frame `i` is allocated or permanently reserved. Everything here is a pure
//! function of the words it is given; the atomic chunk applies these functions
//! to the values it observes.

use vstd::prelude::*;

verus! {

/// The word whose `count` lowest bits are set (`count` is capped at the word width).
pub open spec fn run_mask(count: u8) -> usize {
    if count >= usize::BITS {
        !0usize
    } else {
        ((1usize << count) - 1) as usize
    }
}

/// A run of `count` bits starting at bit `offset`. Bits that would lie above
/// the word are dropped.
pub open spec fn window(count: u8, offset: u8) -> usize {
    run_mask(count) << offset
}

/// The run of `count` bits at `offset` lies inside one word.
pub open spec fn window_fits(count: u8, offset: u8) -> bool {
    offset < usize::BITS && offset + count <= usize::BITS
}

/// Bit `bit` of `word` is set: the frame is allocated or reserved.
pub open spec fn bit_used(word: usize, bit: u8) -> bool {
    (word >> bit) & 1 == 1
}

/// None of the frames of the run is in use in `word`.
pub open spec fn window_free(word: usize, count: u8, offset: u8) -> bool {
    word & window(count, offset) == 0
}

/// All the frames of the run are in use in `word`.
pub open spec fn window_used(word: usize, count: u8, offset: u8) -> bool {
    word & window(count, offset) == window(count, offset)
}

/// `word` after the run has been claimed.
pub open spec fn with_run_claimed(word: usize, count: u8, offset: u8) -> usize {
    word | window(count, offset)
}

/// `word` after the run has been released.
pub open spec fn with_run_released(word: usize, count: u8, offset: u8) -> usize {
    word ^ window(count, offset)
}

/// The lowest offset, not below `from`, at which a run of `count` frames fits
/// and is free in `word`.
pub open spec fn is_first_free_window(word: usize, count: u8, from: u8, offset: u8) -> bool {
    &&& from <= offset
    &&& window_fits(count, offset)
    &&& window_free(word, count, offset)
    &&& forall|earlier: u8|
        from <= earlier < offset ==> !#[trigger] window_free(word, count, earlier)
}

/// No run of `count` frames at or after `from` fits and is free in `word`.
pub open spec fn no_free_window(word: usize, count: u8, from: u8) -> bool {
    forall|offset: u8|
        from <= offset && window_fits(count, offset) ==> !#[trigger] window_free(
            word,
            count,
            offset,
        )
}

/// In the word that has its `low` lowest bits set and all bits from `high` up,
/// a bit is set exactly if it lies below `low` or not below `high`.
pub proof fn lemma_reserved_bits(low: u8, high: u8, bit: u8)
    requires
        low <= usize::BITS,
        high <= usize::BITS,
        bit < usize::BITS,
    ensures
        bit_used(run_mask(low) | !run_mask(high), bit) <==> (bit < low || bit >= high),
{
    assert(bit_used(run_mask(low) | !run_mask(high), bit) <==> (bit < low || bit >= high))
        by (bit_vector)
        requires
            low <= usize::BITS,
            high <= usize::BITS,
            bit < usize::BITS,
    ;
}

/// Computes `run_mask(count)`.
pub fn make_run_mask(count: u8) -> (mask: usize)
    requires
        count <= usize::BITS,
    ensures
        mask == run_mask(count),
{
    if count as u32 >= usize::BITS {
        !0usize
    } else {
        assert((1usize << count) >= 1) by (bit_vector)
            requires
                count < usize::BITS,
        ;
        (1usize << count) - 1
    }
}

/// Computes `window(count, offset)`.
pub fn make_window(count: u8, offset: u8) -> (mask: usize)
    requires
        count <= usize::BITS,
        offset < usize::BITS,
    ensures
        mask == window(count, offset),
{
    make_run_mask(count) << offset
}

/// Whether the run of `count` frames at `offset` is free in `word`.
pub fn run_is_free(word: usize, count: u8, offset: u8) -> (free: bool)
    requires
        count <= usize::BITS,
        offset < usize::BITS,
    ensures
        free == window_free(word, count, offset),
{
    let mask = make_window(count, offset);
    word & mask == 0
}

/// The word that is installed to claim the run of `count` frames at
/// `offset`, given that the word was seen as `word`: the run is set and
/// every other frame stays as it was.
pub fn claim_run(word: usize, count: u8, offset: u8) -> (claimed: usize)
    requires
        window_fits(count, offset),
    ensures
        claimed == with_run_claimed(word, count, offset),
{
    word | make_window(count, offset)
}

/// How many swaps count as failed at `offset`, given that `failed` swaps
/// had failed at `shift`, the offset that the search stood at before: a
/// search that has moved on to a later offset starts counting anew.
pub fn failures_at(shift: u8, offset: u8, failed: u8) -> (carried: u8)
    ensures
        carried == if offset == shift {
            failed
        } else {
            0u8
        },
{
    if offset != shift {
        0
    } else {
        failed
    }
}

/// Where the search for a run goes on after a swap at `offset` has failed,
/// and how many failed swaps it counts there. The first failure at an offset
/// lets the search try the same offset once more; the second moves it on to
/// the next offset.
pub fn after_failed_swap(offset: u8, failed: u8) -> (next: (u8, u8))
    requires
        offset < usize::BITS,
        failed < 2,
    ensures
        next == if failed == 1 {
            ((offset + 1) as u8, 0u8)
        } else {
            (offset, 1u8)
        },
{
    if failed == 1 {
        (offset + 1, 0)
    } else {
        (offset, 1)
    }
}

/// Whether frame `bit` is in use in `word`.
pub fn bit_is_used(word: usize, bit: u8) -> (used: bool)
    requires
        bit < usize::BITS,
    ensures
        used == bit_used(word, bit),
        used == !window_free(word, 1, bit),
{
    let mask = make_window(1, bit);
    assert((word & window(1, bit) != 0) == bit_used(word, bit)) by (bit_vector)
        requires
            bit < usize::BITS,
    ;
    word & mask != 0
}

/// Every frame is in use in `word`.
pub open spec fn all_used(word: usize) -> bool {
    forall|bit: u8| bit < usize::BITS ==> #[trigger] bit_used(word, bit)
}

/// A word in which every frame is in use has all its bits set, and no other
/// word has.
pub proof fn lemma_all_used(word: usize)
    ensures
        all_used(word) <==> word == !0usize,
{
    if word == !0usize {
        assert forall|bit: u8| bit < usize::BITS implies #[trigger] bit_used(word, bit) by {
            assert(bit_used(word, bit)) by (bit_vector)
                requires
                    word == !0usize,
                    bit < usize::BITS,
            ;
        }
    }
    if all_used(word) {
        lemma_low_bits_used(word, usize::BITS as u8);
        assert(word == !0usize) by (bit_vector)
            requires
                word & run_mask(usize::BITS as u8) == run_mask(usize::BITS as u8),
        ;
    }
}

/// In a word in which every frame is in use, the lowest `count` bits are
/// set, whatever `count` is.
proof fn lemma_low_bits_used(word: usize, count: u8)
    requires
        all_used(word),
        count <= usize::BITS,
    ensures
        word & run_mask(count) == run_mask(count),
    decreases count,
{
    if count == 0 {
        assert(word & run_mask(0) == run_mask(0)) by (bit_vector);
    } else {
        let below = (count - 1) as u8;
        lemma_low_bits_used(word, below);
        assert(bit_used(word, below));
        assert(word & run_mask(count) == run_mask(count)) by (bit_vector)
            requires
                0 < count <= usize::BITS,
                below == count - 1,
                word & run_mask(below) == run_mask(below),
                bit_used(word, below),
        ;
    }
}

/// Whether every frame is in use in `word`.
pub fn word_is_full(word: usize) -> (full: bool)
    ensures
        full == all_used(word),
{
    proof {
        lemma_all_used(word);
    }
    word == !0usize
}

/// Whether the run was wholly in use in `word`, the word as it was before the
/// run was released.
pub fn run_was_allocated(word: usize, count: u8, offset: u8) -> (allocated: bool)
    requires
        count <= usize::BITS,
        offset < usize::BITS,
    ensures
        allocated == window_used(word, count, offset),
{
    let mask = make_window(count, offset);
    word & mask == mask
}

/// Searches `word` for the first free run of `count` frames at or after `from`.
pub fn first_free_window(word: usize, count: u8, from: u8) -> (found: Option<u8>)
    requires
        count <= usize::BITS,
    ensures
        match found {
            Some(offset) => is_first_free_window(word, count, from, offset),
            None => no_free_window(word, count, from),
        },
{
    let mask = make_run_mask(count);
    let width: u8 = usize::BITS as u8;
    let mut offset: u8 = from;
    while offset < width && offset <= width - count
        invariant
            count <= usize::BITS,
            width == usize::BITS,
            from <= offset,
            mask == run_mask(count),
            forall|earlier: u8|
                from <= earlier < offset && window_fits(count, earlier) ==> !#[trigger] window_free(
                    word,
                    count,
                    earlier,
                ),
        decreases width - offset,
    {
        if word & (mask << offset) == 0 {
            return Some(offset);
        }
        offset = offset + 1;
    }
    None
}

/// One atomic step on a word, taken by any core.
///
/// These are the steps that a chunk takes on its word: a swap that installs
/// `claim_run` of the word it expects, the setting of one bit (a claim of a
/// run of one frame, see `lemma_test_and_set_is_a_claim`), and the flipping
/// of the bits of `make_window`.
pub enum WordStep {
    /// An attempt to claim the run of `count` frames at `offset`. It changes
    /// the word only if the run fits and is free.
    Claim { count: u8, offset: u8 },
    /// The release of the run of `count` frames at `offset`.
    Release { count: u8, offset: u8 },
}

impl WordStep {
    /// The step releases a run that holds frame `bit`.
    pub open spec fn releases(self, bit: u8) -> bool {
        match self {
            WordStep::Claim { .. } => false,
            WordStep::Release { count, offset } => offset <= bit < offset + count,
        }
    }

    /// The word after the step is taken on `word`.
    pub open spec fn apply(self, word: usize) -> usize {
        match self {
            WordStep::Claim { count, offset } => if window_fits(count, offset) && window_free(
                word,
                count,
                offset,
            ) {
                with_run_claimed(word, count, offset)
            } else {
                word
            },
            WordStep::Release { count, offset } => if window_fits(count, offset) {
                with_run_released(word, count, offset)
            } else {
                word
            },
        }
    }
}

/// The word after `steps` are taken on `word`, one after the other.
pub open spec fn after_steps(word: usize, steps: Seq<WordStep>) -> usize
    decreases steps.len(),
{
    if steps.len() == 0 {
        word
    } else {
        steps.last().apply(after_steps(word, steps.drop_last()))
    }
}

/// Setting one bit of a word, whatever the bit was, does to the word what
/// the claim of a run of one frame at that bit does: a bit that was clear is
/// set, and a word in which the bit was set stays as it is.
pub proof fn lemma_test_and_set_is_a_claim(word: usize, bit: u8)
    requires
        bit < usize::BITS,
    ensures
        word | window(1, bit) == (WordStep::Claim { count: 1, offset: bit }).apply(word),
        bit_used(word, bit) <==> !window_free(word, 1, bit),
{
    assert(window_fits(1, bit));
    assert((bit_used(word, bit) <==> !window_free(word, 1, bit)) && (!window_free(word, 1, bit)
        ==> word | window(1, bit) == word)) by (bit_vector)
        requires
            bit < usize::BITS,
    ;
}

/// Claiming a free run sets the frames of the run and leaves every other
/// frame as it was.
pub proof fn lemma_claim_sets_run(word: usize, count: u8, offset: u8, bit: u8)
    requires
        window_fits(count, offset),
        bit < usize::BITS,
    ensures
        window_used(with_run_claimed(word, count, offset), count, offset),
        offset <= bit < offset + count ==> bit_used(with_run_claimed(word, count, offset), bit),
        !(offset <= bit < offset + count) ==> bit_used(
            with_run_claimed(word, count, offset),
            bit,
        ) == bit_used(word, bit),
{
    assert(window_used(with_run_claimed(word, count, offset), count, offset) && (offset <= bit
        < offset + count ==> bit_used(with_run_claimed(word, count, offset), bit)) && (!(offset
        <= bit < offset + count) ==> bit_used(with_run_claimed(word, count, offset), bit)
        == bit_used(word, bit))) by (bit_vector)
        requires
            offset < usize::BITS && offset + count <= usize::BITS,
            bit < usize::BITS,
    ;
}

/// A run that holds a frame in use is not free: no claim of it succeeds.
pub proof fn lemma_used_frame_blocks_run(word: usize, count: u8, offset: u8, bit: u8)
    requires
        window_fits(count, offset),
        offset <= bit < offset + count,
        bit_used(word, bit),
    ensures
        !window_free(word, count, offset),
{
    assert(!window_free(word, count, offset)) by (bit_vector)
        requires
            offset < usize::BITS && offset + count <= usize::BITS,
            offset <= bit < offset + count,
            bit_used(word, bit),
    ;
}

/// Releasing a run leaves every frame outside the run as it was.
pub proof fn lemma_release_keeps_others(word: usize, count: u8, offset: u8, bit: u8)
    requires
        window_fits(count, offset),
        bit < usize::BITS,
        !(offset <= bit < offset + count),
    ensures
        bit_used(with_run_released(word, count, offset), bit) == bit_used(word, bit),
{
    assert(bit_used(with_run_released(word, count, offset), bit) == bit_used(word, bit))
        by (bit_vector)
        requires
            offset < usize::BITS && offset + count <= usize::BITS,
            bit < usize::BITS,
            !(offset <= bit < offset + count),
    ;
}

/// Releasing a run right after it was claimed restores the word exactly.
pub proof fn lemma_release_restores(word: usize, count: u8, offset: u8)
    requires
        window_free(word, count, offset),
    ensures
        with_run_released(with_run_claimed(word, count, offset), count, offset) == word,
{
    let mask = window(count, offset);
    assert((word | mask) ^ mask == word) by (bit_vector)
        requires
            word & mask == 0,
    ;
}

/// Releasing a run that is wholly in use makes it free, and claiming it again
/// gives the word back.
pub proof fn lemma_claim_restores(word: usize, count: u8, offset: u8)
    requires
        window_used(word, count, offset),
    ensures
        window_free(with_run_released(word, count, offset), count, offset),
        with_run_claimed(with_run_released(word, count, offset), count, offset) == word,
{
    let mask = window(count, offset);
    assert((word ^ mask) & mask == 0 && ((word ^ mask) | mask) == word) by (bit_vector)
        requires
            word & mask == mask,
    ;
}

/// A frame that is in use stays in use through one step that does not
/// release it.
pub proof fn lemma_step_keeps_used(word: usize, step: WordStep, bit: u8)
    requires
        bit < usize::BITS,
        bit_used(word, bit),
        !step.releases(bit),
    ensures
        bit_used(step.apply(word), bit),
{
    match step {
        WordStep::Claim { count, offset } => {
            if window_fits(count, offset) && window_free(word, count, offset) {
                lemma_claim_sets_run(word, count, offset, bit);
            }
        },
        WordStep::Release { count, offset } => {
            if window_fits(count, offset) {
                lemma_release_keeps_others(word, count, offset, bit);
            }
        },
    }
}

/// A frame that is in use is not handed out again before it is released:
/// whatever steps the cores take in whatever order, as long as none of them
/// releases the frame, it stays in use, and every attempt to claim a run that
/// holds it leaves the word as it is.
pub proof fn lemma_used_frame_is_not_claimed_again(
    word: usize,
    steps: Seq<WordStep>,
    bit: u8,
    count: u8,
    offset: u8,
)
    requires
        bit < usize::BITS,
        bit_used(word, bit),
        forall|index: int| 0 <= index < steps.len() ==> !(#[trigger] steps[index]).releases(bit),
        window_fits(count, offset),
        offset <= bit < offset + count,
    ensures
        bit_used(after_steps(word, steps), bit),
        !window_free(after_steps(word, steps), count, offset),
        (WordStep::Claim { count, offset }).apply(after_steps(word, steps)) == after_steps(
            word,
            steps,
        ),
    decreases steps.len(),
{
    if steps.len() > 0 {
        let earlier = steps.drop_last();
        assert forall|index: int| 0 <= index < earlier.len() implies !(
        #[trigger] earlier[index]).releases(bit) by {
            assert(earlier[index] == steps[index]);
        }
        lemma_used_frame_is_not_claimed_again(word, earlier, bit, count, offset);
        lemma_step_keeps_used(after_steps(word, earlier), steps.last(), bit);
    }
    lemma_used_frame_blocks_run(after_steps(word, steps), count, offset, bit);
}

} // verus!
