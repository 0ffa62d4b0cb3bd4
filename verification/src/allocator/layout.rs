//! How a region of physical memory is divided into frames and chunks, and
//! which of its frames are reserved from the start.
//!
//! The bitmap that describes a region is stored in the region's own first
//! frames, so those frames can never be handed out. The last chunk may
//! describe frames that lie beyond the end of the region; they are reserved
//! as well.

use vstd::prelude::*;
use vstd::arithmetic::div_mod::{
    lemma_div_is_ordered,
    lemma_fundamental_div_mod,
    lemma_fundamental_div_mod_converse,
    lemma_mod_bound,
};
use vstd::arithmetic::mul::{lemma_mul_inequality, lemma_mul_is_commutative};
use vstd::set_lib::{lemma_int_range, lemma_set_disjoint_lens, set_int_range};
use crate::allocator::bits::{bit_used, lemma_reserved_bits, make_run_mask};
use crate::allocator::physical::FRAME_SIZE;

verus! {

/// Frames described by one chunk.
pub open spec fn chunk_frames() -> int {
    usize::BITS as int
}

/// Bytes that one chunk occupies in memory.
pub open spec fn chunk_bytes() -> int {
    usize::BITS as int / 8
}

/// Chunks needed to describe `frames` frames.
pub open spec fn chunks_for(frames: int) -> int {
    (frames + chunk_frames() - 1) / chunk_frames()
}

/// Leading frames of a region of `frames` frames that hold its bitmap.
pub open spec fn prefix_frames_for(frames: int) -> int {
    (chunks_for(frames) * chunk_bytes() + FRAME_SIZE - 1) / (FRAME_SIZE as int)
}

/// Frames that the last chunk of a region of `frames` frames describes beyond
/// the end of the region.
pub open spec fn suffix_frames_for(frames: int) -> int {
    chunks_for(frames) * chunk_frames() - frames
}

/// The frame numbers of a region, its chunk count, and its reserved frames.
#[derive(Clone, Copy, Debug)]
pub struct RegionLayout {
    frames: usize,
    chunk_count: usize,
    prefix_frames: usize,
}

/// Frames per chunk, as a number.
pub fn frames_per_chunk() -> (width: usize)
    ensures
        width == chunk_frames(),
        width == 32 || width == 64,
{
    usize::BITS as usize
}

/// The frame that bit `bit` of chunk `chunk` describes splits back into the
/// same chunk and bit.
pub proof fn lemma_frame_split(chunk: int, bit: int)
    requires
        0 <= chunk,
        0 <= bit < chunk_frames(),
    ensures
        (chunk * chunk_frames() + bit) / chunk_frames() == chunk,
        (chunk * chunk_frames() + bit) % chunk_frames() == bit,
{
    let width = chunk_frames();
    lemma_mul_is_commutative(chunk, width);
    lemma_fundamental_div_mod_converse(chunk * width + bit, width, chunk, bit);
}

/// Every frame number is that of one bit of one chunk.
pub proof fn lemma_frame_join(frame: int)
    requires
        0 <= frame,
    ensures
        frame == (frame / chunk_frames()) * chunk_frames() + frame % chunk_frames(),
        0 <= frame % chunk_frames() < chunk_frames(),
        0 <= frame / chunk_frames() <= frame,
{
    let width = chunk_frames();
    lemma_fundamental_div_mod(frame, width);
    lemma_mul_is_commutative(frame / width, width);
    lemma_mod_bound(frame, width);
    lemma_div_is_ordered(0, frame, width);
    assert(frame / width <= frame) by (nonlinear_arith)
        requires
            0 <= frame,
            width >= 1,
    ;
    assert(0int / width == 0) by (nonlinear_arith)
        requires
            width >= 1,
    ;
}

/// The chunks of a region cover all its frames, and the last chunk is needed.
pub proof fn lemma_chunks_cover(frames: int)
    requires
        0 < frames,
    ensures
        1 <= chunks_for(frames) <= frames,
        (chunks_for(frames) - 1) * chunk_frames() < frames <= chunks_for(frames) * chunk_frames(),
        0 <= suffix_frames_for(frames) < chunk_frames(),
{
    let width = chunk_frames();
    let padded = frames + width - 1;
    lemma_frame_join(padded);
    let chunks = padded / width;
    assert(chunks == chunks_for(frames));
    assert(chunks >= 1) by (nonlinear_arith)
        requires
            padded == chunks * width + padded % width,
            0 <= padded % width < width,
            padded >= width,
            width >= 1,
    ;
    assert(chunks <= frames) by (nonlinear_arith)
        requires
            padded == chunks * width + padded % width,
            0 <= padded % width < width,
            padded == frames + width - 1,
            frames >= 1,
            width >= 1,
            chunks >= 1,
    ;
    assert((chunks - 1) * width == chunks * width - width) by (nonlinear_arith);
}

/// The bitmap of a region fits in the region: its prefix ends before or where
/// the frames beyond the region begin.
pub proof fn lemma_prefix_fits(frames: int)
    requires
        0 < frames,
    ensures
        1 <= prefix_frames_for(frames) <= chunks_for(frames) <= frames,
{
    lemma_chunks_cover(frames);
    let chunks = chunks_for(frames);
    let bytes = chunks * chunk_bytes();
    assert(chunk_bytes() == 4 || chunk_bytes() == 8);
    assert(chunks <= bytes <= chunks * 8) by (nonlinear_arith)
        requires
            bytes == chunks * chunk_bytes(),
            chunk_bytes() == 4 || chunk_bytes() == 8,
            chunks >= 1,
    ;
}

impl RegionLayout {
    /// Frame `frame` is one of the leading frames that hold the bitmap.
    pub open spec fn holds_bitmap(&self, frame: int) -> bool {
        0 <= frame < self.prefix_frames()
    }

    /// Frame `frame` is described by the last chunk but lies beyond the end
    /// of the region.
    pub open spec fn lies_beyond(&self, frame: int) -> bool {
        self.frames() <= frame < self.chunk_count() * chunk_frames()
    }

    /// The frames that are reserved from the start, among all the frames
    /// that the chunks describe.
    pub open spec fn reserved_frames(&self) -> Set<int> {
        Set::new(
            |frame: int|
                0 <= frame < self.chunk_count() * chunk_frames() && self.reserved(frame),
        )
    }

    /// The frames reserved for the bitmap and the frames reserved beyond the
    /// end of the region do not overlap, and there are exactly as many
    /// reserved frames as the two numbers of the layout say.
    pub proof fn lemma_reserved_frames_are_apart(&self)
        requires
            self.wf(),
        ensures
            self.prefix_frames() <= self.frames() <= self.chunk_count() * chunk_frames(),
            0 <= self.suffix_frames() < chunk_frames(),
            forall|frame: int| !(#[trigger] self.holds_bitmap(frame) && self.lies_beyond(frame)),
            self.reserved_frames().finite(),
            self.reserved_frames().len() == self.prefix_frames() + self.suffix_frames(),
    {
        lemma_chunks_cover(self.frames());
        let covered = self.chunk_count() * chunk_frames();
        let prefix = set_int_range(0, self.prefix_frames());
        let suffix = set_int_range(self.frames(), covered);
        lemma_int_range(0, self.prefix_frames());
        lemma_int_range(self.frames(), covered);
        assert(prefix.disjoint(suffix));
        lemma_set_disjoint_lens(prefix, suffix);
        assert(self.reserved_frames() =~= prefix + suffix);
    }

    /// Frames of the region.
    pub closed spec fn frames(&self) -> int {
        self.frames as int
    }

    /// Chunks that describe the region.
    pub closed spec fn chunk_count(&self) -> int {
        self.chunk_count as int
    }

    /// Leading frames that are reserved.
    pub closed spec fn prefix_frames(&self) -> int {
        self.prefix_frames as int
    }

    /// Frames beyond the end of the region that the last chunk describes.
    pub open spec fn suffix_frames(&self) -> int {
        self.chunk_count() * chunk_frames() - self.frames()
    }

    /// The layout is that of a region with at least one frame, its reserved
    /// prefix lies inside the region, and its numbers fit the machine.
    pub open spec fn wf(&self) -> bool {
        &&& 0 < self.frames()
        &&& self.chunk_count() == chunks_for(self.frames())
        &&& 0 <= self.prefix_frames() <= self.frames()
        &&& self.chunk_count() * chunk_frames() * FRAME_SIZE <= usize::MAX
    }

    /// Whether frame `frame`, counted from the start of the region, is
    /// reserved from the start: it holds a part of the bitmap, or it lies
    /// beyond the end of the region.
    pub open spec fn reserved(&self, frame: int) -> bool {
        frame < self.prefix_frames() || frame >= self.frames()
    }

    /// The word that chunk `chunk` starts with: the bits of its reserved
    /// frames are set and no others.
    pub open spec fn is_initial_word(&self, chunk: int, word: usize) -> bool {
        forall|bit: u8|
            bit < usize::BITS ==> (#[trigger] bit_used(word, bit) <==> self.reserved(
                chunk * chunk_frames() + bit,
            ))
    }

    /// The layout of a region of `frames` frames of which the first
    /// `prefix_frames` are reserved.
    pub fn with_prefix(frames: usize, prefix_frames: usize) -> (layout: Self)
        requires
            0 < frames,
            prefix_frames <= frames,
            chunks_for(frames as int) * chunk_frames() * FRAME_SIZE <= usize::MAX,
        ensures
            layout.wf(),
            layout.frames() == frames,
            layout.prefix_frames() == prefix_frames,
    {
        let width = frames_per_chunk();
        proof {
            lemma_chunks_cover(frames as int);
            assert(chunks_for(frames as int) * chunk_frames() <= usize::MAX) by (nonlinear_arith)
                requires
                    chunks_for(frames as int) * chunk_frames() * FRAME_SIZE <= usize::MAX,
                    chunks_for(frames as int) * chunk_frames() >= 0,
                    FRAME_SIZE == 4096,
            ;
        }
        let chunk_count = (frames + (width - 1)) / width;
        RegionLayout { frames, chunk_count, prefix_frames }
    }

    /// The layout of a region of `size` bytes that stores its own bitmap in
    /// its first frames.
    pub closed spec fn of_size(size: usize) -> RegionLayout {
        let frames = size as int / FRAME_SIZE as int;
        RegionLayout {
            frames: frames as usize,
            chunk_count: chunks_for(frames) as usize,
            prefix_frames: prefix_frames_for(frames) as usize,
        }
    }

    /// Computes `of_size(size)`.
    pub fn for_size(size: usize) -> (layout: Self)
        requires
            size % FRAME_SIZE == 0,
            size > FRAME_SIZE,
            chunks_for(size as int / FRAME_SIZE as int) * chunk_frames() * FRAME_SIZE
                <= usize::MAX,
        ensures
            layout == Self::of_size(size),
            layout.wf(),
            layout.frames() == size as int / FRAME_SIZE as int,
            layout.prefix_frames() == prefix_frames_for(layout.frames()),
            1 <= layout.prefix_frames() <= layout.frames(),
            0 <= layout.suffix_frames() < chunk_frames(),
    {
        let frames = size / FRAME_SIZE;
        let width = frames_per_chunk();
        proof {
            lemma_chunks_cover(frames as int);
            lemma_prefix_fits(frames as int);
            assert(chunks_for(frames as int) * chunk_frames() <= usize::MAX) by (nonlinear_arith)
                requires
                    chunks_for(frames as int) * chunk_frames() * FRAME_SIZE <= usize::MAX,
                    chunks_for(frames as int) * chunk_frames() >= 0,
                    FRAME_SIZE == 4096,
            ;
            assert(chunks_for(frames as int) * chunk_bytes() <= chunks_for(frames as int)
                * chunk_frames()) by (nonlinear_arith)
                requires
                    chunks_for(frames as int) >= 1,
                    chunk_bytes() <= chunk_frames(),
            ;
        }
        let chunk_count = (frames + (width - 1)) / width;
        let bitmap_bytes = chunk_count * (width / 8);
        let prefix_frames = (bitmap_bytes + (FRAME_SIZE - 1)) / FRAME_SIZE;
        RegionLayout { frames, chunk_count, prefix_frames }
    }

    /// Frames of the region.
    pub fn frame_count(&self) -> (frames: usize)
        ensures
            frames == self.frames(),
    {
        self.frames
    }

    /// Chunks that describe the region.
    pub fn chunks(&self) -> (chunks: usize)
        ensures
            chunks == self.chunk_count(),
    {
        self.chunk_count
    }

    /// Leading frames that are reserved for the bitmap.
    pub fn reserved_prefix(&self) -> (frames: usize)
        ensures
            frames == self.prefix_frames(),
    {
        self.prefix_frames
    }

    /// Frames beyond the end of the region that the last chunk describes.
    pub fn reserved_suffix(&self) -> (frames: usize)
        requires
            self.wf(),
        ensures
            frames == self.suffix_frames(),
            frames < chunk_frames(),
    {
        let width = frames_per_chunk();
        proof {
            lemma_chunks_cover(self.frames());
            assert(self.chunk_count() * chunk_frames() <= usize::MAX) by (nonlinear_arith)
                requires
                    self.chunk_count() * chunk_frames() * FRAME_SIZE <= usize::MAX,
                    self.chunk_count() * chunk_frames() >= 0,
                    FRAME_SIZE == 4096,
            ;
        }
        self.chunk_count * width - self.frames
    }

    /// The word that chunk `chunk` starts with.
    pub fn initial_word(&self, chunk: usize) -> (word: usize)
        requires
            self.wf(),
            chunk < self.chunk_count(),
        ensures
            self.is_initial_word(chunk as int, word),
    {
        let width = frames_per_chunk();
        proof {
            lemma_chunks_cover(self.frames());
            lemma_mul_inequality(chunk as int, self.chunk_count() - 1, chunk_frames());
        }
        let first = chunk * width;
        let low = if self.prefix_frames > first {
            if self.prefix_frames - first < width {
                self.prefix_frames - first
            } else {
                width
            }
        } else {
            0
        };
        let high = if self.frames - first < width {
            self.frames - first
        } else {
            width
        };
        let word = make_run_mask(low as u8) | !make_run_mask(high as u8);
        proof {
            assert forall|bit: u8| bit < usize::BITS implies (#[trigger] bit_used(word, bit)
                <==> self.reserved(chunk * chunk_frames() + bit)) by {
                lemma_reserved_bits(low as u8, high as u8, bit);
            }
        }
        word
    }
}

} // verus!
