//! One contiguous range of usable physical memory and the chunks that
//! describe its frames.

use vstd::prelude::*;
use vstd::arithmetic::div_mod::lemma_div_denominator;
use vstd::arithmetic::mul::lemma_mul_inequality;
use core::sync::atomic::{AtomicUsize, Ordering};
use crate::allocator::chunk::FrameBitmapChunk;
use crate::allocator::layout::{
    chunk_frames,
    chunks_for,
    frames_per_chunk,
    lemma_chunks_cover,
    lemma_frame_join,
    lemma_frame_split,
    prefix_frames_for,
    suffix_frames_for,
    RegionLayout,
};
use crate::allocator::physical::FRAME_SIZE;
use crate::arch::paging::IdentityMapToken;
use crate::arch::PhysicalAddress;

verus! {

/// A contiguous range of physical memory, the chunks that record which of its
/// frames are in use, and a count of the frames handed out.
///
/// The count is advisory: whether a frame is free is decided by the chunks
/// alone.
pub struct MemoryRegion {
    base: PhysicalAddress,
    layout: RegionLayout,
    frames_used: AtomicUsize,
    chunks: &'static [FrameBitmapChunk],
}

/// `Vec::leak`: gives up the vector and hands out its items as a slice that
/// lives as long as the program.
#[verifier::external_body]
fn leak_chunks(chunks: Vec<FrameBitmapChunk>) -> (storage: &'static [FrameBitmapChunk])
    ensures
        storage@ == chunks@,
{
    chunks.leak()
}

fn load_counter(counter: &AtomicUsize) -> usize {
    counter.load(Ordering::SeqCst)
}

fn raise_counter(counter: &AtomicUsize, by: usize) {
    let _ = counter.fetch_add(by, Ordering::SeqCst);
}

fn lower_counter(counter: &AtomicUsize, by: usize) {
    let _ = counter.fetch_sub(by, Ordering::SeqCst);
}

/// Bytes of memory that one chunk describes.
pub fn chunk_memory_size() -> (size: usize)
    ensures
        size == chunk_frames() * FRAME_SIZE,
        size == 32 * 4096 || size == 64 * 4096,
{
    let width = frames_per_chunk();
    assert(width * FRAME_SIZE == 32 * 4096 || width * FRAME_SIZE == 64 * 4096) by (nonlinear_arith)
        requires
            width == 32 || width == 64,
            FRAME_SIZE == 4096,
    ;
    width * FRAME_SIZE
}

/// Frames that are left of `frame_count` when `frames_used` are handed out.
pub open spec fn frames_left(frame_count: int, frames_used: int) -> int {
    if frames_used >= frame_count {
        0
    } else {
        frame_count - frames_used
    }
}

/// Address of the frame that bit `bit` of chunk `chunk` describes in a region
/// that starts at `base`.
pub open spec fn frame_address(base: int, chunk: int, bit: int) -> int {
    base + (chunk * chunk_frames() + bit) * FRAME_SIZE
}

/// Different bits stand for different frames: the address of a frame tells
/// its chunk and its bit.
pub proof fn lemma_frame_address_tells_chunk_and_bit(base: int, chunk: int, bit: int)
    requires
        0 <= chunk,
        0 <= bit < chunk_frames(),
    ensures
        (frame_address(base, chunk, bit) - base) % (FRAME_SIZE as int) == 0,
        ((frame_address(base, chunk, bit) - base) / (FRAME_SIZE as int)) / chunk_frames() == chunk,
        ((frame_address(base, chunk, bit) - base) / (FRAME_SIZE as int)) % chunk_frames() == bit,
{
    lemma_frame_split(chunk, bit);
}

impl MemoryRegion {
    /// A region with fewer frames left than this refuses every request.
    pub const MIN_FRAMES_REQUIRED: usize = 4;

    /// Address of the first frame.
    pub closed spec fn base(&self) -> PhysicalAddress {
        self.base
    }

    /// Frames, chunks and reserved frames of the region.
    pub closed spec fn layout(&self) -> RegionLayout {
        self.layout
    }

    /// The words that the chunks were created with, in order.
    pub closed spec fn initial_words(&self) -> Seq<usize> {
        Seq::new(self.chunks@.len(), |chunk: int| self.chunks@[chunk].initial_word())
    }

    /// Frames of the region.
    pub open spec fn frames(&self) -> int {
        self.layout().frames()
    }

    /// Length of the region in bytes.
    pub open spec fn byte_len(&self) -> int {
        self.frames() * FRAME_SIZE
    }

    /// Address of the first byte after the region.
    pub open spec fn end_address(&self) -> int {
        self.base()@ + self.byte_len()
    }

    /// `address` lies in the region.
    pub open spec fn owns(&self, address: usize) -> bool {
        self.base()@ <= address < self.end_address()
    }

    /// `address` is the address of a frame that the chunks describe, and the
    /// `count` frames from it on are described by one chunk.
    pub open spec fn holds_run(&self, address: usize, count: int) -> bool {
        &&& self.base()@ <= address
        &&& (address - self.base()@) % (FRAME_SIZE as int) == 0
        &&& (address - self.base()@) / (FRAME_SIZE as int) < self.layout().chunk_count()
            * chunk_frames()
        &&& ((address - self.base()@) / (FRAME_SIZE as int)) % chunk_frames() + count
            <= chunk_frames()
    }

    /// An address at which a run is held is the address of the frame of one
    /// bit of one chunk of the region.
    pub proof fn lemma_run_starts_at_a_frame(&self, address: usize, count: int)
        requires
            self.holds_run(address, count),
            0 <= count,
        ensures
            ({
                let frame = (address - self.base()@) / (FRAME_SIZE as int);
                &&& 0 <= frame / chunk_frames() < self.layout().chunk_count()
                &&& 0 <= frame % chunk_frames() < chunk_frames()
                &&& address == frame_address(
                    self.base()@ as int,
                    frame / chunk_frames(),
                    frame % chunk_frames(),
                )
            }),
    {
        let frame = (address - self.base()@) / (FRAME_SIZE as int);
        lemma_frame_join(frame);
        if frame / chunk_frames() >= self.layout().chunk_count() {
            lemma_mul_inequality(self.layout().chunk_count(), frame / chunk_frames(), chunk_frames());
        }
    }

    /// Every chunk was created with the bits of its reserved frames set, and
    /// no others.
    pub open spec fn starts_reserved(&self) -> bool {
        &&& self.initial_words().len() == self.layout().chunk_count()
        &&& forall|chunk: int|
            0 <= chunk < self.layout().chunk_count() ==> self.layout().is_initial_word(
                chunk,
                #[trigger] self.initial_words()[chunk],
            )
    }

    /// The region starts at a frame boundary, has one chunk for every
    /// `usize::BITS` frames, and the memory that its chunks describe has
    /// addresses that fit the machine. This holds of every region.
    #[verifier::type_invariant]
    pub closed spec fn wf(&self) -> bool {
        &&& self.layout.wf()
        &&& self.chunks@.len() == self.layout.chunk_count()
        &&& self.base@ % FRAME_SIZE == 0
        &&& self.base@ + self.layout.chunk_count() * chunk_frames() * FRAME_SIZE <= usize::MAX
    }

    /// A region of `size` bytes can be made at `base`: both are multiples of
    /// the frame size, the region is longer than one frame, and the memory
    /// that its chunks describe has addresses that fit the machine.
    pub open spec fn constructible(base: usize, size: usize) -> bool {
        &&& base % FRAME_SIZE == 0
        &&& size % FRAME_SIZE == 0
        &&& size > FRAME_SIZE
        &&& base + chunks_for(size as int / FRAME_SIZE as int) * chunk_frames() * FRAME_SIZE
            <= usize::MAX
    }

    /// The region is the one that `new` makes of `size` bytes at `base`:
    /// `lemma_fresh` says what that means.
    pub closed spec fn is_fresh(&self, base: usize, size: usize) -> bool {
        &&& self.wf()
        &&& self.base()@ == base
        &&& self.frames() == size as int / FRAME_SIZE as int
        &&& self.byte_len() == size
        &&& self.layout().prefix_frames() == prefix_frames_for(self.frames())
        &&& 1 <= self.layout().prefix_frames() <= self.frames()
        &&& 0 <= self.layout().suffix_frames() < chunk_frames()
        &&& self.starts_reserved()
    }

    /// A fresh region lies at `base` and is `size` bytes long. The first
    /// frames are reserved for the bitmap, as many as the bitmap needs; the
    /// frames that the last chunk describes beyond the end of the region are
    /// reserved too, and are fewer than a chunk has. The two do not overlap,
    /// and the chunks start with exactly the bits of these frames set.
    pub proof fn lemma_fresh(&self, base: usize, size: usize)
        requires
            self.is_fresh(base, size),
        ensures
            self.wf(),
            self.base()@ == base,
            self.frames() == size as int / FRAME_SIZE as int,
            self.byte_len() == size,
            self.end_address() == base + size,
            self.layout().prefix_frames() == prefix_frames_for(self.frames()),
            self.layout().suffix_frames() == suffix_frames_for(self.frames()),
            1 <= self.layout().prefix_frames() <= self.frames(),
            0 <= self.layout().suffix_frames() < chunk_frames(),
            self.starts_reserved(),
    {
    }

    /// Whether a region of `size` bytes can be made at `base`.
    pub fn can_hold(base: PhysicalAddress, size: usize) -> (possible: bool)
        ensures
            possible == Self::constructible(base@, size),
    {
        if base.0 % FRAME_SIZE != 0 || size % FRAME_SIZE != 0 || size <= FRAME_SIZE {
            return false;
        }
        let width = frames_per_chunk();
        let frames = size / FRAME_SIZE;
        let chunks = (frames + (width - 1)) / width;
        proof {
            lemma_chunks_cover(frames as int);
            assert(chunks * width <= frames + width) by (nonlinear_arith)
                requires
                    (chunks - 1) * width < frames,
                    width >= 1,
            ;
            assert(chunks * chunk_frames() * FRAME_SIZE == (chunks * width) * 4096);
        }
        let covered = chunks * width;
        covered <= (usize::MAX - base.0) / FRAME_SIZE
    }

    /// `storage` can hold the bitmap of a region of the given layout: it has
    /// one chunk for each chunk of the layout, and every chunk was created
    /// with the bits of its reserved frames set, and no others.
    pub open spec fn suits(layout: RegionLayout, storage: Seq<FrameBitmapChunk>) -> bool {
        &&& storage.len() == layout.chunk_count()
        &&& forall|chunk: int|
            0 <= chunk < layout.chunk_count() ==> layout.is_initial_word(
                chunk,
                (#[trigger] storage[chunk]).initial_word(),
            )
    }

    /// The chunks that the bitmap of a region of the given layout starts
    /// with, in order, for the caller to place where the bitmap is to live.
    pub fn initial_chunks(layout: RegionLayout) -> (chunks: Vec<FrameBitmapChunk>)
        requires
            layout.wf(),
        ensures
            Self::suits(layout, chunks@),
    {
        let chunk_count = layout.chunks();
        let mut chunks: Vec<FrameBitmapChunk> = Vec::new();
        let mut index: usize = 0;
        while index < chunk_count
            invariant
                layout.wf(),
                chunk_count == layout.chunk_count(),
                index <= chunk_count,
                chunks@.len() == index,
                forall|chunk: int|
                    0 <= chunk < index ==> layout.is_initial_word(
                        chunk,
                        (#[trigger] chunks@[chunk]).initial_word(),
                    ),
            decreases chunk_count - index,
        {
            chunks.push(FrameBitmapChunk::new(layout.initial_word(index)));
            index = index + 1;
        }
        chunks
    }

    /// The region of `size` bytes at `base`, with its bitmap on the heap.
    /// The frames that the bitmap of such a region takes up when it is stored
    /// in the region itself are reserved all the same, as are the frames that
    /// the last chunk describes beyond the end of the region.
    pub fn new(base: PhysicalAddress, size: usize, identity_map_token: IdentityMapToken) -> (region:
        Self)
        requires
            Self::constructible(base@, size),
        ensures
            region.is_fresh(base@, size),
    {
        proof {
            Self::lemma_constructible(base@, size);
        }
        let layout = RegionLayout::for_size(size);
        let storage = Self::heap_storage(layout);
        Self::with_storage(base, size, identity_map_token, storage)
    }

    /// The region of `size` bytes at `base` whose bitmap lives in `storage`,
    /// which the caller has carved out of the first frames of the region and
    /// filled with `initial_chunks`. Those frames are reserved, as are the
    /// frames that the last chunk describes beyond the end of the region.
    pub fn with_storage(
        base: PhysicalAddress,
        size: usize,
        identity_map_token: IdentityMapToken,
        storage: &'static [FrameBitmapChunk],
    ) -> (region: Self)
        requires
            Self::constructible(base@, size),
            Self::suits(RegionLayout::of_size(size), storage@),
        ensures
            region.is_fresh(base@, size),
    {
        proof {
            Self::lemma_constructible(base@, size);
        }
        let layout = RegionLayout::for_size(size);
        Self::from_storage(base, layout, storage)
    }

    /// Storage on the heap for the bitmap of a region of the given layout,
    /// filled with `initial_chunks`. It is never given back.
    pub fn heap_storage(layout: RegionLayout) -> (storage: &'static [FrameBitmapChunk])
        requires
            layout.wf(),
        ensures
            Self::suits(layout, storage@),
    {
        leak_chunks(Self::initial_chunks(layout))
    }

    /// The memory that the chunks of a region that can be made describe has
    /// a length that fits the machine.
    pub proof fn lemma_constructible(base: usize, size: usize)
        requires
            Self::constructible(base, size),
        ensures
            chunks_for(size as int / FRAME_SIZE as int) * chunk_frames() * FRAME_SIZE >= 0,
            chunks_for(size as int / FRAME_SIZE as int) * chunk_frames() * FRAME_SIZE
                <= usize::MAX,
    {
        lemma_chunks_cover(size as int / FRAME_SIZE as int);
        assert(chunks_for(size as int / FRAME_SIZE as int) * chunk_frames() * FRAME_SIZE >= 0)
            by (nonlinear_arith)
            requires
                chunks_for(size as int / FRAME_SIZE as int) >= 1,
                chunk_frames() >= 1,
                FRAME_SIZE == 4096,
        ;
    }

    /// The region at `base` with the frames and reserved frames of `layout`,
    /// with its bitmap on the heap.
    pub fn from_layout(base: PhysicalAddress, layout: RegionLayout) -> (region: Self)
        requires
            layout.wf(),
            base@ % FRAME_SIZE == 0,
            base@ + layout.chunk_count() * chunk_frames() * FRAME_SIZE <= usize::MAX,
        ensures
            region.wf(),
            region.base() == base,
            region.layout() == layout,
            region.starts_reserved(),
    {
        let storage = Self::heap_storage(layout);
        Self::from_storage(base, layout, storage)
    }

    /// The region at `base` with the frames and reserved frames of `layout`,
    /// whose bitmap lives in `storage`.
    pub fn from_storage(
        base: PhysicalAddress,
        layout: RegionLayout,
        storage: &'static [FrameBitmapChunk],
    ) -> (region: Self)
        requires
            layout.wf(),
            base@ % FRAME_SIZE == 0,
            base@ + layout.chunk_count() * chunk_frames() * FRAME_SIZE <= usize::MAX,
            Self::suits(layout, storage@),
        ensures
            region.wf(),
            region.base() == base,
            region.layout() == layout,
            region.starts_reserved(),
    {
        let region = MemoryRegion {
            base,
            layout,
            frames_used: AtomicUsize::new(0),
            chunks: storage,
        };
        assert forall|chunk: int| 0 <= chunk < region.layout().chunk_count() implies region.layout()
            .is_initial_word(chunk, #[trigger] region.initial_words()[chunk]) by {
            assert(region.initial_words()[chunk] == region.chunks@[chunk].initial_word());
        }
        region
    }

    /// Address of the first frame.
    pub fn start(&self) -> (address: PhysicalAddress)
        ensures
            address == self.base(),
    {
        self.base
    }

    /// Frames of the region.
    pub fn frame_count(&self) -> (frames: usize)
        ensures
            frames == self.frames(),
    {
        self.layout.frame_count()
    }

    /// Frames that are not handed out, going by the count of those that are.
    pub fn frames_available(&self) -> (available: usize)
        ensures
            available <= self.frames(),
    {
        Self::available_frames(self.frame_count(), load_counter(&self.frames_used))
    }

    /// Frames that are left of `frame_count` when `frames_used` are handed out.
    pub fn available_frames(frame_count: usize, frames_used: usize) -> (available: usize)
        ensures
            available == frames_left(frame_count as int, frames_used as int),
    {
        if frames_used >= frame_count {
            0
        } else {
            frame_count - frames_used
        }
    }

    /// Length in bytes.
    pub fn len(&self) -> (bytes: usize)
        ensures
            bytes == self.byte_len(),
    {
        proof {
            use_type_invariant(self);
            self.lemma_extent();
        }
        self.frame_count() * FRAME_SIZE
    }

    /// Address of the first byte after the region.
    pub fn end(&self) -> (address: PhysicalAddress)
        ensures
            address@ == self.end_address(),
    {
        proof {
            use_type_invariant(self);
            self.lemma_extent();
        }
        PhysicalAddress::new(self.base.0 + self.len())
    }

    /// The frames of a region lie within the memory that its chunks describe.
    pub proof fn lemma_extent(&self)
        requires
            self.wf(),
        ensures
            0 < self.frames() <= self.layout().chunk_count() * chunk_frames(),
            self.end_address() <= self.base()@ + self.layout().chunk_count() * chunk_frames()
                * FRAME_SIZE <= usize::MAX,
            self.base()@ % FRAME_SIZE == 0,
    {
        lemma_chunks_cover(self.frames());
        let covered = self.layout().chunk_count() * chunk_frames();
        assert(self.frames() * FRAME_SIZE <= covered * FRAME_SIZE) by (nonlinear_arith)
            requires
                self.frames() <= covered,
                FRAME_SIZE == 4096,
        ;
    }

    /// Whether a request for `frame_count` frames is searched for when the
    /// count of frames handed out reads `frames_used`: the request must not
    /// be longer than a chunk, and at least `MIN_FRAMES_REQUIRED` frames must
    /// be left.
    pub open spec fn admits(&self, frame_count: int, frames_used: int) -> bool {
        &&& frame_count <= chunk_frames()
        &&& frames_left(self.frames(), frames_used) >= Self::MIN_FRAMES_REQUIRED
    }

    /// Allocates `frame_count` consecutive frames and returns the address of
    /// the first, or `None` where the region refuses the request or no chunk
    /// has such a run free.
    pub fn allocate(&self, frame_count: usize) -> (allocated: Option<PhysicalAddress>)
        ensures
            frame_count > usize::BITS ==> allocated is None,
            allocated matches Some(address) ==> self.holds_run(address@, frame_count as int),
    {
        let frames_used = load_counter(&self.frames_used);
        self.allocate_at_usage(frame_count, frames_used)
    }

    /// Allocates as `allocate` does, given that the count of frames handed
    /// out was just read as `frames_used`.
    ///
    /// The request is refused where it is not admitted. Otherwise the chunks
    /// are asked in order, each for one frame or for a run, and the first one
    /// that grants the request decides the address.
    pub fn allocate_at_usage(&self, frame_count: usize, frames_used: usize) -> (allocated: Option<
        PhysicalAddress,
    >)
        ensures
            !self.admits(frame_count as int, frames_used as int) ==> allocated is None,
            allocated matches Some(address) ==> self.holds_run(address@, frame_count as int),
    {
        proof {
            use_type_invariant(self);
        }
        let width = frames_per_chunk();
        if frame_count > width {
            return None;
        }
        if Self::available_frames(self.frame_count(), frames_used) < Self::MIN_FRAMES_REQUIRED {
            return None;
        }
        let count = frame_count as u8;
        let mut chunk_ix: usize = 0;
        while chunk_ix < self.chunks.len()
            invariant
                self.wf(),
                width == chunk_frames(),
                frame_count <= width,
                count == frame_count,
                self.admits(frame_count as int, frames_used as int),
            decreases self.chunks.len() - chunk_ix,
        {
            let chunk = &self.chunks[chunk_ix];
            let claimed = if frame_count == 1 {
                chunk.allocate_single()
            } else {
                chunk.allocate_many(count)
            };
            if let Some(offset) = claimed {
                let address = self.address_of(chunk_ix, offset);
                proof {
                    lemma_frame_address_tells_chunk_and_bit(
                        self.base()@ as int,
                        chunk_ix as int,
                        offset as int,
                    );
                    assert(chunk_ix * chunk_frames() + offset < self.layout().chunk_count()
                        * chunk_frames()) by (nonlinear_arith)
                        requires
                            0 <= chunk_ix < self.layout().chunk_count(),
                            0 <= offset < chunk_frames(),
                    ;
                }
                raise_counter(&self.frames_used, frame_count);
                return Some(address);
            }
            chunk_ix = chunk_ix + 1;
        }
        None
    }

    /// Releases the `frame_count` frames that start at `base`.
    ///
    /// Returns whether all of them were in use: `false` means that a frame
    /// was released that was not allocated.
    pub fn free(&self, base: PhysicalAddress, frame_count: usize) -> (released: bool)
        requires
            self.owns(base@),
            frame_count <= usize::BITS,
    {
        proof {
            use_type_invariant(self);
        }
        let (chunk_ix, offset) = self.locate(base);
        let released = self.chunks[chunk_ix].free(offset, frame_count as u8);
        lower_counter(&self.frames_used, frame_count);
        released
    }

    /// Address of the frame that bit `bit` of chunk `chunk` describes.
    pub fn address_of(&self, chunk: usize, bit: u8) -> (address: PhysicalAddress)
        requires
            chunk < self.layout().chunk_count(),
            bit < usize::BITS,
        ensures
            address@ == frame_address(self.base()@ as int, chunk as int, bit as int),
    {
        let width = frames_per_chunk();
        proof {
            use_type_invariant(self);
            let covered = self.layout().chunk_count() * chunk_frames();
            let frame = chunk * chunk_frames() + bit;
            assert(0 <= chunk * chunk_frames() <= frame < covered) by (nonlinear_arith)
                requires
                    0 <= chunk < self.layout().chunk_count(),
                    0 <= bit < chunk_frames(),
                    covered == self.layout().chunk_count() * chunk_frames(),
                    frame == chunk * chunk_frames() + bit,
            ;
            assert(frame * FRAME_SIZE < covered * FRAME_SIZE) by (nonlinear_arith)
                requires
                    0 <= frame < covered,
                    FRAME_SIZE == 4096,
            ;
        }
        let frame = chunk * width + bit as usize;
        PhysicalAddress::new(self.base.0 + frame * FRAME_SIZE)
    }

    /// The chunk and the bit that describe the frame in which `address`
    /// lies.
    pub fn locate(&self, address: PhysicalAddress) -> (place: (usize, u8))
        requires
            self.owns(address@),
        ensures
            place.0 == ((address@ - self.base()@) / (FRAME_SIZE as int)) / chunk_frames(),
            place.1 == ((address@ - self.base()@) / (FRAME_SIZE as int)) % chunk_frames(),
            place.0 < self.layout().chunk_count(),
            place.1 < usize::BITS,
    {
        let width = frames_per_chunk();
        let frame = (address.0 - self.base.0) / FRAME_SIZE;
        proof {
            use_type_invariant(self);
            self.lemma_extent();
            lemma_frame_join(frame as int);
            lemma_div_denominator(address@ - self.base()@, FRAME_SIZE as int, chunk_frames());
            if frame as int / chunk_frames() >= self.layout().chunk_count() {
                lemma_mul_inequality(
                    self.layout().chunk_count(),
                    frame as int / chunk_frames(),
                    chunk_frames(),
                );
            }
        }
        let chunk_ix = Self::chunk_index(self.base, address);
        let offset = frame % width;
        (chunk_ix, offset as u8)
    }

    /// Whether `address` lies in the region.
    pub fn check_if_owned(&self, address: PhysicalAddress) -> (owned: bool)
        ensures
            owned == self.owns(address@),
    {
        address.0 >= self.base.0 && address.0 < self.end().0
    }

    /// The chunk that describes the frame at `address` in the region that
    /// starts at `region_base`.
    pub fn chunk_index(region_base: PhysicalAddress, address: PhysicalAddress) -> (index: usize)
        requires
            region_base@ <= address@,
        ensures
            index == (address@ - region_base@) / (chunk_frames() * FRAME_SIZE),
    {
        (address.0 - region_base.0) / chunk_memory_size()
    }
}

} // verus!
