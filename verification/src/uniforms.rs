//! The CPU-side uniform buffers of a pass and the ring of GPU-visible
//! buffers they are uploaded through.

use vstd::prelude::*;
use crate::error::FilterChainError;

verus! {

/// Number of GPU-visible uniform buffers that each pass cycles through.
pub const RING: usize = 16;

/// Where reflection placed a uniform member.
#[derive(Clone, Copy, Debug, PartialEq, Eq, Structural)]
pub enum MemberOffset {
    /// Byte offset into the uniform buffer block.
    Ubo(usize),
    /// Byte offset into the push-constant block.
    PushConstant(usize),
}

impl MemberOffset {
    pub open spec fn is_ubo(self) -> bool {
        self is Ubo
    }

    pub open spec fn bytes(self) -> usize {
        match self {
            MemberOffset::Ubo(offset) => offset,
            MemberOffset::PushConstant(offset) => offset,
        }
    }
}

/// The four bytes of `word`, least significant first.
pub open spec fn word_bytes(word: u32) -> Seq<u8> {
    seq![
        (word % 0x100) as u8,
        ((word / 0x100) % 0x100) as u8,
        ((word / 0x1_0000) % 0x100) as u8,
        (word / 0x100_0000) as u8,
    ]
}

/// The bytes of a run of 32-bit words, each least significant byte first.
pub open spec fn words_bytes(words: Seq<u32>) -> Seq<u8> {
    Seq::new(4 * words.len(), |i: int| word_bytes(words[i / 4])[i % 4])
}

/// `buffer` with `bytes` laid over it from `offset` on.
pub open spec fn overwrite(buffer: Seq<u8>, offset: int, bytes: Seq<u8>) -> Seq<u8> {
    Seq::new(
        buffer.len(),
        |i: int|
            if offset <= i < offset + bytes.len() {
                bytes[i - offset]
            } else {
                buffer[i]
            },
    )
}

/// Whether `count` words written at `offset` stay inside a block of `size` bytes.
pub open spec fn fits(size: nat, offset: nat, count: nat) -> bool {
    offset + 4 * count <= size
}

/// The ring slot that the frame numbered `count` uploads to and draws from.
pub open spec fn ring_slot_of(count: u64) -> nat {
    (count % 16) as nat
}

/// Selects the ring slot of a frame.
pub fn ring_slot(count: u64) -> (slot: usize)
    ensures
        slot == ring_slot_of(count),
        slot < RING,
{
    (count % 16) as usize
}

/// Two frames less than a ring's length apart never share a slot.
pub proof fn lemma_ring_slots_differ(earlier: u64, later: u64)
    requires
        earlier < later,
        later - earlier < 16,
    ensures
        ring_slot_of(earlier) != ring_slot_of(later),
{
}

/// The contents of the two uniform blocks of a pass.
pub struct Blocks {
    /// The uniform buffer block.
    pub ubo: Seq<u8>,
    /// The push-constant block.
    pub push: Seq<u8>,
}

/// One write into a uniform block.
pub struct UniformWrite {
    pub offset: MemberOffset,
    pub words: Seq<u32>,
}

impl Blocks {
    /// The block that `offset` points into.
    pub open spec fn block(self, offset: MemberOffset) -> Seq<u8> {
        if offset.is_ubo() {
            self.ubo
        } else {
            self.push
        }
    }

    /// Whether `count` words at `offset` stay inside the block.
    pub open spec fn holds(self, offset: MemberOffset, count: nat) -> bool {
        fits(self.block(offset).len(), offset.bytes() as nat, count)
    }

    /// The blocks after `words` were written at `offset`, least significant
    /// byte first.
    pub open spec fn store(self, offset: MemberOffset, words: Seq<u32>) -> Blocks {
        if offset.is_ubo() {
            Blocks { ubo: overwrite(self.ubo, offset.bytes() as int, words_bytes(words)), push: self.push }
        } else {
            Blocks { ubo: self.ubo, push: overwrite(self.push, offset.bytes() as int, words_bytes(words)) }
        }
    }

    /// The blocks after every write of `writes` was made, first to last.
    pub open spec fn apply(self, writes: Seq<UniformWrite>) -> Blocks
        decreases writes.len(),
    {
        if writes.len() == 0 {
            self
        } else {
            self.apply(writes.drop_last()).store(writes.last().offset, writes.last().words)
        }
    }
}

/// Two byte buffers of fixed size, one behind the uniform buffer block and
/// one behind the push-constant block of a pass.
pub struct UniformStorage {
    ubo: Vec<u8>,
    push: Vec<u8>,
}

impl View for UniformStorage {
    type V = Blocks;

    closed spec fn view(&self) -> Blocks {
        Blocks { ubo: self.ubo@, push: self.push@ }
    }
}

impl UniformStorage {
    /// Two zeroed blocks of the given sizes in bytes.
    pub fn new(ubo_size: usize, push_size: usize) -> (storage: UniformStorage)
        ensures
            storage@.ubo == Seq::new(ubo_size as nat, |i: int| 0u8),
            storage@.push == Seq::new(push_size as nat, |i: int| 0u8),
    {
        let storage = UniformStorage { ubo: zeroed(ubo_size), push: zeroed(push_size) };
        assert(storage.ubo@ =~= Seq::new(ubo_size as nat, |i: int| 0u8));
        assert(storage.push@ =~= Seq::new(push_size as nat, |i: int| 0u8));
        storage
    }

    /// The bytes to upload for the uniform buffer block.
    pub fn ubo_slice(&self) -> (bytes: &[u8])
        ensures
            bytes@ == self@.ubo,
    {
        self.ubo.as_slice()
    }

    /// The bytes to push as push constants.
    pub fn push_slice(&self) -> (bytes: &[u8])
        ensures
            bytes@ == self@.push,
    {
        self.push.as_slice()
    }

    /// Writes `words` at `offset`, least significant byte first. Nothing is
    /// written unless all of it fits the block.
    pub fn write_words(&mut self, offset: MemberOffset, words: &[u32]) -> (result: Result<(), FilterChainError>)
        ensures
            old(self)@.holds(offset, words@.len()) ==> result is Ok && final(self)@ == old(self)@.store(
                offset,
                words@,
            ),
            !old(self)@.holds(offset, words@.len()) ==> result == Err::<(), FilterChainError>(
                FilterChainError::UniformOffsetOutOfRange,
            ) && final(self)@ == old(self)@,
    {
        match offset {
            MemberOffset::Ubo(start) => {
                if !in_range(self.ubo.len(), start, words.len()) {
                    return Err(FilterChainError::UniformOffsetOutOfRange);
                }
                store(&mut self.ubo, start, words);
            },
            MemberOffset::PushConstant(start) => {
                if !in_range(self.push.len(), start, words.len()) {
                    return Err(FilterChainError::UniformOffsetOutOfRange);
                }
                store(&mut self.push, start, words);
            },
        }
        Ok(())
    }

    /// Writes one 32-bit value.
    pub fn bind_scalar(&mut self, offset: MemberOffset, value: u32) -> (result: Result<(), FilterChainError>)
        ensures
            old(self)@.holds(offset, 1) ==> result is Ok && final(self)@ == old(self)@.store(offset, seq![value]),
            !old(self)@.holds(offset, 1) ==> result == Err::<(), FilterChainError>(
                FilterChainError::UniformOffsetOutOfRange,
            ) && final(self)@ == old(self)@,
    {
        let words = [value];
        assert(words@ =~= seq![value]);
        self.write_words(offset, words.as_slice())
    }

    /// Writes a vector of four values.
    pub fn bind_vec4(&mut self, offset: MemberOffset, value: &[u32; 4]) -> (result: Result<(), FilterChainError>)
        ensures
            old(self)@.holds(offset, 4) ==> result is Ok && final(self)@ == old(self)@.store(offset, value@),
            !old(self)@.holds(offset, 4) ==> result == Err::<(), FilterChainError>(
                FilterChainError::UniformOffsetOutOfRange,
            ) && final(self)@ == old(self)@,
    {
        self.write_words(offset, value.as_slice())
    }

    /// Writes a four by four matrix, column after column.
    pub fn bind_mat4(&mut self, offset: MemberOffset, value: &[u32; 16]) -> (result: Result<(), FilterChainError>)
        ensures
            old(self)@.holds(offset, 16) ==> result is Ok && final(self)@ == old(self)@.store(offset, value@),
            !old(self)@.holds(offset, 16) ==> result == Err::<(), FilterChainError>(
                FilterChainError::UniformOffsetOutOfRange,
            ) && final(self)@ == old(self)@,
    {
        self.write_words(offset, value.as_slice())
    }
}

/// A buffer of `size` zero bytes.
fn zeroed(size: usize) -> (buffer: Vec<u8>)
    ensures
        buffer@.len() == size,
        forall|i: int| 0 <= i < size ==> buffer@[i] == 0u8,
{
    let mut buffer: Vec<u8> = Vec::new();
    let mut filled: usize = 0;
    while filled < size
        invariant
            filled <= size,
            buffer@.len() == filled,
            forall|i: int| 0 <= i < filled ==> buffer@[i] == 0u8,
        decreases size - filled,
    {
        buffer.push(0u8);
        filled = filled + 1;
    }
    buffer
}

/// Whether `count` words at `offset` fit `size` bytes.
fn in_range(size: usize, offset: usize, count: usize) -> (inside: bool)
    ensures
        inside == fits(size as nat, offset as nat, count as nat),
{
    offset <= size && count <= (size - offset) / 4
}

/// Lays the bytes of `words` over `buffer` from `offset` on.
fn store(buffer: &mut Vec<u8>, offset: usize, words: &[u32])
    requires
        fits(old(buffer)@.len(), offset as nat, words@.len()),
    ensures
        final(buffer)@ == overwrite(old(buffer)@, offset as int, words_bytes(words@)),
{
    let ghost before = buffer@;
    let size = buffer.len();
    let mut done: usize = 0;
    while done < words.len()
        invariant
            done <= words@.len(),
            size == before.len(),
            buffer@.len() == before.len(),
            fits(before.len(), offset as nat, words@.len()),
            forall|i: int|
                0 <= i < before.len() ==> #[trigger] buffer@[i] == (if offset <= i < offset + 4 * done {
                    words_bytes(words@)[i - offset]
                } else {
                    before[i]
                }),
        decreases words@.len() - done,
    {
        let word = words[done];
        let at = offset + 4 * done;
        buffer.set(at, (word % 0x100) as u8);
        buffer.set(at + 1, ((word / 0x100) % 0x100) as u8);
        buffer.set(at + 2, ((word / 0x1_0000) % 0x100) as u8);
        buffer.set(at + 3, (word / 0x100_0000) as u8);
        proof {
            assert forall|i: int| 0 <= i < before.len() implies #[trigger] buffer@[i] == (if offset <= i < offset
                + 4 * (done + 1) {
                words_bytes(words@)[i - offset]
            } else {
                before[i]
            }) by {
                if at <= i < at + 4 {
                    assert((i - offset) / 4 == done);
                    assert((i - offset) % 4 == i - at);
                }
            }
        }
        done = done + 1;
    }
    assert(buffer@ =~= overwrite(before, offset as int, words_bytes(words@)));
}

} // verus!
