//! Access to the memory of guest arrays and buffers.

use vstd::prelude::*;

verus! {

/// Keeps the element types of typed arrays to those of this library.
pub trait Sealed {

}

/// An element type of a typed array.
pub trait TypedArrayElement: Sealed + Sized {
    /// The number of bytes of an element.
    spec fn width() -> nat;

    /// Returns the number of bytes of an element.
    fn size() -> (r: usize)
        ensures
            r == Self::width(),
            0 < r,
    ;
}

impl Sealed for i8 {

}

impl TypedArrayElement for i8 {
    open spec fn width() -> nat {
        1
    }

    fn size() -> (r: usize) {
        1
    }
}

impl Sealed for u8 {

}

impl TypedArrayElement for u8 {
    open spec fn width() -> nat {
        1
    }

    fn size() -> (r: usize) {
        1
    }
}

impl Sealed for i16 {

}

impl TypedArrayElement for i16 {
    open spec fn width() -> nat {
        2
    }

    fn size() -> (r: usize) {
        2
    }
}

impl Sealed for u16 {

}

impl TypedArrayElement for u16 {
    open spec fn width() -> nat {
        2
    }

    fn size() -> (r: usize) {
        2
    }
}

impl Sealed for i32 {

}

impl TypedArrayElement for i32 {
    open spec fn width() -> nat {
        4
    }

    fn size() -> (r: usize) {
        4
    }
}

impl Sealed for u32 {

}

impl TypedArrayElement for u32 {
    open spec fn width() -> nat {
        4
    }

    fn size() -> (r: usize) {
        4
    }
}

impl Sealed for i64 {

}

impl TypedArrayElement for i64 {
    open spec fn width() -> nat {
        8
    }

    fn size() -> (r: usize) {
        8
    }
}

impl Sealed for u64 {

}

impl TypedArrayElement for u64 {
    open spec fn width() -> nat {
        8
    }

    fn size() -> (r: usize) {
        8
    }
}

/// Whether memory of a length holds a whole element of a width at an index.
pub open spec fn holds_element(length: nat, width: nat, index: nat) -> bool {
    (index + 1) * width <= length
}

/// The bytes of the element at an index.
pub open spec fn element_at(memory: Seq<u8>, width: nat, index: nat) -> Seq<u8> {
    memory.subrange((index * width) as int, ((index + 1) * width) as int)
}

/// The memory with the bytes of the element at an index replaced.
pub open spec fn with_element(
    memory: Seq<u8>,
    width: nat,
    index: nat,
    bytes: Seq<u8>,
) -> Seq<u8> {
    overwritten(memory, (index * width) as int, bytes)
}

/// The memory with bytes written from an offset on.
pub open spec fn overwritten(memory: Seq<u8>, offset: int, bytes: Seq<u8>) -> Seq<u8> {
    memory.take(offset) + bytes + memory.skip(offset + bytes.len())
}

/// An element lies inside the memory exactly where its index is below the number of whole elements.
proof fn lemma_element_inside(length: nat, width: nat, index: nat)
    requires
        0 < width,
    ensures
        holds_element(length, width, index) <==> index < length / width,
        index * width <= (index + 1) * width,
        (index + 1) * width == index * width + width,
{
    let count = length / width;
    assert(length == width * count + length % width && length % width < width)
        by (nonlinear_arith)
        requires
            0 < width,
            count == length / width,
    ;
    assert((index + 1) * width == index * width + width) by (nonlinear_arith);
    if index < count {
        assert((index + 1) * width <= width * count) by (nonlinear_arith)
            requires
                index + 1 <= count,
        ;
    } else {
        assert(width * count <= index * width) by (nonlinear_arith)
            requires
                count <= index,
        ;
    }
}

/// Copies bytes into memory from an offset on.
fn write_bytes(memory: &mut [u8], offset: usize, bytes: &[u8], count: usize)
    requires
        count <= bytes@.len(),
        offset + count <= old(memory)@.len(),
    ensures
        final(memory)@ == overwritten(old(memory)@, offset as int, bytes@.take(count as int)),
{
    let ghost before = memory@;
    let length: usize = memory.len();
    let mut i: usize = 0;
    while i < count
        invariant
            i <= count,
            count <= bytes@.len(),
            memory@.len() == before.len(),
            length == before.len(),
            offset + count <= before.len(),
            memory@ =~= overwritten(before, offset as int, bytes@.take(i as int)),
        decreases count - i,
    {
        memory[offset + i] = bytes[i];
        i += 1;
    }
}

/// Copies the bytes of memory from an offset on.
fn read_bytes(memory: &[u8], offset: usize, count: usize) -> (r: Vec<u8>)
    requires
        offset + count <= memory@.len(),
    ensures
        r@ == memory@.subrange(offset as int, offset + count),
{
    let length: usize = memory.len();
    let mut bytes: Vec<u8> = Vec::new();
    let mut i: usize = 0;
    while i < count
        invariant
            i <= count,
            length == memory@.len(),
            offset + count <= memory@.len(),
            bytes@ =~= memory@.subrange(offset as int, offset + i),
        decreases count - i,
    {
        bytes.push(memory[offset + i]);
        i += 1;
    }
    bytes
}

/// Returns the bytes of the element of a typed array at an index. Detached memory holds no
/// elements.
pub fn get<T: TypedArrayElement>(memory: Option<&[u8]>, index: usize) -> (r: Option<Vec<u8>>)
    ensures
        match memory {
            Some(bytes) if holds_element(bytes@.len(), T::width(), index as nat) => r matches Some(
                element,
            ) && element@ == element_at(bytes@, T::width(), index as nat),
            _ => r is None,
        },
{
    let bytes = match memory {
        Some(bytes) => bytes,
        None => {
            return None;
        }
    };
    let size = T::size();
    proof {
        lemma_element_inside(bytes@.len(), T::width(), index as nat);
    }
    if index >= bytes.len() / size {
        return None;
    }
    Some(read_bytes(bytes, index * size, size))
}

/// Replaces the bytes of the element of a typed array at an index and returns whether there is such
/// an element. Detached memory holds no elements.
pub fn set<T: TypedArrayElement>(memory: Option<&mut [u8]>, index: usize, element: &[u8]) -> (r:
    bool)
    requires
        element@.len() == T::width(),
    ensures
        match memory {
            Some(bytes) => {
                &&& r == holds_element(bytes@.len(), T::width(), index as nat)
                &&& final(bytes)@ == (if r {
                    with_element(bytes@, T::width(), index as nat, element@)
                } else {
                    bytes@
                })
            },
            None => !r,
        },
{
    let bytes = match memory {
        Some(bytes) => bytes,
        None => {
            return false;
        }
    };
    let size = T::size();
    proof {
        lemma_element_inside(bytes@.len(), T::width(), index as nat);
    }
    if index >= bytes.len() / size {
        return false;
    }
    write_bytes(bytes, index * size, element, size);
    proof {
        assert(element@.take(size as int) =~= element@);
    }
    true
}

/// A target of [`Cursor::seek`].
#[derive(Clone, Copy, Debug, PartialEq, Eq, Structural)]
pub enum SeekTarget {
    /// A distance from the start.
    Start(u64),
    /// A distance from the end.
    End(i64),
    /// A distance from the current position.
    Current(i64),
}

/// Why a cursor could not be used.
#[derive(Clone, Copy, Debug, PartialEq, Eq, Structural)]
pub enum CursorError {
    /// The guest has detached the memory.
    Detached,
    /// The target lies before the start of the memory.
    BeforeStart,
}

impl CursorError {
    /// The text of the error.
    pub open spec fn text(self) -> Seq<char> {
        match self {
            CursorError::Detached => "the guest buffer is detached"@,
            CursorError::BeforeStart => "seek before the start of the guest buffer"@,
        }
    }

    /// Returns the text of the error.
    pub fn message(&self) -> (r: &'static str)
        ensures
            r@ == self.text(),
    {
        match self {
            CursorError::Detached => "the guest buffer is detached",
            CursorError::BeforeStart => "seek before the start of the guest buffer",
        }
    }
}

/// The number of bytes of memory behind a position.
pub open spec fn left(length: Option<nat>, position: nat) -> nat {
    match length {
        Some(length) if position < length => (length - position) as nat,
        _ => 0,
    }
}

/// The number of bytes that go through a cursor at once.
pub open spec fn transferred(length: nat, position: nat, wanted: nat) -> nat {
    let left = left(Some(length), position);
    if wanted < left {
        wanted
    } else {
        left
    }
}

/// The position that a seek aims at, before it is cut to the machine's word.
pub open spec fn aim(length: nat, position: nat, target: SeekTarget) -> int {
    match target {
        SeekTarget::Start(offset) => offset as int,
        SeekTarget::End(offset) => length + offset,
        SeekTarget::Current(offset) => position + offset,
    }
}

/// A position in the memory of a guest buffer, for reading and writing bytes one after another.
pub struct Cursor {
    position: usize,
}

impl View for Cursor {
    type V = nat;

    closed spec fn view(&self) -> nat {
        self.position as nat
    }
}

impl Cursor {
    /// Creates a cursor at the start.
    pub fn new() -> (r: Self)
        ensures
            r@ == 0,
    {
        Cursor { position: 0 }
    }

    /// Returns the position.
    pub fn position(&self) -> (r: usize)
        ensures
            r == self@,
    {
        self.position
    }

    /// Writes bytes at the position, as many as there is room for, and moves behind them.
    pub fn write(&mut self, memory: Option<&mut [u8]>, source: &[u8]) -> (r: Result<
        usize,
        CursorError,
    >)
        ensures
            match memory {
                Some(bytes) => {
                    let count = transferred(bytes@.len(), old(self)@, source@.len());
                    &&& r == Ok::<usize, CursorError>(count as usize)
                    &&& count <= usize::MAX
                    &&& final(bytes)@ == (if count == 0 {
                        bytes@
                    } else {
                        overwritten(bytes@, old(self)@ as int, source@.take(count as int))
                    })
                    &&& final(self)@ == old(self)@ + count
                },
                None => r == Err::<usize, CursorError>(CursorError::Detached) && final(self)@
                    == old(self)@,
            },
    {
        let bytes = match memory {
            Some(bytes) => bytes,
            None => {
                return Err(CursorError::Detached);
            }
        };
        let room: usize = bytes.len().saturating_sub(self.position);
        let wanted: usize = source.len();
        let count: usize = if wanted < room {
            wanted
        } else {
            room
        };
        if count > 0 {
            write_bytes(bytes, self.position, source, count);
            self.position = self.position + count;
        }
        Ok(count)
    }

    /// Reads bytes at the position, as many as there are and fit, and moves behind them.
    pub fn read(&mut self, memory: Option<&[u8]>, target: &mut [u8]) -> (r: Result<
        usize,
        CursorError,
    >)
        ensures
            match memory {
                Some(bytes) => {
                    let count = transferred(bytes@.len(), old(self)@, old(target)@.len());
                    &&& r == Ok::<usize, CursorError>(count as usize)
                    &&& count <= usize::MAX
                    &&& final(target)@ == (if count == 0 {
                        old(target)@
                    } else {
                        overwritten(
                            old(target)@,
                            0,
                            bytes@.subrange(old(self)@ as int, (old(self)@ + count) as int),
                        )
                    })
                    &&& final(self)@ == old(self)@ + count
                },
                None => r == Err::<usize, CursorError>(CursorError::Detached) && final(self)@
                    == old(self)@ && final(target)@ == old(target)@,
            },
    {
        let bytes = match memory {
            Some(bytes) => bytes,
            None => {
                return Err(CursorError::Detached);
            }
        };
        let room: usize = bytes.len().saturating_sub(self.position);
        let wanted: usize = target.len();
        let count: usize = if wanted < room {
            wanted
        } else {
            room
        };
        if count > 0 {
            let copied = read_bytes(bytes, self.position, count);
            write_bytes(target, 0, copied.as_slice(), count);
            assert(copied@.take(count as int) =~= copied@);
            self.position = self.position + count;
        }
        Ok(count)
    }

    /// Moves to a position, which may lie behind the end. A position beyond the machine's word is
    /// cut to it.
    pub fn seek(&mut self, length: Option<usize>, target: SeekTarget) -> (r: Result<
        u64,
        CursorError,
    >)
        ensures
            match length {
                Some(length) => {
                    let aim = aim(length as nat, old(self)@, target);
                    if aim < 0 {
                        r == Err::<u64, CursorError>(CursorError::BeforeStart) && final(self)@
                            == old(self)@
                    } else {
                        final(self)@ == aim % (usize::MAX + 1) && r == Ok::<u64, CursorError>(
                            final(self)@ as u64,
                        ) && final(self)@ <= u64::MAX
                    }
                },
                None => r == Err::<u64, CursorError>(CursorError::Detached) && final(self)@
                    == old(self)@,
            },
    {
        let length = match length {
            Some(length) => length,
            None => {
                return Err(CursorError::Detached);
            }
        };
        let aimed: i128 = match target {
            SeekTarget::Start(offset) => offset as i128,
            SeekTarget::End(offset) => length as i128 + offset as i128,
            SeekTarget::Current(offset) => self.position as i128 + offset as i128,
        };
        if aimed < 0 {
            return Err(CursorError::BeforeStart);
        }
        let cut: u128 = aimed as u128 % (usize::MAX as u128 + 1);
        self.position = cut as usize;
        Ok(self.position as u64)
    }

    /// Returns the number of bytes behind the position. Detached memory has none.
    pub fn remaining(&self, length: Option<usize>) -> (r: usize)
        ensures
            r == left(
                match length {
                    Some(length) => Some(length as nat),
                    None => None,
                },
                self@,
            ),
    {
        match length {
            Some(length) => length.saturating_sub(self.position),
            None => 0,
        }
    }

    /// Returns the range of the bytes behind the position, as its start and its length. Where
    /// there are none, the range is empty and starts at zero.
    pub fn chunk(&self, length: Option<usize>) -> (r: (usize, usize))
        ensures
            ({
                let left = left(
                    match length {
                        Some(length) => Some(length as nat),
                        None => None,
                    },
                    self@,
                );
                r == (if left == 0 {
                    (0usize, 0usize)
                } else {
                    (self@ as usize, left as usize)
                })
            }),
    {
        let left = self.remaining(length);
        if left == 0 {
            (0, 0)
        } else {
            (self.position, left)
        }
    }

    /// Moves behind bytes that were read.
    pub fn advance(&mut self, length: Option<usize>, count: usize)
        requires
            count <= left(
                match length {
                    Some(length) => Some(length as nat),
                    None => None,
                },
                old(self)@,
            ),
        ensures
            final(self)@ == old(self)@ + count,
    {
        if count > 0 {
            self.position = self.position + count;
        }
    }

    /// Moves behind bytes that were written.
    pub fn advance_mut(&mut self, count: usize)
        requires
            old(self)@ + count <= usize::MAX,
        ensures
            final(self)@ == old(self)@ + count,
    {
        self.position = self.position + count;
    }
}

/// What is written into memory is read back from the same position, and the other bytes stay.
pub proof fn law_written_bytes_are_read_back(memory: Seq<u8>, position: nat, source: Seq<u8>, i: int)
    requires
        0 <= i < memory.len(),
    ensures
        ({
            let count = transferred(memory.len(), position, source.len());
            let written = overwritten(memory, position as int, source.take(count as int));
            0 < count ==> {
                &&& written.len() == memory.len()
                &&& transferred(written.len(), position, count) == count
                &&& written.subrange(position as int, (position + count) as int) == source.take(
                    count as int,
                )
                &&& !(position <= i < position + count) ==> written[i] == memory[i]
            }
        }),
{
    let count = transferred(memory.len(), position, source.len());
    let written = overwritten(memory, position as int, source.take(count as int));
    if 0 < count {
        assert(written.subrange(position as int, (position + count) as int) =~= source.take(
            count as int,
        ));
    }
}

/// No transfer goes beyond the memory or moves more than was asked for, and nothing moves only
/// where nothing was asked for or the position is at the end or behind it.
pub proof fn law_transfers_stay_inside(length: nat, position: nat, wanted: nat)
    ensures
        transferred(length, position, wanted) <= wanted,
        0 < transferred(length, position, wanted) ==> position + transferred(
            length,
            position,
            wanted,
        ) <= length,
        transferred(length, position, wanted) == 0 <==> wanted == 0 || length <= position,
{
}

/// An element that was replaced is read back, and every other element stays.
pub proof fn law_replaced_element_is_read_back(
    memory: Seq<u8>,
    width: nat,
    index: nat,
    other: nat,
    bytes: Seq<u8>,
)
    requires
        0 < width,
        bytes.len() == width,
        holds_element(memory.len(), width, index),
        holds_element(memory.len(), width, other),
    ensures
        with_element(memory, width, index, bytes).len() == memory.len(),
        element_at(with_element(memory, width, index, bytes), width, index) == bytes,
        other != index ==> element_at(with_element(memory, width, index, bytes), width, other)
            == element_at(memory, width, other),
{
    lemma_element_inside(memory.len(), width, index);
    lemma_element_inside(memory.len(), width, other);
    let replaced = with_element(memory, width, index, bytes);
    assert(element_at(replaced, width, index) =~= bytes);
    if other < index {
        assert((other + 1) * width <= index * width) by (nonlinear_arith)
            requires
                other + 1 <= index,
        ;
        assert(element_at(replaced, width, other) =~= element_at(memory, width, other));
    } else if index < other {
        assert((index + 1) * width <= other * width) by (nonlinear_arith)
            requires
                index + 1 <= other,
        ;
        assert(element_at(replaced, width, other) =~= element_at(memory, width, other));
    }
}

/// Seeking from the start leads to a position whatever the cursor's own, and seeking back by the
/// distance to the start or to the end leads there.
pub proof fn law_seek_reaches_its_target(length: nat, position: nat, other: nat, target: u64)
    requires
        position <= i64::MAX,
    ensures
        aim(length, position, SeekTarget::Start(target)) == aim(
            length,
            other,
            SeekTarget::Start(target),
        ),
        aim(length, position, SeekTarget::Start(target)) == target,
        aim(length, position, SeekTarget::End(0)) == length,
        aim(length, position, SeekTarget::Current(0)) == position,
        aim(length, position, SeekTarget::Current((-position) as i64)) == 0,
{
}

} // verus!
