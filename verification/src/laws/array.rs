//! Typed arrays and cursors.

use vstd::prelude::*;

use crate::handle::array::{get, Cursor, CursorError, SeekTarget, TypedArrayElement};

verus! {

/// An element takes as many bytes as its number has.
pub proof fn law_elements_have_the_width_of_their_number(
    i8_size: usize,
    u8_size: usize,
    i16_size: usize,
    u16_size: usize,
    i32_size: usize,
    u32_size: usize,
    i64_size: usize,
    u64_size: usize,
)
    requires
        call_ensures(<i8 as TypedArrayElement>::size, (), i8_size),
        call_ensures(<u8 as TypedArrayElement>::size, (), u8_size),
        call_ensures(<i16 as TypedArrayElement>::size, (), i16_size),
        call_ensures(<u16 as TypedArrayElement>::size, (), u16_size),
        call_ensures(<i32 as TypedArrayElement>::size, (), i32_size),
        call_ensures(<u32 as TypedArrayElement>::size, (), u32_size),
        call_ensures(<i64 as TypedArrayElement>::size, (), i64_size),
        call_ensures(<u64 as TypedArrayElement>::size, (), u64_size),
    ensures
        i8_size == 1 && u8_size == 1,
        i16_size == 2 && u16_size == 2,
        i32_size == 4 && u32_size == 4,
        i64_size == 8 && u64_size == 8,
{
}

/// An element is there where all of its bytes are, and it is made of them in order. Detached memory
/// has no elements.
pub proof fn law_elements_are_made_of_their_bytes<'a, T: TypedArrayElement>(
    size: usize,
    memory: Option<&'a [u8]>,
    index: usize,
    found: Option<Vec<u8>>,
)
    requires
        call_ensures(<T as TypedArrayElement>::size, (), size),
        call_ensures(get::<T>, (memory, index), found),
    ensures
        found is Some <==> (memory matches Some(bytes) && index * size + size <= bytes@.len()),
        found matches Some(element) ==> element@.len() == size && forall|k: int|
            0 <= k < size ==> #[trigger] element@[k] == memory.unwrap()@[index * size + k],
{
    assert((index + 1) * size == index * size + size) by (nonlinear_arith);
    assert(index * size >= 0) by (nonlinear_arith);
}

/// Replacing an element gives its bytes to the memory, where there is room for all of them, and
/// leaves every other byte alone; where there is no room, nothing changes.
pub proof fn law_replaced_elements_change_their_bytes_only<T: TypedArrayElement>(
    size: usize,
    memory: &mut [u8],
    index: usize,
    element: &[u8],
    stored: bool,
    i: int,
)
    requires
        call_ensures(<T as TypedArrayElement>::size, (), size),
        element@.len() == size,
        call_ensures(crate::handle::array::set::<T>, (Some(memory), index, element), stored),
        0 <= i < old(memory)@.len(),
    ensures
        stored <==> index * size + size <= old(memory)@.len(),
        final(memory)@.len() == old(memory)@.len(),
        final(memory)@[i] == (if stored && index * size <= i < index * size + size {
            element@[i - index * size]
        } else {
            old(memory)@[i]
        }),
{
    assert((index + 1) * size == index * size + size) by (nonlinear_arith);
    assert(index * size >= 0) by (nonlinear_arith);
}

/// Detached memory takes no elements.
pub proof fn law_detached_memory_takes_no_elements<'a, T: TypedArrayElement>(
    index: usize,
    element: &'a [u8],
    stored: bool,
)
    requires
        call_ensures(crate::handle::array::set::<T>, (None::<&'a mut [u8]>, index, element),
            stored),
    ensures
        !stored,
{
}

/// A replaced element is read back.
pub proof fn law_replaced_elements_come_back<T: TypedArrayElement>(
    size: usize,
    memory: &mut [u8],
    index: usize,
    element: &[u8],
    stored: bool,
    after: &[u8],
    found: Option<Vec<u8>>,
)
    requires
        call_ensures(<T as TypedArrayElement>::size, (), size),
        element@.len() == size,
        call_ensures(crate::handle::array::set::<T>, (Some(memory), index, element), stored),
        after@ == final(memory)@,
        call_ensures(get::<T>, (Some(after), index), found),
    ensures
        stored <==> found is Some,
        found matches Some(own) ==> own@ == element@,
{
    assert((index + 1) * size == index * size + size) by (nonlinear_arith);
    assert(index * size >= 0) by (nonlinear_arith);
    if found is Some {
        assert(found.unwrap()@ =~= element@);
    }
}

/// A new cursor stands at the start.
pub proof fn law_cursors_start_at_the_start(cursor: Cursor, position: usize)
    requires
        call_ensures(Cursor::new, (), cursor),
        call_ensures(Cursor::position, (&cursor,), position),
    ensures
        position == 0,
{
}

/// A write moves as many bytes as it is given and as there is room for behind the cursor, leaves
/// every other byte alone and moves the cursor behind them.
pub proof fn law_writes_fill_the_memory_behind_the_cursor(
    cursor: &mut Cursor,
    memory: &mut [u8],
    source: &[u8],
    written: Result<usize, CursorError>,
    before: usize,
    after: usize,
    i: int,
)
    requires
        call_ensures(Cursor::position, (&*old(cursor),), before),
        call_ensures(Cursor::write, (cursor, Some(memory), source), written),
        call_ensures(Cursor::position, (&*final(cursor),), after),
        0 <= i < old(memory)@.len(),
    ensures
        written matches Ok(count) && after == before + count && count <= source@.len() && (count
            == source@.len() || before + count >= old(memory)@.len()) && (count == 0 || before
            + count <= old(memory)@.len()) && final(memory)@[i]
                == (if before <= i < before + count {
            source@[i - before]
        } else {
            old(memory)@[i]
        }),
        final(memory)@.len() == old(memory)@.len(),
{
}

/// A read moves as many bytes as it asks for and as there are behind the cursor to the front of its
/// target, leaves the rest of the target alone and moves the cursor behind them.
pub proof fn law_reads_take_the_memory_behind_the_cursor(
    cursor: &mut Cursor,
    memory: &[u8],
    target: &mut [u8],
    read: Result<usize, CursorError>,
    before: usize,
    after: usize,
    i: int,
)
    requires
        call_ensures(Cursor::position, (&*old(cursor),), before),
        call_ensures(Cursor::read, (cursor, Some(memory), target), read),
        call_ensures(Cursor::position, (&*final(cursor),), after),
        0 <= i < old(target)@.len(),
    ensures
        read matches Ok(count) && after == before + count && count <= old(target)@.len() && (count
            == old(target)@.len() || before + count >= memory@.len()) && (count == 0 || before
            + count <= memory@.len()) && final(target)@[i] == (if i < count {
            memory@[before + i]
        } else {
            old(target)@[i]
        }),
        final(target)@.len() == old(target)@.len(),
{
}

/// A transfer of no bytes, to no target or from no source, leaves the cursor where it is.
pub proof fn law_empty_transfers_move_nothing(
    cursor: &mut Cursor,
    memory: &mut [u8],
    source: &[u8],
    written: Result<usize, CursorError>,
    other: &mut Cursor,
    target: &mut [u8],
    read: Result<usize, CursorError>,
)
    requires
        call_ensures(Cursor::write, (cursor, Some(memory), source), written),
        call_ensures(Cursor::read, (other, Some(source), target), read),
    ensures
        source@.len() == 0 || old(memory)@.len() <= old(cursor)@ ==> written == Ok::<
            usize,
            CursorError,
        >(0) && final(cursor)@ == old(cursor)@ && final(memory)@ == old(memory)@,
        old(target)@.len() == 0 || source@.len() <= old(other)@ ==> read == Ok::<
            usize,
            CursorError,
        >(0) && final(other)@ == old(other)@ && final(target)@ == old(target)@,
{
}

/// What one cursor writes, another one at the same position reads back.
pub proof fn law_written_bytes_come_back(
    cursor: &mut Cursor,
    memory: &mut [u8],
    source: &[u8],
    written: Result<usize, CursorError>,
    other: &mut Cursor,
    after: &[u8],
    target: &mut [u8],
    read: Result<usize, CursorError>,
)
    requires
        call_ensures(Cursor::write, (cursor, Some(memory), source), written),
        old(other)@ == old(cursor)@,
        after@ == final(memory)@,
        old(target)@.len() == source@.len(),
        call_ensures(Cursor::read, (other, Some(after), target), read),
    ensures
        read == written,
        final(other)@ == final(cursor)@,
        written matches Ok(count) ==> final(target)@.take(count as int) == source@.take(
            count as int,
        ),
{
    if written is Ok {
        let count = written->Ok_0 as int;
        assert(final(target)@.take(count) =~= source@.take(count));
    }
}

/// Detached memory is neither written nor read, and the cursor stays where it is.
pub proof fn law_detached_memory_is_not_used<'a>(
    cursor: &mut Cursor,
    source: &'a [u8],
    written: Result<usize, CursorError>,
    reader: &mut Cursor,
    target: &mut [u8],
    read: Result<usize, CursorError>,
    seeker: &mut Cursor,
    aim: SeekTarget,
    sought: Result<u64, CursorError>,
)
    requires
        call_ensures(Cursor::write, (cursor, None::<&'a mut [u8]>, source), written),
        call_ensures(Cursor::read, (reader, None::<&'a [u8]>, target), read),
        call_ensures(Cursor::seek, (seeker, None::<usize>, aim), sought),
    ensures
        written == Err::<usize, CursorError>(CursorError::Detached),
        final(cursor)@ == old(cursor)@,
        read == Err::<usize, CursorError>(CursorError::Detached),
        final(reader)@ == old(reader)@,
        final(target)@ == old(target)@,
        sought == Err::<u64, CursorError>(CursorError::Detached),
        final(seeker)@ == old(seeker)@,
{
}

/// A seek counts from the start, from the end or from the cursor. A place before the start is
/// refused and leaves the cursor where it is; at any other the cursor stands afterwards, cut to the
/// machine's word, and the seek tells it.
pub proof fn law_seeks_reach_their_place(
    cursor: &mut Cursor,
    length: usize,
    target: SeekTarget,
    place: int,
    sought: Result<u64, CursorError>,
    before: usize,
    after: usize,
)
    requires
        call_ensures(Cursor::position, (&*old(cursor),), before),
        call_ensures(Cursor::seek, (cursor, Some(length), target), sought),
        call_ensures(Cursor::position, (&*final(cursor),), after),
        target matches SeekTarget::Start(offset) ==> place == offset,
        target matches SeekTarget::End(offset) ==> place == length + offset,
        target matches SeekTarget::Current(offset) ==> place == before + offset,
    ensures
        place < 0 ==> sought == Err::<u64, CursorError>(CursorError::BeforeStart) && after
            == before,
        place >= 0 ==> (sought matches Ok(told) && told == after),
        0 <= place <= usize::MAX ==> after == place,
        place > usize::MAX ==> after == place % (usize::MAX + 1),
{
    if 0 <= place <= usize::MAX {
        vstd::arithmetic::div_mod::lemma_small_mod(place as nat, (usize::MAX + 1) as nat);
    }
}

/// The bytes behind a cursor are those from its position to the end of the memory. Detached memory
/// and memory before the cursor have none.
pub proof fn law_the_rest_lies_behind_the_cursor(
    cursor: Cursor,
    length: Option<usize>,
    position: usize,
    remaining: usize,
    start: usize,
    count: usize,
)
    requires
        call_ensures(Cursor::position, (&cursor,), position),
        call_ensures(Cursor::remaining, (&cursor, length), remaining),
        call_ensures(Cursor::chunk, (&cursor, length), (start, count)),
    ensures
        length matches Some(all) ==> (position <= all ==> position + remaining == all) && (position
            > all ==> remaining == 0),
        length is None ==> remaining == 0,
        count == remaining,
        start == (if remaining > 0 {
            position
        } else {
            0usize
        }),
{
}

/// Advancing moves a cursor by the bytes that were read or written.
pub proof fn law_advancing_moves_by_the_count(
    reader: &mut Cursor,
    length: Option<usize>,
    count: usize,
    writer: &mut Cursor,
)
    requires
        call_ensures(Cursor::advance, (reader, length, count), ()),
        call_ensures(Cursor::advance_mut, (writer, count), ()),
    ensures
        final(reader)@ == old(reader)@ + count,
        final(writer)@ == old(writer)@ + count,
{
}

/// A cursor says why it could not be used.
pub proof fn law_cursor_errors_have_their_text(error: CursorError, text: &'static str)
    requires
        call_ensures(CursorError::message, (&error,), text),
    ensures
        error == CursorError::Detached ==> text@ == "the guest buffer is detached"@,
        error == CursorError::BeforeStart ==> text@ == "seek before the start of the guest buffer"@,
{
}

} // verus!
