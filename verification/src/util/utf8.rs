//! NUL-separated string lists, the layout of list-valued text properties.
//!
//! A list is written as each item followed by one NUL byte. Property data read
//! back from a server may or may not carry the final NUL, so reading accepts
//! both and never reports an empty item for the terminator.

use vstd::prelude::*;
use vstd::string::StringSliceAdditionalSpecFns;
use vstd::utf8::{
    encode_utf8, encode_utf8_decode_utf8, encode_utf8_valid_utf8, is_char_boundary, is_char_boundary_iff_not_is_continuation_byte,
    length_of_first_scalar, pop_first_scalar, valid_utf8, valid_utf8_split,
};

verus! {

/// The pieces of `bytes` between NUL bytes, in order. There is always one more
/// piece than there are NUL bytes, so the empty input has one empty piece.
pub open spec fn split(bytes: Seq<u8>) -> Seq<Seq<u8>>
    decreases bytes.len(),
{
    if bytes.len() == 0 {
        seq![Seq::<u8>::empty()]
    } else if bytes.last() == 0 {
        split(bytes.drop_last()).push(Seq::<u8>::empty())
    } else {
        let before = split(bytes.drop_last());
        before.drop_last().push(before.last().push(bytes.last()))
    }
}

/// The items that `bytes` holds: its pieces, without the last one when that
/// piece is empty (the input was empty or ended in a NUL byte).
pub open spec fn decoded(bytes: Seq<u8>) -> Seq<Seq<u8>> {
    let pieces = split(bytes);
    if pieces.last().len() == 0 {
        pieces.drop_last()
    } else {
        pieces
    }
}

/// The first item that `bytes` holds, or the empty string where it holds
/// none.
pub open spec fn first_item(bytes: Seq<u8>) -> Seq<u8> {
    if decoded(bytes).len() > 0 {
        decoded(bytes)[0]
    } else {
        Seq::<u8>::empty()
    }
}

/// The wire form of `items`: every item followed by one NUL byte.
pub open spec fn encoded(items: Seq<Seq<u8>>) -> Seq<u8>
    decreases items.len(),
{
    if items.len() == 0 {
        Seq::<u8>::empty()
    } else {
        encoded(items.drop_last()) + items.last().push(0u8)
    }
}

/// The UTF-8 bytes of each string of `items`.
pub open spec fn bytes_of(items: Seq<&str>) -> Seq<Seq<u8>> {
    Seq::new(items.len(), |i: int| items[i].spec_bytes())
}

/// `true` when no byte of `item` is NUL.
pub open spec fn nul_free(item: Seq<u8>) -> bool {
    forall|i: int| 0 <= i < item.len() ==> item[i] != 0
}

/// `true` when every item of `items` is free of NUL bytes.
pub open spec fn all_nul_free(items: Seq<Seq<u8>>) -> bool {
    forall|k: int| 0 <= k < items.len() ==> nul_free(#[trigger] items[k])
}

/// Splitting always yields at least one piece, and the last piece is empty
/// exactly when the input is empty or ends in a NUL byte.
pub proof fn split_last_piece(bytes: Seq<u8>)
    ensures
        split(bytes).len() >= 1,
        split(bytes).last().len() == 0 <==> (bytes.len() == 0 || bytes.last() == 0),
    decreases bytes.len(),
{
    if bytes.len() > 0 {
        split_last_piece(bytes.drop_last());
    }
}

/// No piece of a split holds a NUL byte.
pub proof fn split_pieces_nul_free(bytes: Seq<u8>)
    ensures
        all_nul_free(split(bytes)),
    decreases bytes.len(),
{
    if bytes.len() > 0 {
        split_pieces_nul_free(bytes.drop_last());
        split_last_piece(bytes.drop_last());
        let before = split(bytes.drop_last());
        assert(nul_free(before.last()));
        assert forall|k: int| 0 <= k < split(bytes).len() implies nul_free(
            #[trigger] split(bytes)[k],
        ) by {
            if k < before.len() - 1 {
                assert(nul_free(before[k]));
            }
        }
    }
}

/// Joining the pieces of a split with single NUL bytes gives the input back.
pub proof fn split_joins_back(bytes: Seq<u8>)
    ensures
        encoded(split(bytes).drop_last()) + split(bytes).last() == bytes,
    decreases bytes.len(),
{
    split_last_piece(bytes);
    let pieces = split(bytes);
    if bytes.len() == 0 {
        assert(pieces.drop_last() =~= Seq::<Seq<u8>>::empty());
        assert(encoded(pieces.drop_last()) + pieces.last() =~= bytes);
    } else {
        let before = split(bytes.drop_last());
        split_joins_back(bytes.drop_last());
        split_last_piece(bytes.drop_last());
        let head = encoded(before.drop_last());
        assert(head + before.last() == bytes.drop_last());
        if bytes.last() == 0 {
            assert(pieces.drop_last() =~= before);
            assert(encoded(before) == head + before.last().push(0u8));
            assert(head + before.last().push(0u8) =~= (head + before.last()).push(0u8));
            assert(bytes.drop_last().push(0u8) =~= bytes);
            assert(encoded(before) + pieces.last() =~= bytes);
        } else {
            assert(pieces.drop_last() =~= before.drop_last());
            assert(head + before.last().push(bytes.last()) =~= (head + before.last()).push(
                bytes.last(),
            ));
            assert(bytes.drop_last().push(bytes.last()) =~= bytes);
        }
    }
}

/// Appending NUL-free bytes to an input extends its last piece and changes no
/// other piece.
pub proof fn split_extends_last_piece(bytes: Seq<u8>, tail: Seq<u8>)
    requires
        nul_free(tail),
    ensures
        split(bytes + tail) == split(bytes).drop_last().push(split(bytes).last() + tail),
    decreases tail.len(),
{
    split_last_piece(bytes);
    let pieces = split(bytes);
    if tail.len() == 0 {
        assert(bytes + tail =~= bytes);
        assert(pieces.last() + tail =~= pieces.last());
        assert(pieces.drop_last().push(pieces.last()) =~= pieces);
    } else {
        let shorter = tail.drop_last();
        assert(nul_free(shorter)) by {
            assert forall|i: int| 0 <= i < shorter.len() implies shorter[i] != 0 by {
                assert(shorter[i] == tail[i]);
            }
        }
        split_extends_last_piece(bytes, shorter);
        let whole = bytes + tail;
        assert(whole.drop_last() =~= bytes + shorter);
        assert(whole.last() == tail.last());
        assert(tail.last() != 0);
        let before = split(bytes + shorter);
        assert(before.drop_last() =~= pieces.drop_last());
        assert(before.last() == pieces.last() + shorter);
        assert((pieces.last() + shorter).push(tail.last()) =~= pieces.last() + tail);
    }
}

/// The wire form of NUL-free items splits into those items and one empty
/// piece behind the last terminator.
pub proof fn split_of_encoded(items: Seq<Seq<u8>>)
    requires
        all_nul_free(items),
    ensures
        split(encoded(items)) == items.push(Seq::<u8>::empty()),
    decreases items.len(),
{
    if items.len() == 0 {
        assert(items.push(Seq::<u8>::empty()) =~= seq![Seq::<u8>::empty()]);
    } else {
        let init = items.drop_last();
        let last = items.last();
        assert(all_nul_free(init)) by {
            assert forall|k: int| 0 <= k < init.len() implies nul_free(#[trigger] init[k]) by {
                assert(init[k] == items[k]);
            }
        }
        assert(nul_free(last));
        split_of_encoded(init);
        split_extends_last_piece(encoded(init), last);
        let body = encoded(init) + last;
        assert(init.push(Seq::<u8>::empty()).drop_last() =~= init);
        assert(Seq::<u8>::empty() + last =~= last);
        assert(split(body) == init.push(last));
        assert(init.push(last) =~= items);
        let whole = encoded(items);
        assert(whole =~= body.push(0u8));
        assert(whole.drop_last() =~= body);
        assert(whole.last() == 0);
    }
}

/// Splitting is the only way to cut an input into NUL-free pieces that are
/// joined by single NUL bytes.
pub proof fn split_is_unique(bytes: Seq<u8>, pieces: Seq<Seq<u8>>)
    requires
        pieces.len() >= 1,
        all_nul_free(pieces),
        encoded(pieces.drop_last()) + pieces.last() == bytes,
    ensures
        split(bytes) == pieces,
{
    let init = pieces.drop_last();
    assert(all_nul_free(init)) by {
        assert forall|k: int| 0 <= k < init.len() implies nul_free(#[trigger] init[k]) by {
            assert(init[k] == pieces[k]);
        }
    }
    assert(nul_free(pieces.last()));
    split_of_encoded(init);
    split_extends_last_piece(encoded(init), pieces.last());
    assert(init.push(Seq::<u8>::empty()).drop_last() =~= init);
    assert(Seq::<u8>::empty() + pieces.last() =~= pieces.last());
    assert(init.push(pieces.last()) =~= pieces);
}

/// Reading what was written gives the written items back, as long as no item
/// holds a NUL byte.
pub proof fn read_after_write(items: Seq<Seq<u8>>)
    requires
        all_nul_free(items),
    ensures
        decoded(encoded(items)) == items,
{
    split_of_encoded(items);
    assert(items.push(Seq::<u8>::empty()).drop_last() =~= items);
}

/// Strings that are written as a list and read again come back as they were,
/// one for one, as long as none of them holds a NUL character: if `parts` is
/// what reading finds in the wire form of `items`, then `parts` and `items`
/// are the same strings.
pub proof fn strings_read_back(items: Seq<&str>, parts: Seq<&str>)
    requires
        all_nul_free(bytes_of(items)),
        bytes_of(parts) == decoded(encoded(bytes_of(items))),
    ensures
        parts.len() == items.len(),
        forall|i: int| 0 <= i < items.len() ==> (#[trigger] parts[i])@ == items[i]@,
{
    read_after_write(bytes_of(items));
    assert(bytes_of(parts).len() == bytes_of(items).len());
    assert forall|i: int| 0 <= i < items.len() implies (#[trigger] parts[i])@ == items[i]@ by {
        assert(bytes_of(parts)[i] == bytes_of(items)[i]);
        assert(encode_utf8(parts[i]@) == encode_utf8(items[i]@));
        encode_utf8_decode_utf8(parts[i]@);
        encode_utf8_decode_utf8(items[i]@);
    }
}

/// Writing what was read gives the data back with its terminator: unchanged
/// when the data is empty or already ends in a NUL byte, with one NUL byte
/// added otherwise.
pub proof fn write_after_read(bytes: Seq<u8>)
    ensures
        encoded(decoded(bytes)) == if bytes.len() == 0 || bytes.last() == 0 {
            bytes
        } else {
            bytes.push(0u8)
        },
{
    split_last_piece(bytes);
    split_joins_back(bytes);
    let pieces = split(bytes);
    let head = encoded(pieces.drop_last());
    if pieces.last().len() == 0 {
        assert(head + pieces.last() =~= head);
    } else {
        assert(head + pieces.last().push(0u8) =~= (head + pieces.last()).push(0u8));
    }
}

/// A single string that holds no NUL byte reads back as itself, whether it
/// was written bare or with its terminator.
pub proof fn single_item_reads_back(item: Seq<u8>)
    requires
        nul_free(item),
    ensures
        first_item(item) == item,
        first_item(item.push(0u8)) == item,
        first_item(encoded(seq![item])) == item,
{
    let one = seq![item];
    assert(all_nul_free(one));
    read_after_write(one);
    assert(one.drop_last() =~= Seq::<Seq<u8>>::empty());
    assert(one.last() == item);
    assert(encoded(one.drop_last()) =~= Seq::<u8>::empty());
    assert(encoded(one) == encoded(one.drop_last()) + one.last().push(0u8));
    assert(encoded(one) =~= item.push(0u8));
    assert(decoded(item.push(0u8))[0] == item);
    split_extends_last_piece(Seq::<u8>::empty(), item);
    assert(Seq::<u8>::empty() + item =~= item);
    assert(split(Seq::<u8>::empty()).drop_last() =~= Seq::<Seq<u8>>::empty());
    assert(split(item) =~= seq![item]);
    if item.len() == 0 {
        assert(decoded(item) =~= Seq::<Seq<u8>>::empty());
    }
}

/// Every item that reading reports is free of NUL bytes, and empty data holds
/// no item.
pub proof fn read_items_nul_free(bytes: Seq<u8>)
    ensures
        all_nul_free(decoded(bytes)),
        bytes.len() == 0 ==> decoded(bytes).len() == 0,
{
    split_pieces_nul_free(bytes);
    split_last_piece(bytes);
    let pieces = split(bytes);
    assert forall|k: int| 0 <= k < decoded(bytes).len() implies nul_free(
        #[trigger] decoded(bytes)[k],
    ) by {
        assert(decoded(bytes)[k] == pieces[k]);
    }
}

/// A NUL byte in a string ends a character before it and is a character of
/// its own: the string can be cut in front of it and behind it.
proof fn nul_is_a_boundary(bytes: Seq<u8>, index: int)
    requires
        valid_utf8(bytes),
        0 <= index < bytes.len(),
        bytes[index] == 0,
    ensures
        is_char_boundary(bytes, index),
        valid_utf8(bytes.subrange(index, bytes.len() as int)),
        is_char_boundary(bytes.subrange(index, bytes.len() as int), 1),
{
    is_char_boundary_iff_not_is_continuation_byte(bytes, index);
    valid_utf8_split(bytes, index);
    let tail = bytes.subrange(index, bytes.len() as int);
    assert(tail[0] == 0);
    assert(length_of_first_scalar(tail) == 1);
    assert(valid_utf8(pop_first_scalar(tail)));
    reveal_with_fuel(is_char_boundary, 2);
}

/// Reads a NUL-separated list: the items of `data`, each borrowed from it.
///
/// A final NUL byte ends the last item and does not start another one, so
/// empty data holds no item at all.
pub fn into<'a>(data: &'a str) -> (parts: Vec<&'a str>)
    ensures
        bytes_of(parts@) == decoded(data.spec_bytes()),
        data.spec_bytes().len() == 0 ==> parts@.len() == 0,
{
    let bytes = data.as_bytes();
    let mut parts: Vec<&'a str> = Vec::new();
    let mut rest: &'a str = data;
    let mut start: usize = 0;
    let mut i: usize = 0;
    proof {
        assert(bytes@.subrange(0, 0) =~= Seq::<u8>::empty());
        assert(bytes_of(parts@).push(Seq::<u8>::empty()) =~= seq![Seq::<u8>::empty()]);
        assert(bytes@.take(0).len() == 0);
        assert(bytes@.subrange(0, bytes@.len() as int) =~= bytes@);
    }
    while i < bytes.len()
        invariant
            bytes@ == data.spec_bytes(),
            start <= i <= bytes.len(),
            rest.spec_bytes() == bytes@.subrange(start as int, bytes@.len() as int),
            bytes_of(parts@).push(bytes@.subrange(start as int, i as int)) == split(
                bytes@.take(i as int),
            ),
        decreases bytes.len() - i,
    {
        let ghost before = bytes_of(parts@);
        proof {
            let next = bytes@.take(i + 1);
            assert(next.drop_last() =~= bytes@.take(i as int));
            assert(next.last() == bytes@[i as int]);
            assert(bytes@.subrange(start as int, i as int).push(bytes@[i as int])
                =~= bytes@.subrange(start as int, i + 1));
        }
        if bytes[i] == 0 {
            proof {
                encode_utf8_valid_utf8(rest@);
                assert(rest.spec_bytes()[i - start] == bytes@[i as int]);
                nul_is_a_boundary(rest.spec_bytes(), i - start);
            }
            let (piece, tail) = rest.split_at(i - start);
            let (_, behind) = tail.split_at(1);
            parts.push(piece);
            proof {
                assert(piece.spec_bytes() =~= bytes@.subrange(start as int, i as int));
                assert(behind.spec_bytes() =~= bytes@.subrange(i + 1, bytes@.len() as int));
                assert(bytes_of(parts@) =~= before.push(piece.spec_bytes()));
                assert(bytes@.subrange(i + 1, i + 1) =~= Seq::<u8>::empty());
            }
            rest = behind;
            start = i + 1;
        } else {
            proof {
                let whole = before.push(bytes@.subrange(start as int, i as int));
                assert(whole.drop_last() =~= before);
            }
        }
        i += 1;
    }
    let ghost before = bytes_of(parts@);
    proof {
        assert(bytes@.take(i as int) =~= bytes@);
        assert(before.push(bytes@.subrange(start as int, i as int)).drop_last() =~= before);
    }
    if start < bytes.len() {
        parts.push(rest);
        proof {
            assert(bytes_of(parts@) =~= before.push(rest.spec_bytes()));
        }
    }
    parts
}

/// Writes a list in wire form: the UTF-8 bytes of every string of `data`, each
/// followed by one NUL byte.
pub fn from(data: &[&str]) -> (bytes: Vec<u8>)
    ensures
        bytes@ == encoded(bytes_of(data@)),
{
    let mut result: Vec<u8> = Vec::new();
    let mut i: usize = 0;
    while i < data.len()
        invariant
            i <= data.len(),
            result@ == encoded(bytes_of(data@).take(i as int)),
        decreases data.len() - i,
    {
        let item = data[i].as_bytes();
        let ghost before = result@;
        result.extend_from_slice(item);
        result.push(0u8);
        proof {
            let done = bytes_of(data@).take(i + 1);
            assert(done.drop_last() =~= bytes_of(data@).take(i as int));
            assert(done.last() == item@);
            assert(result@ =~= before + item@.push(0u8));
        }
        i += 1;
    }
    proof {
        assert(bytes_of(data@).take(i as int) =~= bytes_of(data@));
    }
    result
}

} // verus!
