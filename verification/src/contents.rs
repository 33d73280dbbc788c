//! What a file holds, seen from outside.
//!
//! A file is a sequence of bytes.  Beyond its end, it reads as zeroes.

use vstd::prelude::*;

verus! {

/// The byte that reading the file at `i` gives.
pub open spec fn byte_at(contents: Seq<u8>, i: int) -> u8 {
    if 0 <= i < contents.len() {
        contents[i]
    } else {
        0
    }
}

/// What reading `len` bytes of the file from `offset` on gives.
pub open spec fn read_back(contents: Seq<u8>, offset: int, len: nat) -> Seq<u8> {
    Seq::new(len, |i: int| byte_at(contents, offset + i))
}

/// `len` zeroes.
pub open spec fn zeroes(len: nat) -> Seq<u8> {
    Seq::new(len, |i: int| 0u8)
}

/// The file after `data` has been written to it from `offset` on.
pub open spec fn written(contents: Seq<u8>, offset: int, data: Seq<u8>) -> Seq<u8> {
    if data.len() == 0 {
        contents
    } else {
        Seq::new(
            crate::align::max_int(contents.len() as int, offset + data.len()) as nat,
            |i: int|
                if offset <= i < offset + data.len() {
                    data[i - offset]
                } else {
                    byte_at(contents, i)
                },
        )
    }
}

/// The file after its length has been set to `len`.
pub open spec fn resized(contents: Seq<u8>, len: nat) -> Seq<u8> {
    Seq::new(len, |i: int| byte_at(contents, i))
}

/// The file after those of its bytes that lie in the range from `from` to before `to` have been
/// zeroed.
pub open spec fn zeroed(contents: Seq<u8>, from: int, to: int) -> Seq<u8> {
    Seq::new(
        contents.len(),
        |i: int|
            if from <= i < to {
                0u8
            } else {
                contents[i]
            },
    )
}

/// What a file of given contents is: its bytes are what is read of it, and zeroes beyond its end.
/// After something has been written, it is what is read there, and the file reaches up to its end at
/// least; after the length has been set, the file has that length and reads as before up to there;
/// after a range has been zeroed, the file has its length and reads as zeroes in the range and as
/// before elsewhere.
pub proof fn law_file_reads_as_it_was_left(
    contents: Seq<u8>,
    offset: int,
    data: Seq<u8>,
    len: nat,
    to: int,
    i: int,
)
    requires
        0 <= offset,
        0 <= i,
    ensures
        i < contents.len() ==> byte_at(contents, i) == contents[i],
        i >= contents.len() ==> byte_at(contents, i) == 0,
        read_back(contents, offset, len).len() == len,
        i < len ==> read_back(contents, offset, len)[i] == byte_at(contents, offset + i),
        zeroes(len).len() == len,
        i < len ==> zeroes(len)[i] == 0,
        byte_at(written(contents, offset, data), i) == if offset <= i < offset + data.len() {
            data[i - offset]
        } else {
            byte_at(contents, i)
        },
        written(contents, offset, data).len() == if data.len() > 0 && offset + data.len()
            > contents.len() {
            offset + data.len()
        } else {
            contents.len() as int
        },
        resized(contents, len).len() == len,
        i < len ==> byte_at(resized(contents, len), i) == byte_at(contents, i),
        zeroed(contents, offset, to).len() == contents.len(),
        byte_at(zeroed(contents, offset, to), i) == if offset <= i < to {
            0
        } else {
            byte_at(contents, i)
        },
{
}

/// What has been written is read back.
pub proof fn law_read_back_written(contents: Seq<u8>, offset: int, data: Seq<u8>)
    requires
        0 <= offset,
    ensures
        read_back(written(contents, offset, data), offset, data.len()) == data,
{
    assert(read_back(written(contents, offset, data), offset, data.len()) =~= data);
}

/// Writing changes nothing but the range that is written.
pub proof fn law_write_leaves_rest(contents: Seq<u8>, offset: int, data: Seq<u8>, i: int)
    requires
        0 <= offset,
        i < offset || offset + data.len() <= i,
    ensures
        byte_at(written(contents, offset, data), i) == byte_at(contents, i),
{
}

/// Writing the parts of something one after the other is the same as writing all of it.
pub proof fn lemma_written_in_parts(contents: Seq<u8>, offset: int, first: Seq<u8>, second: Seq<u8>)
    requires
        0 <= offset,
    ensures
        written(written(contents, offset, first), offset + first.len(), second) == written(
            contents,
            offset,
            first + second,
        ),
{
    if first.len() == 0 {
        assert(first + second =~= second);
    } else if second.len() == 0 {
        assert(first + second =~= first);
    } else {
        assert(written(written(contents, offset, first), offset + first.len(), second)
            =~= written(contents, offset, first + second));
    }
}

/// Reading the parts of a range one after the other is the same as reading all of it.
pub proof fn lemma_read_in_parts(contents: Seq<u8>, offset: int, first: nat, second: nat)
    ensures
        read_back(contents, offset, first) + read_back(contents, offset + first, second)
            == read_back(contents, offset, first + second),
{
    assert(read_back(contents, offset, first) + read_back(contents, offset + first, second)
        =~= read_back(contents, offset, first + second));
}

} // verus!
