//! ID3v2 tags, which may come before the audio of a stream: where they end, and
//! which of them no reader should be given.

use vstd::prelude::*;

verus! {

/// How many bytes the header of a tag takes.
pub const TAG_HEADER_LEN: usize = 10;

/// Whether a tag starts at `i`.
pub open spec fn starts_tag(b: Seq<u8>, i: int) -> bool {
    b[i] == 0x49 && b[i + 1] == 0x44 && b[i + 2] == 0x33
}

/// Where the tag at `i` ends. Its length takes seven bits of each of four bytes.
pub open spec fn tag_end(b: Seq<u8>, i: int) -> int {
    i + TAG_HEADER_LEN + b[i + 6] % 128 * 0x20_0000 + b[i + 7] % 128 * 0x4000 + b[i + 8] % 128
        * 0x80 + b[i + 9] % 128
}

/// Whether a flag is set.
pub open spec fn is_set(flags: u8, flag: u8) -> bool {
    flags / flag % 2 == 1
}

/// Where the restrictions in the extended header of the tag at `i` stand, after
/// the mark of an update and the checksum.
pub open spec fn restrictions_place(b: Seq<u8>, i: int) -> int {
    let flags = b[i + 15];
    i + 16 + if is_set(flags, 0x40) {
        1int
    } else {
        0
    } + if is_set(flags, 0x20) {
        6int
    } else {
        0
    }
}

/// Whether the tag at `i` has an extended header, of the form that the fourth
/// version gives it, which restricts the encoding of text: its flags, then what
/// each of them announces, each with its length in front.
pub open spec fn restricts_text(b: Seq<u8>, i: int) -> bool {
    let flags = b[i + 15];
    let at = restrictions_place(b, i);
    &&& b[i + 3] == 4
    &&& b[i + 4] != 0xff
    &&& is_set(b[i + 5], 0x40)
    &&& b[i + 14] == 1
    &&& is_set(flags, 0x40) ==> b[i + 16] == 1
    &&& is_set(flags, 0x20) ==> b[at - 6] == 5
    &&& is_set(flags, 0x10)
    &&& at + 2 <= b.len()
    &&& at + 2 <= tag_end(b, i)
    &&& b[at] == 1
    &&& is_set(b[at + 1], 0x40)
}

/// Whether a tag starts at `i`.
pub fn does_start_tag(b: &Vec<u8>, i: usize) -> (yes: bool)
    requires
        i + 3 <= b.len(),
    ensures
        yes == starts_tag(b@, i as int),
{
    b[i] == 0x49 && b[i + 1] == 0x44 && b[i + 2] == 0x33
}

/// How many bytes the tag at `i` takes, its header included.
pub fn measure_tag(b: &Vec<u8>, i: usize) -> (len: usize)
    requires
        i + TAG_HEADER_LEN <= b.len(),
    ensures
        i + len == tag_end(b@, i as int),
        TAG_HEADER_LEN <= len,
{
    TAG_HEADER_LEN + (b[i + 6] % 128) as usize * 0x20_0000 + (b[i + 7] % 128) as usize * 0x4000 + (
    b[i + 8] % 128) as usize * 0x80 + (b[i + 9] % 128) as usize
}

/// Whether the tag at `i` restricts the encoding of text.
pub fn does_restrict_text(b: &Vec<u8>, i: usize) -> (yes: bool)
    requires
        i + 16 <= b.len(),
    ensures
        yes == restricts_text(b@, i as int),
{
    if b[i + 3] != 4 || b[i + 4] == 0xff || b[i + 5] / 0x40 % 2 == 0 || b[i + 14] != 1 {
        return false;
    }
    let flags: u8 = b[i + 15];
    if flags / 0x10 % 2 == 0 {
        return false;
    }
    let update: usize = (flags / 0x40 % 2) as usize;
    let sum: usize = 6 * (flags / 0x20 % 2) as usize;
    let offset: usize = 16 + update + sum;
    if b.len() - i < offset + 2 || measure_tag(b, i) < offset + 2 {
        return false;
    }
    let at: usize = i + offset;
    (update == 0 || b[i + 16] == 1) && (sum == 0 || b[at - 6] == 5) && b[at] == 1 && b[at + 1]
        / 0x40 % 2 == 1
}

/// A tag is never shorter than its header nor longer than its four bytes of
/// length can say, and their highest bits say nothing.
pub proof fn tag_length_takes_seven_bits_of_a_byte(b: Seq<u8>, c: Seq<u8>, i: int)
    requires
        forall|j: int| 6 <= j < 10 ==> b[#[trigger] (i + j)] % 128 == c[i + j] % 128,
    ensures
        10 <= tag_end(b, i) - i < 10 + 0x1000_0000,
        tag_end(b, i) == tag_end(c, i),
{
    assert(b[i + 6] % 128 == c[i + 6] % 128);
    assert(b[i + 7] % 128 == c[i + 7] % 128);
    assert(b[i + 8] % 128 == c[i + 8] % 128);
    assert(b[i + 9] % 128 == c[i + 9] % 128);
}

/// A tag with one more in the last byte of its length ends one byte later, and
/// each byte before it counts 128 times as much.
pub proof fn tag_length_counts_its_bytes(b: Seq<u8>, i: int, j: int)
    requires
        0 <= i,
        i + 10 <= b.len(),
        6 <= j < 10,
        b[i + j] < 127,
    ensures
        ({
            let longer = b.update(i + j, (b[i + j] + 1) as u8);
            let step: int = if j == 9 {
                1
            } else if j == 8 {
                128
            } else if j == 7 {
                16384
            } else {
                2097152
            };
            tag_end(longer, i) == tag_end(b, i) + step
        }),
{
}

/// Only a tag of the fourth version that has an extended header with a
/// restriction in it restricts text, and it does so within its own bytes.
pub proof fn only_an_extended_header_restricts_text(b: Seq<u8>, i: int)
    requires
        restricts_text(b, i),
    ensures
        b[i + 3] == 4,
        b[i + 5] / 64 % 2 == 1,
        b[i + 15] / 16 % 2 == 1,
        exists|at: int|
            i + 16 <= at && at + 2 <= b.len() && at + 2 <= tag_end(b, i) && at <= i + 23
                && #[trigger] b[at] == 1 && b[at + 1] / 64 % 2 == 1,
{
    assert(b[restrictions_place(b, i)] == 1);
}

/// A tag is told by its first three letters.
pub proof fn tag_is_told_by_its_letters(b: Seq<u8>, i: int)
    ensures
        starts_tag(b, i) <==> b[i] == 'I' as u8 && b[i + 1] == 'D' as u8 && b[i + 2] == '3' as u8,
{
}

/// The extended header of the fourth version is a length of four bytes, a one,
/// and flags; what they announce follows in the order of the flags: an update,
/// which has no content, a checksum of five bytes, and the restrictions of one
/// byte, each with its length in front. With `update` and `sum` of the first two
/// present, text is restricted exactly when the second highest bit of the
/// restrictions is set.
pub proof fn restrictions_come_after_what_precedes_them(
    b: Seq<u8>,
    i: int,
    update: bool,
    sum: bool,
)
    requires
        b[i + 3] == 4,
        b[i + 4] != 255,
        64 <= b[i + 5] % 128,
        b[i + 14] == 1,
        update <==> 64 <= b[i + 15] % 128,
        sum <==> 32 <= b[i + 15] % 64,
        16 <= b[i + 15] % 32,
        update ==> b[i + 16] == 1,
    ensures
        ({
            let sum_at = if update {
                i + 17
            } else {
                i + 16
            };
            let at = if sum {
                sum_at + 6
            } else {
                sum_at
            };
            (sum ==> b[sum_at] == 5) && at + 2 <= b.len() && at + 2 <= tag_end(b, i) && b[at] == 1
                ==> (restricts_text(b, i) <==> 64 <= b[at + 1] % 128)
        }),
{
}

/// A tag without any one of these does not restrict text: the fourth version, a
/// valid revision, an extended header with one byte of flags, and among them that
/// of the restrictions.
pub proof fn other_tags_do_not_restrict_text(b: Seq<u8>, i: int)
    requires
        b[i + 3] != 4 || b[i + 4] == 255 || b[i + 5] % 128 < 64 || b[i + 14] != 1 || b[i + 15] % 32
            < 16 || (64 <= b[i + 15] % 128 && b[i + 16] != 1),
    ensures
        !restricts_text(b, i),
{
}

} // verus!
