//! MPEG audio frames, as far as it takes to tell where the first one with audio
//! in it is: their headers, their lengths, and the tags that some frames hold in
//! place of audio.

use vstd::prelude::*;

verus! {

/// How many bytes a frame header takes.
pub const HEADER_LEN: usize = 4;

/// The version field: three is MPEG-1, two is MPEG-2 and zero is MPEG-2.5.
pub open spec fn version(b: Seq<u8>, i: int) -> u8 {
    b[i + 1] / 8 % 4
}

/// The layer field: three is layer I, two is layer II and one is layer III.
pub open spec fn layer(b: Seq<u8>, i: int) -> u8 {
    b[i + 1] / 2 % 4
}

/// The number of the bit rate in its table.
pub open spec fn bit_rate_index(b: Seq<u8>, i: int) -> u8 {
    b[i + 2] / 16
}

/// The number of the sample rate.
pub open spec fn sample_rate_index(b: Seq<u8>, i: int) -> u8 {
    b[i + 2] / 4 % 4
}

/// Whether a frame has one channel; if not, it has two.
pub open spec fn is_mono(b: Seq<u8>, i: int) -> bool {
    b[i + 3] / 64 == 3
}

/// Whether a frame header may start at `i`: the sync word, and no value that a
/// field never has.
pub open spec fn syncs(b: Seq<u8>, i: int) -> bool {
    &&& 0 <= i
    &&& i + HEADER_LEN <= b.len()
    &&& b[i] == 0xff
    &&& b[i + 1] >= 0xe0
    &&& version(b, i) != 1
    &&& layer(b, i) != 0
    &&& bit_rate_index(b, i) != 15
    &&& sample_rate_index(b, i) != 3
}

/// The bit rates of a version and a layer, in kilobits per second. The first
/// one stands for a free bit rate.
pub open spec fn bit_rates(version: u8, layer: u8) -> Seq<u32> {
    if version == 3 && layer == 3 {
        seq![0, 32, 64, 96, 128, 160, 192, 224, 256, 288, 320, 352, 384, 416, 448]
    } else if version == 3 && layer == 2 {
        seq![0, 32, 48, 56, 64, 80, 96, 112, 128, 160, 192, 224, 256, 320, 384]
    } else if version == 3 {
        seq![0, 32, 40, 48, 56, 64, 80, 96, 112, 128, 160, 192, 224, 256, 320]
    } else if layer == 3 {
        seq![0, 32, 48, 56, 64, 80, 96, 112, 128, 144, 160, 176, 192, 224, 256]
    } else {
        seq![0, 8, 16, 24, 32, 40, 48, 56, 64, 80, 96, 112, 128, 144, 160]
    }
}

/// The bit rate of a frame, in kilobits per second.
pub open spec fn bit_rate(b: Seq<u8>, i: int) -> u32 {
    bit_rates(version(b, i), layer(b, i))[bit_rate_index(b, i) as int]
}

/// The sample rate of a frame, in hertz.
pub open spec fn sample_rate(b: Seq<u8>, i: int) -> u32 {
    let index = sample_rate_index(b, i);
    let full: u32 = if index == 0 {
        44100
    } else if index == 1 {
        48000
    } else {
        32000
    };
    if version(b, i) == 3 {
        full
    } else if version(b, i) == 2 {
        full / 2
    } else {
        full / 4
    }
}

/// Whether the header at `i` is one of a frame whose length is known: no free
/// bit rate, and in layer II none that does not go with the channels.
pub open spec fn is_header(b: Seq<u8>, i: int) -> bool {
    &&& syncs(b, i)
    &&& bit_rate_index(b, i) != 0
    &&& layer(b, i) == 2 ==> {
        let kbps = bit_rate(b, i);
        if is_mono(b, i) {
            kbps != 224 && kbps != 256 && kbps != 320 && kbps != 384
        } else {
            kbps != 32 && kbps != 48 && kbps != 56 && kbps != 80
        }
    }
}

/// The length of the frame at `i`, its header included, in bytes. Layer I counts
/// in slots of four bytes.
pub open spec fn frame_len(b: Seq<u8>, i: int) -> nat {
    let bits = bit_rate(b, i) as nat * 1000;
    let rate = sample_rate(b, i) as nat;
    let padding = (b[i + 2] / 2 % 2) as nat;
    if layer(b, i) == 3 {
        (12 * bits / rate + padding) * 4
    } else if layer(b, i) == 2 || version(b, i) == 3 {
        144 * bits / rate + padding
    } else {
        72 * bits / rate + padding
    }
}

/// Whether there is a header at `j` of a frame that can follow the one at `i` in
/// a stream.
pub open spec fn goes_with(b: Seq<u8>, i: int, j: int) -> bool {
    &&& is_header(b, j)
    &&& version(b, j) == version(b, i)
    &&& layer(b, j) == layer(b, i)
    &&& sample_rate_index(b, j) == sample_rate_index(b, i)
    &&& is_mono(b, j) == is_mono(b, i)
}

/// A frame is longer than its header, and not longer than a few thousand bytes.
pub proof fn frame_len_is_bounded(b: Seq<u8>, i: int)
    requires
        is_header(b, i),
    ensures
        HEADER_LEN < frame_len(b, i) <= 4000,
{
    let kbps = bit_rate(b, i) as nat;
    let rate = sample_rate(b, i) as nat;
    let v = version(b, i);
    let l = layer(b, i);
    let factor: nat = if l == 3 {
        12
    } else if l == 2 || v == 3 {
        144
    } else {
        72
    };
    let bits = kbps * 1000;
    assert(l == 3 ==> 2 <= factor * bits / rate < 1000) by (nonlinear_arith)
        requires
            rate > 0,
            l == 3 ==> factor * bits >= 2 * rate && factor * bits < 1000 * rate,
    ;
    assert(l != 3 ==> 8 <= factor * bits / rate < 3000) by (nonlinear_arith)
        requires
            rate > 0,
            l != 3 ==> factor * bits >= 8 * rate && factor * bits < 3000 * rate,
    ;
}

/// Where the next header from `p` on is, when the stream is searched for one
/// byte by byte; what turns out to be no header is skipped as a whole.
pub open spec fn next_header(b: Seq<u8>, p: int) -> Option<int>
    decreases b.len() - p,
{
    if p < 0 || p + HEADER_LEN > b.len() {
        None
    } else if is_header(b, p) {
        Some(p)
    } else if syncs(b, p) {
        next_header(b, p + HEADER_LEN)
    } else {
        next_header(b, p + 1)
    }
}

/// The next header is not before the place where the search starts, and the
/// frame that it belongs to has a length.
pub proof fn next_header_is_ahead(b: Seq<u8>, p: int)
    ensures
        next_header(b, p) matches Some(q) ==> p <= q && is_header(b, q) && HEADER_LEN < frame_len(
            b,
            q,
        ) <= 4000,
    decreases b.len() - p,
{
    if p < 0 || p + HEADER_LEN > b.len() {
    } else if is_header(b, p) {
        frame_len_is_bounded(b, p);
    } else if syncs(b, p) {
        next_header_is_ahead(b, p + HEADER_LEN);
    } else {
        next_header_is_ahead(b, p + 1);
    }
}

/// Where the first frame from `p` on is: the first whole frame that is followed
/// by one that goes with it, or by the end.
pub open spec fn first_frame(b: Seq<u8>, p: int) -> Option<int>
    decreases b.len() - p,
{
    match next_header(b, p) {
        None => None,
        Some(q) => {
            proof {
                next_header_is_ahead(b, p);
            }
            let end = q + frame_len(b, q);
            if end > b.len() {
                None
            } else if end + HEADER_LEN <= b.len() && !goes_with(b, q, end) {
                first_frame(b, q + 1)
            } else {
                Some(q)
            }
        },
    }
}

/// Whether a frame is protected by a checksum.
pub open spec fn is_protected(b: Seq<u8>, i: int) -> bool {
    b[i + 1] % 2 == 0
}

/// How many samples of each channel a layer III frame has.
pub open spec fn duration(b: Seq<u8>, i: int) -> nat {
    if version(b, i) == 3 {
        1152
    } else {
        576
    }
}

/// Where, after the side information of a layer III frame, a tag of the Xing
/// kind stands.
pub open spec fn xing_place(b: Seq<u8>, i: int) -> int {
    i + HEADER_LEN + if version(b, i) == 3 {
        if is_mono(b, i) {
            17int
        } else {
            32
        }
    } else {
        if is_mono(b, i) {
            9
        } else {
            17
        }
    }
}

/// Whether the bytes from `from` to `to` are zero.
pub open spec fn is_silent(b: Seq<u8>, from: int, to: int) -> bool {
    forall|j: int| from <= j < to ==> b[j] == 0
}

/// Whether four given bytes stand at `i`.
pub open spec fn reads(b: Seq<u8>, i: int, w: u8, x: u8, y: u8, z: u8) -> bool {
    b[i] == w && b[i + 1] == x && b[i + 2] == y && b[i + 3] == z
}

/// How many bytes the optional fields of a Xing tag with these flags take: the
/// frame count, the byte count, the table of contents and the quality.
pub open spec fn xing_fields(flags: u8) -> int {
    4 * (flags % 2) + 4 * (flags / 2 % 2) + 100 * (flags / 4 % 2) + 4 * (flags / 8 % 2)
}

/// Where the optional fields of a Xing tag end.
pub open spec fn xing_end(b: Seq<u8>, i: int) -> int {
    xing_place(b, i) + 8 + xing_fields(b[xing_place(b, i) + 7])
}

/// Whether the frame at `i` holds a tag by the name of "Xing" or "Info" in place
/// of audio.
pub open spec fn is_xing(b: Seq<u8>, i: int) -> bool {
    let at = xing_place(b, i);
    &&& layer(b, i) == 1
    &&& at + 8 <= i + frame_len(b, i)
    &&& reads(b, at, 0x58, 0x69, 0x6e, 0x67) || reads(b, at, 0x49, 0x6e, 0x66, 0x6f)
    &&& is_silent(b, i + HEADER_LEN, at)
    &&& xing_end(b, i) <= i + frame_len(b, i)
}

/// Whether the frame at `i` holds a VBRI tag, of its first version, in place of
/// audio.
pub open spec fn is_vbri(b: Seq<u8>, i: int) -> bool {
    &&& layer(b, i) == 1
    &&& 62 <= frame_len(b, i)
    &&& reads(b, i + 36, 0x56, 0x42, 0x52, 0x49)
    &&& is_silent(b, i + HEADER_LEN, i + 36)
    &&& b[i + 40] == 0
    &&& b[i + 41] == 1
}

/// Whether the frame at `i` holds a tag in place of audio.
pub open spec fn is_tag(b: Seq<u8>, i: int) -> bool {
    is_xing(b, i) || is_vbri(b, i)
}

/// Whether a whole frame with audio comes from `p` on, after any number of tags.
pub open spec fn audio_follows(b: Seq<u8>, p: int) -> bool
    decreases b.len() - p,
{
    match next_header(b, p) {
        None => false,
        Some(q) => {
            proof {
                next_header_is_ahead(b, p);
            }
            let end = q + frame_len(b, q);
            &&& end <= b.len()
            &&& is_tag(b, q) ==> audio_follows(b, end)
        },
    }
}

/// One step of the checksum of a tag, CRC-16 with its bits in reverse order.
pub open spec fn crc_shift(crc: u16) -> u16 {
    if crc % 2 == 1 {
        (crc / 2) ^ 0xa001
    } else {
        crc / 2
    }
}

/// The checksum after `n` steps.
pub open spec fn crc_shifts(crc: u16, n: nat) -> u16
    decreases n,
{
    if n == 0 {
        crc
    } else {
        crc_shift(crc_shifts(crc, (n - 1) as nat))
    }
}

/// The checksum of a tag.
pub open spec fn checksum(bytes: Seq<u8>) -> u16
    decreases bytes.len(),
{
    if bytes.len() == 0 {
        0
    } else {
        crc_shifts(checksum(bytes.drop_last()) ^ bytes.last() as u16, 8)
    }
}

/// The number in the four bytes at `i`, most significant first.
pub open spec fn number_at(b: Seq<u8>, i: int) -> nat {
    (b[i] * 0x100_0000 + b[i + 1] * 0x1_0000 + b[i + 2] * 0x100 + b[i + 3]) as nat
}

/// Whether the frame at `i`, which holds a Xing tag, also names the samples that
/// the encoder put before and after the audio. The encoders that do so are LAME
/// and those of FFmpeg; where there is a checksum, it has to be right.
pub open spec fn names_gaps(b: Seq<u8>, i: int) -> bool {
    let at = xing_end(b, i);
    let end = i + frame_len(b, i);
    let lame = reads(b, at, 0x4c, 0x41, 0x4d, 0x45);
    &&& at + 24 <= end
    &&& lame || reads(b, at, 0x4c, 0x61, 0x76, 0x66) || reads(b, at, 0x4c, 0x61, 0x76, 0x63)
    &&& at + 36 <= end && (lame || is_protected(b, i)) ==> checksum(b.subrange(i, at + 34))
        == b[at + 34] * 0x100 + b[at + 35]
}

/// How many samples before and after the audio the tag in the frame at `i`
/// names. The decoder's own delay of 529 samples is added to those before, and
/// taken from those after.
pub open spec fn gaps(b: Seq<u8>, i: int) -> nat {
    let at = xing_end(b, i) + 21;
    if names_gaps(b, i) {
        let before = b[at] * 0x10 + b[at + 1] / 16;
        let after = b[at + 1] % 16 * 0x100 + b[at + 2];
        (529 + before + if after > 529 {
            after - 529
        } else {
            0
        }) as nat
    } else {
        0
    }
}

/// Whether the tag in the frame at `i` gives no frame count, or one of frames
/// with at least as many samples as it names before and after the audio.
pub open spec fn count_covers_gaps(b: Seq<u8>, i: int) -> bool {
    let at = xing_place(b, i);
    is_xing(b, i) && b[at + 7] % 2 == 1 ==> number_at(b, at + 8) * duration(b, i) >= gaps(b, i)
}

/// Whether the audio in a stream that is entered at `p` can be reached: its first
/// frame, where there is one and it holds a tag, counts the frames rightly and has
/// a frame with audio after it.
pub open spec fn can_be_entered(b: Seq<u8>, p: int) -> bool {
    first_frame(b, p) matches Some(f) ==> is_tag(b, f) ==> {
        &&& count_covers_gaps(b, f)
        &&& audio_follows(b, f + frame_len(b, f))
    }
}

/// One of the bit rates of a version and a layer.
fn pick_bit_rate(version: u8, layer: u8, index: u8) -> (kbps: u32)
    requires
        index < 15,
    ensures
        kbps == bit_rates(version, layer)[index as int],
{
    let rates: [u32; 15] = if version == 3 && layer == 3 {
        [0, 32, 64, 96, 128, 160, 192, 224, 256, 288, 320, 352, 384, 416, 448]
    } else if version == 3 && layer == 2 {
        [0, 32, 48, 56, 64, 80, 96, 112, 128, 160, 192, 224, 256, 320, 384]
    } else if version == 3 {
        [0, 32, 40, 48, 56, 64, 80, 96, 112, 128, 160, 192, 224, 256, 320]
    } else if layer == 3 {
        [0, 32, 48, 56, 64, 80, 96, 112, 128, 144, 160, 176, 192, 224, 256]
    } else {
        [0, 8, 16, 24, 32, 40, 48, 56, 64, 80, 96, 112, 128, 144, 160]
    };
    assert(rates@ =~= bit_rates(version, layer));
    rates[index as usize]
}

/// Whether a frame header may start at `i`.
fn does_sync(b: &Vec<u8>, i: usize) -> (yes: bool)
    requires
        i + HEADER_LEN <= b.len(),
    ensures
        yes == syncs(b@, i as int),
{
    b[i] == 0xff && b[i + 1] >= 0xe0 && b[i + 1] / 8 % 4 != 1 && b[i + 1] / 2 % 4 != 0 && b[i + 2]
        / 16 != 15 && b[i + 2] / 4 % 4 != 3
}

/// Whether there is a header at `i`.
fn has_header(b: &Vec<u8>, i: usize) -> (yes: bool)
    requires
        i + HEADER_LEN <= b.len(),
    ensures
        yes == is_header(b@, i as int),
{
    if !does_sync(b, i) || b[i + 2] / 16 == 0 {
        return false;
    }
    if b[i + 1] / 2 % 4 != 2 {
        return true;
    }
    let kbps: u32 = pick_bit_rate(b[i + 1] / 8 % 4, 2, b[i + 2] / 16);
    if b[i + 3] / 64 == 3 {
        kbps != 224 && kbps != 256 && kbps != 320 && kbps != 384
    } else {
        kbps != 32 && kbps != 48 && kbps != 56 && kbps != 80
    }
}

/// The length of the frame at `i`.
fn measure_frame(b: &Vec<u8>, i: usize) -> (len: usize)
    requires
        i + HEADER_LEN <= b.len(),
        is_header(b@, i as int),
    ensures
        len == frame_len(b@, i as int),
        HEADER_LEN < len <= 4000,
{
    proof {
        frame_len_is_bounded(b@, i as int);
    }
    let v: u8 = b[i + 1] / 8 % 4;
    let l: u8 = b[i + 1] / 2 % 4;
    let bits: u32 = pick_bit_rate(v, l, b[i + 2] / 16) * 1000;
    let index: u8 = b[i + 2] / 4 % 4;
    let full: u32 = if index == 0 {
        44100
    } else if index == 1 {
        48000
    } else {
        32000
    };
    let rate: u32 = if v == 3 {
        full
    } else if v == 2 {
        full / 2
    } else {
        full / 4
    };
    let padding: u32 = (b[i + 2] / 2 % 2) as u32;
    let len: u32 = if l == 3 {
        (12 * bits / rate + padding) * 4
    } else if l == 2 || v == 3 {
        144 * bits / rate + padding
    } else {
        72 * bits / rate + padding
    };
    len as usize
}

/// Whether there is a header at `j` of a frame that can follow the one at `i`.
fn does_go_with(b: &Vec<u8>, i: usize, j: usize) -> (yes: bool)
    requires
        i + HEADER_LEN <= b.len(),
        j + HEADER_LEN <= b.len(),
    ensures
        yes == goes_with(b@, i as int, j as int),
{
    has_header(b, j) && b[j + 1] / 8 % 4 == b[i + 1] / 8 % 4 && b[j + 1] / 2 % 4 == b[i + 1] / 2 % 4
        && b[j + 2] / 4 % 4 == b[i + 2] / 4 % 4 && (b[j + 3] / 64 == 3) == (b[i + 3] / 64 == 3)
}

/// Where the next header from `p` on is.
fn find_header(b: &Vec<u8>, p: usize) -> (found: Option<usize>)
    requires
        p <= b.len(),
    ensures
        match found {
            Some(q) => next_header(b@, p as int) == Some(q as int) && p <= q && is_header(
                b@,
                q as int,
            ),
            None => next_header(b@, p as int) is None,
        },
{
    let mut i: usize = p;
    while b.len() - i >= HEADER_LEN
        invariant
            p <= i <= b.len(),
            next_header(b@, p as int) == next_header(b@, i as int),
        decreases b@.len() - i,
    {
        if has_header(b, i) {
            return Some(i);
        }
        i = if does_sync(b, i) {
            i + HEADER_LEN
        } else {
            i + 1
        };
    }
    None
}

/// Where the first frame from `p` on is.
fn find_first_frame(b: &Vec<u8>, p: usize) -> (found: Option<usize>)
    requires
        p <= b.len(),
    ensures
        match found {
            Some(f) => first_frame(b@, p as int) == Some(f as int) && is_header(b@, f as int) && f
                + frame_len(b@, f as int) <= b.len(),
            None => first_frame(b@, p as int) is None,
        },
{
    let mut i: usize = p;
    loop
        invariant
            p <= i <= b.len(),
            first_frame(b@, p as int) == first_frame(b@, i as int),
        decreases b@.len() - i,
    {
        match find_header(b, i) {
            None => {
                return None;
            },
            Some(q) => {
                let len: usize = measure_frame(b, q);
                if b.len() - q < len {
                    return None;
                }
                let end: usize = q + len;
                if b.len() - end < HEADER_LEN || does_go_with(b, q, end) {
                    return Some(q);
                }
                i = q + 1;
            },
        }
    }
}

/// Whether the bytes from `from` to `to` are zero.
fn are_silent(b: &Vec<u8>, from: usize, to: usize) -> (yes: bool)
    requires
        from <= to <= b.len(),
    ensures
        yes == is_silent(b@, from as int, to as int),
{
    let mut j: usize = from;
    while j < to
        invariant
            from <= j <= to <= b.len(),
            is_silent(b@, from as int, j as int),
        decreases to - j,
    {
        if b[j] != 0 {
            return false;
        }
        j = j + 1;
    }
    true
}

/// Whether four given bytes stand at `i`.
fn do_read(b: &Vec<u8>, i: usize, w: u8, x: u8, y: u8, z: u8) -> (yes: bool)
    requires
        i + 4 <= b.len(),
    ensures
        yes == reads(b@, i as int, w, x, y, z),
{
    b[i] == w && b[i + 1] == x && b[i + 2] == y && b[i + 3] == z
}

/// How far into the layer III frame at `i` a tag of the Xing kind stands.
fn offset_xing(b: &Vec<u8>, i: usize) -> (offset: usize)
    requires
        i + HEADER_LEN <= b.len(),
    ensures
        i + offset == xing_place(b@, i as int),
        offset <= 36,
{
    let mono = b[i + 3] / 64 == 3;
    let side: usize = if b[i + 1] / 8 % 4 == 3 {
        if mono {
            17
        } else {
            32
        }
    } else if mono {
        9
    } else {
        17
    };
    HEADER_LEN + side
}

/// How many bytes the optional fields of a Xing tag take.
fn measure_fields(flags: u8) -> (len: usize)
    ensures
        len == xing_fields(flags),
        len <= 112,
{
    4 * (flags % 2) as usize + 4 * (flags / 2 % 2) as usize + 100 * (flags / 4 % 2) as usize + 4 * (
    flags / 8 % 2) as usize
}

/// Whether the whole frame at `i`, of `len` bytes, holds a tag by the name of
/// "Xing" or "Info".
fn has_xing(b: &Vec<u8>, i: usize, len: usize) -> (yes: bool)
    requires
        HEADER_LEN < len == frame_len(b@, i as int),
        i + len <= b.len(),
    ensures
        yes == is_xing(b@, i as int),
{
    let offset: usize = offset_xing(b, i);
    if b[i + 1] / 2 % 4 != 1 || len < offset + 8 {
        return false;
    }
    let at: usize = i + offset;
    (do_read(b, at, 0x58, 0x69, 0x6e, 0x67) || do_read(b, at, 0x49, 0x6e, 0x66, 0x6f))
        && are_silent(b, i + HEADER_LEN, at) && offset + 8 + measure_fields(b[at + 7]) <= len
}

/// Whether the whole frame at `i`, of `len` bytes, holds a VBRI tag.
fn has_vbri(b: &Vec<u8>, i: usize, len: usize) -> (yes: bool)
    requires
        HEADER_LEN < len == frame_len(b@, i as int),
        i + len <= b.len(),
    ensures
        yes == is_vbri(b@, i as int),
{
    b[i + 1] / 2 % 4 == 1 && len >= 62 && do_read(b, i + 36, 0x56, 0x42, 0x52, 0x49) && are_silent(
        b,
        i + HEADER_LEN,
        i + 36,
    ) && b[i + 40] == 0 && b[i + 41] == 1
}

/// Whether a whole frame with audio comes from `p` on, after any number of tags.
fn does_audio_follow(b: &Vec<u8>, p: usize) -> (yes: bool)
    requires
        p <= b.len(),
    ensures
        yes == audio_follows(b@, p as int),
{
    let mut i: usize = p;
    loop
        invariant
            p <= i <= b.len(),
            audio_follows(b@, p as int) == audio_follows(b@, i as int),
        decreases b@.len() - i,
    {
        match find_header(b, i) {
            None => {
                return false;
            },
            Some(q) => {
                let len: usize = measure_frame(b, q);
                if b.len() - q < len {
                    return false;
                }
                if !has_xing(b, q, len) && !has_vbri(b, q, len) {
                    return true;
                }
                i = q + len;
            },
        }
    }
}

/// The checksum after one more byte.
fn add_to_checksum(crc: u16, byte: u8) -> (next: u16)
    ensures
        next == crc_shifts(crc ^ byte as u16, 8),
{
    let start: u16 = crc ^ byte as u16;
    let mut next: u16 = start;
    let mut n: u8 = 0;
    while n < 8
        invariant
            n <= 8,
            next == crc_shifts(start, n as nat),
        decreases 8 - n,
    {
        next = if next % 2 == 1 {
            (next / 2) ^ 0xa001
        } else {
            next / 2
        };
        n = n + 1;
    }
    next
}

/// The checksum of the bytes from `from` to `to`.
fn sum_up(b: &Vec<u8>, from: usize, to: usize) -> (crc: u16)
    requires
        from <= to <= b.len(),
    ensures
        crc == checksum(b@.subrange(from as int, to as int)),
{
    let mut crc: u16 = 0;
    let mut j: usize = from;
    while j < to
        invariant
            from <= j <= to <= b.len(),
            crc == checksum(b@.subrange(from as int, j as int)),
        decreases to - j,
    {
        let ghost next = b@.subrange(from as int, j + 1);
        assert(next.drop_last() =~= b@.subrange(from as int, j as int));
        crc = add_to_checksum(crc, b[j]);
        j = j + 1;
    }
    crc
}

/// How many samples before and after the audio the Xing tag in the whole frame
/// at `i`, of `len` bytes, names.
fn count_gaps(b: &Vec<u8>, i: usize, len: usize) -> (samples: u64)
    requires
        HEADER_LEN < len == frame_len(b@, i as int),
        i + len <= b.len(),
        is_xing(b@, i as int),
    ensures
        samples == gaps(b@, i as int),
{
    let offset: usize = offset_xing(b, i);
    let used: usize = offset + 8 + measure_fields(b[i + offset + 7]);
    if len - used < 24 {
        return 0;
    }
    let at: usize = i + used;
    let lame = do_read(b, at, 0x4c, 0x41, 0x4d, 0x45);
    if !lame && !do_read(b, at, 0x4c, 0x61, 0x76, 0x66) && !do_read(b, at, 0x4c, 0x61, 0x76, 0x63) {
        return 0;
    }
    if len - used >= 36 && (lame || b[i + 1] % 2 == 0) {
        let given: u16 = b[at + 34] as u16 * 0x100 + b[at + 35] as u16;
        if sum_up(b, i, at + 34) != given {
            return 0;
        }
    }
    let before: u64 = b[at + 21] as u64 * 0x10 + (b[at + 22] / 16) as u64;
    let after: u64 = (b[at + 22] % 16) as u64 * 0x100 + b[at + 23] as u64;
    529 + before + if after > 529 {
        after - 529
    } else {
        0
    }
}

/// Whether the frame count in the Xing tag of the whole frame at `i`, of `len`
/// bytes, is missing or covers the samples that the tag names.
fn does_count_cover_gaps(b: &Vec<u8>, i: usize, len: usize) -> (yes: bool)
    requires
        HEADER_LEN < len == frame_len(b@, i as int),
        i + len <= b.len(),
        is_xing(b@, i as int),
    ensures
        yes == count_covers_gaps(b@, i as int),
{
    let at: usize = i + offset_xing(b, i);
    if b[at + 7] % 2 == 0 {
        return true;
    }
    let count: u64 = b[at + 8] as u64 * 0x100_0000 + b[at + 9] as u64 * 0x1_0000 + b[at + 10] as u64
        * 0x100 + b[at + 11] as u64;
    let samples: u64 = if b[i + 1] / 8 % 4 == 3 {
        count * 1152
    } else {
        count * 576
    };
    samples >= count_gaps(b, i, len)
}

/// Whether the audio in a stream that is entered at `p` can be reached.
pub fn can_enter(b: &Vec<u8>, p: usize) -> (yes: bool)
    requires
        p <= b.len(),
    ensures
        yes == can_be_entered(b@, p as int),
{
    match find_first_frame(b, p) {
        None => true,
        Some(f) => {
            let len: usize = measure_frame(b, f);
            if has_xing(b, f, len) {
                does_count_cover_gaps(b, f, len) && does_audio_follow(b, f + len)
            } else {
                !has_vbri(b, f, len) || does_audio_follow(b, f + len)
            }
        },
    }
}

/// A frame has the bytes that its bit rate takes for as long as its samples last,
/// rounded down to whole slots, which are bytes except in layer I, and a slot
/// more where it is padded. In layer I it has 384 samples, in layer II 1152, and
/// in layer III 1152 in MPEG-1 and 576 otherwise.
pub proof fn frame_takes_what_its_samples_last(b: Seq<u8>, i: int)
    requires
        is_header(b, i),
    ensures
        ({
            let samples: int = if layer(b, i) == 3 {
                384
            } else if layer(b, i) == 2 || version(b, i) == 3 {
                1152
            } else {
                576
            };
            let slot: int = if layer(b, i) == 3 {
                4
            } else {
                1
            };
            let padding = (b[i + 2] / 2 % 2) as int;
            let bytes = frame_len(b, i) - slot * padding;
            let rate = sample_rate(b, i) as int;
            let bits = samples * bit_rate(b, i) * 1000;
            &&& bytes % slot == 0
            &&& 8 * rate * bytes <= bits < 8 * rate * (bytes + slot)
        }),
{
    let l = layer(b, i);
    let v = version(b, i);
    let rate = sample_rate(b, i) as int;
    let kbps = bit_rate(b, i) as int;
    let factor: int = if l == 3 {
        12
    } else if l == 2 || v == 3 {
        144
    } else {
        72
    };
    let product = factor * (kbps * 1000);
    let slots = product / rate;
    vstd::arithmetic::div_mod::lemma_fundamental_div_mod(product, rate);
    vstd::arithmetic::div_mod::lemma_mod_bound(product, rate);
    assert(rate * slots <= product < rate * (slots + 1)) by (nonlinear_arith)
        requires
            product == rate * slots + product % rate,
            0 <= product % rate < rate,
    ;
    if l == 3 {
        assert(8 * rate * (4 * slots) == 32 * (rate * slots)) by (nonlinear_arith);
        assert(8 * rate * (4 * slots + 4) == 32 * (rate * (slots + 1))) by (nonlinear_arith);
    } else {
        assert(8 * rate * slots == 8 * (rate * slots)) by (nonlinear_arith);
        assert(8 * rate * (slots + 1) == 8 * (rate * (slots + 1))) by (nonlinear_arith);
    }
}

/// In every version and layer a larger number stands for a higher bit rate.
pub proof fn bit_rates_rise(version: u8, layer: u8, i: int, j: int)
    requires
        0 <= i < j < 15,
    ensures
        bit_rates(version, layer).len() == 15,
        bit_rates(version, layer)[i] < bit_rates(version, layer)[j],
{
}

/// The first frame is a whole frame at or after the place where the search
/// starts, and what comes after it goes with it, unless the end does.
pub proof fn first_frame_is_whole(b: Seq<u8>, p: int)
    ensures
        first_frame(b, p) matches Some(f) ==> {
            let end = f + frame_len(b, f);
            &&& p <= f
            &&& is_header(b, f)
            &&& end <= b.len()
            &&& end + 4 > b.len() || goes_with(b, f, end)
        },
    decreases b.len() - p,
{
    next_header_is_ahead(b, p);
    if let Some(q) = next_header(b, p) {
        let end = q + frame_len(b, q);
        if end <= b.len() && end + HEADER_LEN <= b.len() && !goes_with(b, q, end) {
            first_frame_is_whole(b, q + 1);
        }
    }
}

/// A whole frame right where the search starts, with one that goes with it or
/// the end after it, is the first one.
pub proof fn frame_at_hand_is_the_first(b: Seq<u8>, p: int)
    requires
        is_header(b, p),
        p + frame_len(b, p) <= b.len(),
        p + frame_len(b, p) + 4 > b.len() || goes_with(b, p, p + frame_len(b, p)),
    ensures
        first_frame(b, p) == Some(p),
{
}

/// The search for a header finds the next one. One that it passes over starts
/// within something that only looked like a header.
pub proof fn search_passes_over_no_header(b: Seq<u8>, p: int, j: int)
    requires
        0 <= p <= j,
        is_header(b, j),
        forall|k: int| p <= k < j && j < k + 4 && #[trigger] syncs(b, k) ==> is_header(b, k),
    ensures
        next_header(b, p) matches Some(q) && p <= q <= j,
    decreases j - p,
{
    if is_header(b, p) {
    } else if syncs(b, p) {
        search_passes_over_no_header(b, p + HEADER_LEN, j);
    } else {
        search_passes_over_no_header(b, p + 1, j);
    }
}

/// Audio follows where there is a whole frame that is no tag; a tag is passed
/// over; and where the frame is not whole, or there is none, no audio follows.
pub proof fn audio_follows_after_tags(b: Seq<u8>, p: int)
    ensures
        is_header(b, p) && p + frame_len(b, p) > b.len() ==> !audio_follows(b, p),
        is_header(b, p) && p + frame_len(b, p) <= b.len() ==> audio_follows(b, p) == (!is_tag(b, p)
            || audio_follows(b, p + frame_len(b, p))),
        p + 4 > b.len() ==> !audio_follows(b, p),
{
    if is_header(b, p) {
        frame_len_is_bounded(b, p);
    }
}

/// A frame that uses its side information holds audio: none whose first nine
/// bytes after the header are not all zero is taken for a tag, and none of
/// layer I or II is.
pub proof fn frame_with_side_information_is_audio(b: Seq<u8>, i: int, j: int)
    requires
        4 <= j < 13,
        b[i + j] != 0 || layer(b, i) != 1,
    ensures
        !is_tag(b, i),
{
}

/// A stream whose first frame holds audio can be entered, and so can one in which
/// there is no frame at all.
pub proof fn audio_at_the_start_can_be_entered(b: Seq<u8>, p: int)
    requires
        first_frame(b, p) matches Some(f) ==> !is_tag(b, f),
    ensures
        can_be_entered(b, p),
{
}

/// A stream whose first frame holds a tag can be entered only if audio follows,
/// and a tag that gives no frame count needs nothing else.
pub proof fn tag_at_the_start_needs_audio(b: Seq<u8>, p: int)
    requires
        first_frame(b, p) matches Some(f) && is_tag(b, f),
    ensures
        ({
            let f = first_frame(b, p)->0;
            let audio = audio_follows(b, f + frame_len(b, f));
            &&& can_be_entered(b, p) ==> audio
            &&& audio && (!is_xing(b, f) || b[xing_place(b, f) + 7] % 2 == 0) ==> can_be_entered(
                b,
                p,
            )
        }),
{
}

/// What an encoder can have added to the audio is bounded, so that a tag which
/// counts at least fifteen frames always covers it.
pub proof fn enough_frames_cover_every_gap(b: Seq<u8>, i: int)
    requires
        number_at(b, xing_place(b, i) + 8) >= 15,
    ensures
        gaps(b, i) <= 8191,
        count_covers_gaps(b, i),
{
    let count = number_at(b, xing_place(b, i) + 8);
    assert(count * duration(b, i) >= 15 * 576) by (nonlinear_arith)
        requires
            count >= 15,
            duration(b, i) >= 576,
    ;
}

/// A tag by another encoder names no samples before or after the audio.
pub proof fn only_known_encoders_name_gaps(b: Seq<u8>, i: int)
    requires
        b[xing_end(b, i)] != 0x4c,
    ensures
        gaps(b, i) == 0,
        count_covers_gaps(b, i),
{
    let product = number_at(b, xing_place(b, i) + 8) * duration(b, i);
    assert(product >= 0);
}

/// The checksum of nothing is zero, and that of any byte is what shifting that
/// byte out of the register leaves, so that a text followed by its own checksum,
/// low byte first, has the checksum zero.
#[verifier::spinoff_prover]
#[verifier::rlimit(40)]
pub proof fn checksum_cancels_itself(bytes: Seq<u8>)
    ensures
        checksum(Seq::empty()) == 0,
        ({
            let crc = checksum(bytes);
            checksum(bytes.push((crc % 256) as u8).push((crc / 256) as u8)) == 0
        }),
{
    let crc = checksum(bytes);
    let low = (crc % 256) as u8;
    let high = (crc / 256) as u8;
    let one = bytes.push(low);
    let two = one.push(high);
    assert(one.drop_last() =~= bytes);
    assert(two.drop_last() =~= one);
    reveal_with_fuel(crc_shifts, 9);
    let low16 = low as u16;
    let high16 = high as u16;
    let x: u16 = crc ^ low16;
    assert(x % 256 == 0 && x / 256 == crc / 256) by (bit_vector)
        requires
            low16 == crc % 256,
            x == crc ^ low16,
    ;
    assert(crc_shifts(x, 8) == x / 256);
    assert(checksum(one) == high16);
    assert(high16 ^ high16 == 0) by (bit_vector);
    assert(crc_shifts(0, 8) == 0);
    assert(checksum(two) == crc_shifts(checksum(one) ^ high16, 8));
}

/// The bit rates follow a rule. In layer I of MPEG-1 they rise by 32. In the
/// other layers of MPEG-1 each run of four doubles, up to the last but one of
/// layer II, which starts with one more below them and ends with one more above;
/// and after MPEG-1 they rise by 8 and then by 16.
pub proof fn bit_rates_follow_a_rule(version: u8, layer: u8, i: int)
    requires
        1 <= i < 15,
    ensures
        ({
            let kbps = bit_rates(version, layer)[i] as int;
            // Runs of four steps of 8, 16, 32 and 64 each.
            let run = |k: int|
                if k <= 5 {
                    24 + 8 * k
                } else if k <= 9 {
                    16 * k - 16
                } else if k <= 13 {
                    32 * k - 160
                } else {
                    64 * k - 576
                };
            &&& version == 3 && layer == 3 ==> kbps == 32 * i
            &&& version == 3 && layer == 2 ==> kbps == if i == 1 {
                32
            } else {
                run(i + 1)
            }
            &&& version == 3 && layer != 3 && layer != 2 ==> kbps == run(i)
            &&& version != 3 && layer == 3 ==> kbps == if i == 1 {
                32
            } else if i <= 4 {
                32 + 8 * i
            } else if i <= 12 {
                16 * i
            } else {
                32 * i - 192
            }
            &&& version != 3 && layer != 3 ==> kbps == if i <= 8 {
                8 * i
            } else {
                16 * i - 64
            }
        }),
{
}

/// The three sample rates are those of CDs, of DVDs and of long play in MPEG-1,
/// half of them in MPEG-2, and a quarter in MPEG-2.5.
pub proof fn sample_rates_are_halved(b: Seq<u8>, i: int)
    requires
        syncs(b, i),
    ensures
        ({
            let scale: int = if version(b, i) == 3 {
                1
            } else if version(b, i) == 2 {
                2
            } else {
                4
            };
            let index = sample_rate_index(b, i);
            &&& index == 0 ==> sample_rate(b, i) * scale == 44100
            &&& index == 1 ==> sample_rate(b, i) * scale == 48000
            &&& index == 2 ==> sample_rate(b, i) * scale == 32000
            &&& index <= 2
        }),
{
}

/// Frames that go together have the same sample rate, last equally long and have
/// the same channels, and it does not matter which of them comes first.
pub proof fn frames_go_with_each_other(b: Seq<u8>, i: int, j: int)
    requires
        is_header(b, i),
        is_header(b, j),
    ensures
        goes_with(b, i, i),
        goes_with(b, i, j) == goes_with(b, j, i),
        goes_with(b, i, j) <==> sample_rate(b, i) == sample_rate(b, j) && version(b, i) == version(
            b,
            j,
        ) && layer(b, i) == layer(b, j) && (b[i + 3] >= 192 <==> b[j + 3] >= 192),
{
    sample_rates_are_halved(b, i);
    sample_rates_are_halved(b, j);
}

/// A header is the sync word of eleven bits and four fields with values of their
/// own; in layer II a single channel has no high and two channels have no low bit
/// rate.
pub proof fn header_is_made_of_its_fields(b: Seq<u8>, i: int)
    requires
        0 <= i,
        i + 4 <= b.len(),
    ensures
        ({
            let field = b[i + 1] % 32;
            let kbps = bit_rates(3, 2)[(b[i + 2] / 16) as int];
            let kbps2 = bit_rates(2, 2)[(b[i + 2] / 16) as int];
            &&& syncs(b, i) <==> b[i] == 255 && b[i + 1] / 32 == 7 && !(8 <= field < 16) && field
                % 8 >= 2 && b[i + 2] < 240 && b[i + 2] % 16 < 12
            &&& is_header(b, i) ==> syncs(b, i) && b[i + 2] >= 16
            &&& syncs(b, i) && b[i + 2] >= 16 && !(4 <= field % 8 < 6) ==> is_header(b, i)
            &&& syncs(b, i) && b[i + 2] >= 16 && 28 <= field < 30 ==> (is_header(b, i) <==> if b[i
                + 3] >= 192 {
                kbps <= 192
            } else {
                kbps == 64 || kbps >= 96
            })
            &&& syncs(b, i) && b[i + 2] >= 16 && field < 28 && 4 <= field % 8 < 6 ==> (is_header(
                b,
                i,
            ) <==> b[i + 3] >= 192 || kbps2 != 32 && kbps2 != 48 && kbps2 != 56 && kbps2 != 80)
        }),
{
}

/// The search for a header takes what is one, goes on behind what only looked
/// like one, and otherwise tries the next byte.
pub proof fn search_for_a_header_goes_on(b: Seq<u8>, p: int)
    requires
        0 <= p,
        p + 4 <= b.len(),
    ensures
        is_header(b, p) ==> next_header(b, p) == Some(p),
        !is_header(b, p) && syncs(b, p) ==> next_header(b, p) == next_header(b, p + 4),
        !syncs(b, p) ==> next_header(b, p) == next_header(b, p + 1),
{
}

/// The search for the first frame goes on right behind the start of a whole frame
/// that nothing fitting follows, and ends where a frame is not whole.
pub proof fn search_for_a_frame_goes_on(b: Seq<u8>, p: int)
    requires
        is_header(b, p),
    ensures
        ({
            let end = p + frame_len(b, p);
            &&& end > b.len() ==> first_frame(b, p) is None
            &&& end + 4 <= b.len() && !goes_with(b, p, end) ==> first_frame(b, p) == first_frame(
                b,
                p + 1,
            )
        }),
{
    frame_len_is_bounded(b, p);
}

/// A tag of the Xing kind is told by its name, the zeros before it and the room
/// for what its flags announce. It stands behind the side information, which
/// takes 32 bytes for two channels of MPEG-1, 9 for one channel of the other
/// versions, and 17 otherwise.
pub proof fn xing_tag_is_told_by_its_name(b: Seq<u8>, i: int)
    requires
        is_header(b, i),
    ensures
        ({
            let mpeg1 = b[i + 1] % 32 >= 24;
            let mono = b[i + 3] >= 192;
            let side: int = if mpeg1 && !mono {
                32
            } else if !mpeg1 && mono {
                9
            } else {
                17
            };
            let at = i + 4 + side;
            let flags = b[at + 7];
            let count: int = (flags % 2) as int;
            let table: int = (flags / 4 % 2) as int;
            let others: int = (flags / 2 % 2) + (flags / 8 % 2);
            is_xing(b, i) <==> {
                &&& 2 <= b[i + 1] % 8 < 4
                &&& 4 + side + 8 <= frame_len(b, i)
                &&& (b[at] == 'X' as u8 && b[at + 1] == 'i' as u8 && b[at + 2] == 'n' as u8 && b[at
                    + 3] == 'g' as u8) || (b[at] == 'I' as u8 && b[at + 1] == 'n' as u8 && b[at + 2]
                    == 'f' as u8 && b[at + 3] == 'o' as u8)
                &&& forall|j: int| i + 4 <= j < at ==> b[j] == 0
                &&& 4 + side + 8 + 4 * (count + others) + 100 * table <= frame_len(b, i)
            }
        }),
{
    let mpeg1 = b[i + 1] % 32 >= 24;
    assert(mpeg1 <==> version(b, i) == 3);
    assert(2 <= b[i + 1] % 8 < 4 <==> layer(b, i) == 1);
    assert(b[i + 3] >= 192 <==> is_mono(b, i));
}

/// A VBRI tag is told by its name, always 36 bytes into the frame, the zeros
/// before it, its version, which is one, and room for the rest of it.
pub proof fn vbri_tag_is_told_by_its_name(b: Seq<u8>, i: int)
    requires
        is_header(b, i),
    ensures
        is_vbri(b, i) <==> {
            &&& 2 <= b[i + 1] % 8 < 4
            &&& frame_len(b, i) >= 36 + 26
            &&& b[i + 36] == 'V' as u8 && b[i + 37] == 'B' as u8
            &&& b[i + 38] == 'R' as u8 && b[i + 39] == 'I' as u8
            &&& forall|j: int| i + 4 <= j < i + 36 ==> b[j] == 0
            &&& b[i + 40] * 256 + b[i + 41] == 1
        },
{
    assert(2 <= b[i + 1] % 8 < 4 <==> layer(b, i) == 1);
}

/// The samples before and after the audio are two numbers of twelve bits, which
/// the decoder's delay of 529 samples lengthens and shortens. They are believed of
/// LAME and of FFmpeg, unless there is a checksum and it is wrong.
pub proof fn gaps_are_two_numbers_of_twelve_bits(b: Seq<u8>, i: int, before: int, after: int)
    requires
        0 <= before < 4096,
        0 <= after < 4096,
        ({
            let at = xing_end(b, i) + 21;
            b[at] * 65536 + b[at + 1] * 256 + b[at + 2] == before * 4096 + after
        }),
    ensures
        ({
            let at = xing_end(b, i);
            let room = i + frame_len(b, i) - at;
            let lame = b[at] == 'L' as u8 && b[at + 1] == 'A' as u8 && b[at + 2] == 'M' as u8 && b[at
                + 3] == 'E' as u8;
            let ffmpeg = b[at] == 'L' as u8 && b[at + 1] == 'a' as u8 && b[at + 2] == 'v' as u8 && (
            b[at + 3] == 'f' as u8 || b[at + 3] == 'c' as u8);
            let summed = room >= 36 && (lame || b[i + 1] % 2 == 0);
            let right = checksum(b.subrange(i, at + 34)) == b[at + 34] * 256 + b[at + 35];
            let believed = room >= 24 && (lame || ffmpeg) && (summed ==> right);
            &&& !believed ==> gaps(b, i) == 0
            &&& believed && after <= 529 ==> gaps(b, i) == 529 + before
            &&& believed && after >= 529 ==> gaps(b, i) == before + after
        }),
{
    let at = xing_end(b, i) + 21;
    assert(b[at] * 16 + b[at + 1] / 16 == before);
    assert(b[at + 1] % 16 * 256 + b[at + 2] == after);
}

/// A frame count is in order exactly when it is not there, or when so many frames
/// have at least the samples that were added: 1152 each in MPEG-1, 576 otherwise.
pub proof fn frame_count_is_held_against_the_gaps(b: Seq<u8>, i: int, count: nat)
    requires
        is_header(b, i),
        is_xing(b, i),
        ({
            let at = xing_place(b, i) + 8;
            b[at] * 16777216 + b[at + 1] * 65536 + b[at + 2] * 256 + b[at + 3] == count
        }),
    ensures
        ({
            let flags = b[xing_place(b, i) + 7];
            let samples = if b[i + 1] % 32 >= 24 {
                count * 1152
            } else {
                count * 576
            };
            count_covers_gaps(b, i) <==> flags % 2 == 0 || samples >= gaps(b, i)
        }),
{
    assert(b[i + 1] % 32 >= 24 <==> version(b, i) == 3);
}

/// A stream is entered at its first frame: one with a tag needs both a frame
/// count in order and audio after it.
pub proof fn entering_takes_a_count_in_order_and_audio(b: Seq<u8>, p: int)
    requires
        first_frame(b, p) matches Some(f) && is_tag(b, f),
    ensures
        ({
            let f = first_frame(b, p)->0;
            can_be_entered(b, p) <==> count_covers_gaps(b, f) && audio_follows(
                b,
                f + frame_len(b, f),
            )
        }),
{
}

/// The fields of a header, from the highest bit down: eleven bits of sync word,
/// two of version, two of layer, one for protection, four of bit rate, two of
/// sample rate, one of padding, one that is not used, and two of channels.
pub proof fn fields_of_a_header(b: Seq<u8>, i: int)
    ensures
        version(b, i) == b[i + 1] % 32 / 8,
        layer(b, i) == b[i + 1] % 8 / 2,
        is_protected(b, i) <==> b[i + 1] % 2 == 0,
        bit_rate(b, i) == bit_rates(b[i + 1] % 32 / 8, b[i + 1] % 8 / 2)[b[i + 2] as int / 16],
        sample_rate_index(b, i) == b[i + 2] % 16 / 4,
        is_mono(b, i) <==> b[i + 3] >= 192,
{
    assert(b[i + 1] % 32 / 8 == b[i + 1] / 8 % 4);
    assert(b[i + 1] % 8 / 2 == b[i + 1] / 2 % 4);
}

/// Only headers matter: both the first frame and the audio that follows are those
/// from the next header on, and where there is none, there is neither.
pub proof fn only_headers_matter(b: Seq<u8>, p: int)
    ensures
        next_header(b, p) is None ==> first_frame(b, p) is None && !audio_follows(b, p),
        next_header(b, p) matches Some(q) ==> first_frame(b, p) == first_frame(b, q)
            && audio_follows(b, p) == audio_follows(b, q) && next_header(b, q) == Some(q),
{
    next_header_is_ahead(b, p);
    if let Some(q) = next_header(b, p) {
        lemma_header_is_its_own_next(b, p);
    }
}

/// Where a header is found, it is found again.
proof fn lemma_header_is_its_own_next(b: Seq<u8>, p: int)
    ensures
        next_header(b, p) matches Some(q) ==> 0 <= q && next_header(b, q) == Some(q),
    decreases b.len() - p,
{
    if p < 0 || p + HEADER_LEN > b.len() || is_header(b, p) {
    } else if syncs(b, p) {
        lemma_header_is_its_own_next(b, p + HEADER_LEN);
    } else {
        lemma_header_is_its_own_next(b, p + 1);
    }
}

/// There are two kinds of tags, and no others.
pub proof fn tags_are_of_two_kinds(b: Seq<u8>, i: int)
    ensures
        is_tag(b, i) <==> is_xing(b, i) || is_vbri(b, i),
        !(is_xing(b, i) && is_vbri(b, i)),
{
}

/// A step of the checksum halves the register and, for a one that falls out,
/// brings in the polynomial; nothing but ones changes it.
pub proof fn checksum_is_a_shift_register(x: u16, y: u16)
    ensures
        crc_shift(0) == 0,
        crc_shift(1) == 0xa001,
        crc_shift(x ^ y) == crc_shift(x) ^ crc_shift(y),
        x % 2 == 0 ==> crc_shift(x) == x / 2,
{
    assert(0u16 ^ 0xa001u16 == 0xa001u16) by (bit_vector);
    assert((x ^ y) % 2 == 1 <==> (x % 2 == 1) != (y % 2 == 1)) by (bit_vector);
    assert((x ^ y) / 2 == (x / 2) ^ (y / 2)) by (bit_vector);
    let p = x / 2;
    let q = y / 2;
    assert((p ^ 0xa001u16) ^ (q ^ 0xa001u16) == p ^ q) by (bit_vector);
    assert((p ^ 0xa001u16) ^ q == (p ^ q) ^ 0xa001u16) by (bit_vector);
    assert(p ^ (q ^ 0xa001u16) == (p ^ q) ^ 0xa001u16) by (bit_vector);
}

} // verus!
