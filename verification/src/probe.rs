//! Checking a stream without an audio device: download a piece of it, decode
//! it, and report what was found.

use rodio::Source;
use vstd::prelude::*;
use vstd::string::*;

use crate::id3;
use crate::mpeg;
use crate::text;

verus! {

/// How many bytes a probe asks the connection for at a time.
pub const PROBE_CHUNK: usize = 16 * 1024;

/// How many bytes the decoder looks at to find out what it has been given.
pub const MARKER_LEN: usize = 16;

/// How far the decoder searches for something that it knows.
pub const SEARCH_LIMIT: usize = 1024 * 1024;

/// How many bytes a frame of silence takes.
pub const SILENCE_LEN: usize = 104;

/// The piece of a stream that has been downloaded so far.
pub struct Download {
    body: Vec<u8>,
    wanted: usize,
}

/// What a download holds, and how many bytes are enough.
#[verifier::ext_equal]
pub struct DownloadState {
    pub taken: Seq<u8>,
    pub wanted: nat,
}

impl View for Download {
    type V = DownloadState;

    closed spec fn view(&self) -> DownloadState {
        DownloadState { taken: self.body@, wanted: self.wanted as nat }
    }
}

/// A download with nothing taken yet.
pub open spec fn new_download(wanted: nat) -> DownloadState {
    DownloadState { taken: Seq::empty(), wanted }
}

/// How many of `offered` bytes a download still has use for.
pub open spec fn useful(d: DownloadState, offered: nat) -> nat {
    if d.taken.len() >= d.wanted {
        0
    } else if d.wanted - d.taken.len() < offered {
        (d.wanted - d.taken.len()) as nat
    } else {
        offered
    }
}

/// A download after a chunk has come in.
pub open spec fn after_chunk(d: DownloadState, chunk: Seq<u8>) -> DownloadState {
    DownloadState { taken: d.taken + chunk.take(useful(d, chunk.len()) as int), ..d }
}

/// Whether a download goes on after a chunk: not at the end of the stream, and
/// not when there is enough.
pub open spec fn wants_more(d: DownloadState, chunk: Seq<u8>) -> bool {
    chunk.len() > 0 && after_chunk(d, chunk).taken.len() < d.wanted
}

/// The line that says how much has been downloaded.
pub open spec fn fetched_text(n: nat) -> Seq<char> {
    "probe: fetched "@ + text::decimal(n) + " bytes"@
}

impl Download {
    /// A download of `wanted` bytes, with nothing taken yet.
    pub fn new(wanted: usize) -> (download: Download)
        ensures
            download@ == (DownloadState { taken: Seq::<u8>::empty(), wanted: wanted as nat }),
            download@ == new_download(wanted as nat),
    {
        let download = Download { body: Vec::new(), wanted };
        assert(download@.taken =~= Seq::<u8>::empty());
        download
    }

    /// Take what is still wanted of a chunk that came in and say whether to read
    /// on; an empty chunk is the end of the stream.
    pub fn take(&mut self, chunk: &[u8]) -> (more: bool)
        ensures
            final(self)@ == after_chunk(old(self)@, chunk@),
            more == wants_more(old(self)@, chunk@),
    {
        let ghost before = self@;
        let taken: usize = self.body.len();
        let kept: usize = if taken >= self.wanted {
            0
        } else if self.wanted - taken < chunk.len() {
            self.wanted - taken
        } else {
            chunk.len()
        };
        self.body.extend_from_slice(vstd::slice::slice_subrange(chunk, 0, kept));
        assert(self@.taken =~= before.taken + chunk@.take(kept as int));
        chunk.len() > 0 && self.body.len() < self.wanted
    }

    /// What has been downloaded.
    pub fn into_body(self) -> (body: Vec<u8>)
        ensures
            body@ == self@.taken,
    {
        self.body
    }

    /// The line that says how much has been downloaded.
    pub fn fetched_line(&self) -> (line: String)
        ensures
            line@ == "probe: fetched "@ + text::decimal(self@.taken.len()) + " bytes"@,
            line@ == fetched_text(self@.taken.len()),
    {
        let mut line = "probe: fetched ".to_owned();
        text::push_decimal(&mut line, self.body.len() as u64);
        line.append(" bytes");
        line
    }
}

/// The audio decoder of rodio, reading from memory: the samples of a piece of
/// audio, handed out one by one.
#[verifier::external_body]
pub struct Samples {
    decoder: rodio::Decoder<std::io::Cursor<Vec<u8>>>,
}

/// What `rodio::Decoder::new` makes of a piece of audio: a decoder, of which
/// these are the number of channels, the sample rate and how many interleaved
/// samples it hands out; or the text of the error.
pub uninterp spec fn decoded(body: Seq<u8>) -> Result<(u16, u32, nat), Seq<char>>;

/// The number of channels that a decoder gives for its next sample.
pub uninterp spec fn channel_count(samples: Samples) -> u16;

/// The sample rate that a decoder gives for its next sample.
pub uninterp spec fn rate_of(samples: Samples) -> u32;

/// How many samples a decoder hands out before the first time that it has none.
pub uninterp spec fn samples_left(samples: Samples) -> nat;

/// A frame of silence: MPEG-1, layer III, 32 kilobits per second, 44100 hertz
/// and two channels.
pub open spec fn silence() -> Seq<u8> {
    seq![0xff, 0xfb, 0x10] + Seq::new((SILENCE_LEN - 3) as nat, |j: int| 0u8)
}

/// Whether MPEG audio starts at `p`, as far as two bytes can tell.
pub open spec fn starts_audio(b: Seq<u8>, p: int) -> bool {
    b[p] == 0xff && b[p + 1] >= 0xe0 && mpeg::version(b, p) != 1 && mpeg::layer(b, p) != 0
}

/// Where the first thing from `p` on is that the decoder knows, MPEG audio or an
/// ID3v2 tag.
pub open spec fn next_marker(b: Seq<u8>, p: int) -> Option<int>
    decreases b.len() - p,
{
    if p < 0 || p + MARKER_LEN > b.len() {
        None
    } else if starts_audio(b, p) || id3::starts_tag(b, p) {
        Some(p)
    } else {
        next_marker(b, p + 1)
    }
}

/// The next marker is not before the place where the search starts.
pub proof fn next_marker_is_ahead(b: Seq<u8>, p: int)
    ensures
        next_marker(b, p) matches Some(q) ==> p <= q && 0 <= q && q + MARKER_LEN <= b.len(),
    decreases b.len() - p,
{
    if p < 0 || p + MARKER_LEN > b.len() || starts_audio(b, p) || id3::starts_tag(b, p) {
    } else {
        next_marker_is_ahead(b, p + 1);
    }
}

/// Whether the decoder can read the ID3v2 tag from `from` to `to`: it accepts the
/// tag with silence after it.
pub open spec fn is_readable(b: Seq<u8>, from: int, to: int) -> bool {
    decoded(b.subrange(from, to) + silence()) is Ok
}

/// Whether the decoder returns from a search for audio that starts at `p`. It
/// does unless it meets an ID3v2 tag that restricts the encoding of text, or
/// enters a stream of audio that cannot be entered.
pub open spec fn can_be_searched(b: Seq<u8>, p: int) -> bool
    decreases b.len() - p,
{
    match next_marker(b, p) {
        None => true,
        Some(q) => {
            proof {
                next_marker_is_ahead(b, p);
            }
            if q - p + 2 > SEARCH_LIMIT {
                true
            } else if starts_audio(b, q) {
                mpeg::can_be_entered(b, q)
            } else {
                let end = id3::tag_end(b, q);
                &&& !id3::restricts_text(b, q)
                &&& end <= b.len() && is_readable(b, q, end) ==> can_be_searched(b, end)
            }
        },
    }
}

/// Whether the decoder can be handed a piece of audio, and returns.
pub open spec fn openable(b: Seq<u8>) -> bool {
    can_be_searched(b, 0)
}

/// Starts decoding a piece of audio.
///
/// Calls `rodio::Decoder::new` on the bytes in memory. The claim is that the
/// bytes alone decide whether this succeeds, the channels and the rate of the
/// new decoder, how many samples it will hand out, and the text of the error.
/// What the samples are is left unsaid. Left out are the pieces on which the
/// call panics, in the crates that rodio decodes with: symphonia's reader of
/// ID3v2 tags where a tag restricts the encoding of text; its reader of MPEG
/// audio where a tag in the first frame names more samples before and after the
/// audio than its frame count has; and its sample buffer, which divides by the
/// channel count of zero that rodio hands it where no frame with audio follows
/// such a tag.
#[verifier::external_body]
fn open_decoder(body: Vec<u8>) -> (opened: Result<Samples, String>)
    requires
        openable(body@),
    ensures
        decoded(body@) == match opened {
            Ok(samples) => Ok::<(u16, u32, nat), Seq<char>>(
                (channel_count(samples), rate_of(samples), samples_left(samples)),
            ),
            Err(message) => Err::<(u16, u32, nat), Seq<char>>(message@),
        },
{
    match rodio::Decoder::new(std::io::Cursor::new(body)) {
        Ok(decoder) => Ok(Samples { decoder }),
        Err(e) => Err(e.to_string()),
    }
}

/// The number of channels.
///
/// Calls `channels` of `rodio::Decoder`, which reads a field of the decoder; the
/// claim is that the decoder alone decides the number.
#[verifier::external_body]
fn channels(samples: &Samples) -> (n: u16)
    ensures
        n == channel_count(*samples),
{
    samples.decoder.channels()
}

/// The sample rate.
///
/// Calls `sample_rate` of `rodio::Decoder`, which reads a field of the decoder;
/// the claim is that the decoder alone decides the number.
#[verifier::external_body]
fn sample_rate(samples: &Samples) -> (hz: u32)
    ensures
        hz == rate_of(*samples),
{
    samples.decoder.sample_rate()
}

/// Takes the next sample from a decoder and says whether there was one.
///
/// Calls `Iterator::next` of `rodio::Decoder`. The claim is that a decoder has a
/// sample exactly when some are left before the first time that it has none, and
/// that taking one leaves one less. What the sample is is left unsaid, and so is
/// what a decoder that had none does when it is asked again: it may find more,
/// behind a place that it could not decode.
#[verifier::external_body]
fn next_sample(samples: &mut Samples) -> (taken: bool)
    ensures
        taken == (samples_left(*old(samples)) > 0),
        taken ==> samples_left(*final(samples)) == samples_left(*old(samples)) - 1,
{
    samples.decoder.next().is_some()
}

/// A frame of silence.
fn make_silence() -> (frame: Vec<u8>)
    ensures
        frame@ == silence(),
{
    let mut frame: Vec<u8> = Vec::new();
    frame.push(0xff);
    frame.push(0xfb);
    frame.push(0x10);
    while frame.len() < SILENCE_LEN
        invariant
            3 <= frame@.len() <= SILENCE_LEN,
            frame@ =~= silence().take(frame@.len() as int),
        decreases SILENCE_LEN - frame@.len(),
    {
        frame.push(0);
    }
    assert(frame@ =~= silence());
    frame
}

/// A tag with silence after it can be handed to the decoder, if the tag itself
/// can.
#[verifier::spinoff_prover]
#[verifier::rlimit(40)]
proof fn lemma_tag_before_silence(b: Seq<u8>, from: int, to: int)
    requires
        0 <= from,
        from + MARKER_LEN <= b.len(),
        to == id3::tag_end(b, from),
        to <= b.len(),
        id3::starts_tag(b, from),
        !id3::restricts_text(b, from),
    ensures
        openable(b.subrange(from, to) + silence()),
{
    let n = to - from;
    let t = b.subrange(from, to) + silence();
    assert(forall|j: int| 0 <= j < n ==> t[j] == b[from + j]);
    assert(forall|j: int| 0 <= j < SILENCE_LEN ==> t[n + j] == silence()[j]);
    assert(!id3::restricts_text(t, 0));
    assert(id3::tag_end(t, 0) == n);
    assert(next_marker(t, 0) == Some(0int));
    assert(next_marker(t, n) == Some(n));
    assert(t[n] == 0xff && t[n + 1] == 0xfb && t[n + 2] == 0x10 && t[n + 3] == 0);
    assert(mpeg::is_header(t, n));
    assert(mpeg::bit_rate(t, n) == 32);
    assert(mpeg::sample_rate(t, n) == 44100);
    assert(144 * (32nat * 1000) / 44100nat == 104);
    assert(mpeg::frame_len(t, n) == SILENCE_LEN);
    assert(mpeg::next_header(t, n) == Some(n));
    assert(mpeg::first_frame(t, n) == Some(n));
    assert(!mpeg::is_tag(t, n));
    assert(mpeg::can_be_entered(t, n));
    assert(can_be_searched(t, n));
}

/// Whether the decoder can read the ID3v2 tag from `from` to `to`.
fn can_read_tag(b: &Vec<u8>, from: usize, to: usize) -> (yes: bool)
    requires
        from + MARKER_LEN <= b.len(),
        to == id3::tag_end(b@, from as int),
        to <= b.len(),
        id3::starts_tag(b@, from as int),
        !id3::restricts_text(b@, from as int),
    ensures
        yes == is_readable(b@, from as int, to as int),
{
    let mut piece: Vec<u8> = Vec::new();
    piece.extend_from_slice(vstd::slice::slice_subrange(b.as_slice(), from, to));
    piece.extend_from_slice(make_silence().as_slice());
    assert(piece@ =~= b@.subrange(from as int, to as int) + silence());
    proof {
        lemma_tag_before_silence(b@, from as int, to as int);
    }
    match open_decoder(piece) {
        Ok(_) => true,
        Err(_) => false,
    }
}

/// Where the first thing from `p` on is that the decoder knows.
fn find_marker(b: &Vec<u8>, p: usize) -> (found: Option<usize>)
    requires
        p <= b.len(),
    ensures
        match found {
            Some(q) => next_marker(b@, p as int) == Some(q as int) && p <= q && q + MARKER_LEN
                <= b.len() && (starts_audio(b@, q as int) || id3::starts_tag(b@, q as int)),
            None => next_marker(b@, p as int) is None,
        },
{
    let mut i: usize = p;
    while b.len() - i >= MARKER_LEN
        invariant
            p <= i <= b.len(),
            next_marker(b@, p as int) == next_marker(b@, i as int),
        decreases b@.len() - i,
    {
        if does_start_audio(b, i) || id3::does_start_tag(b, i) {
            return Some(i);
        }
        i = i + 1;
    }
    None
}

/// Whether MPEG audio starts at `p`.
fn does_start_audio(b: &Vec<u8>, p: usize) -> (yes: bool)
    requires
        p + 2 <= b.len(),
    ensures
        yes == starts_audio(b@, p as int),
{
    b[p] == 0xff && b[p + 1] >= 0xe0 && b[p + 1] / 8 % 4 != 1 && b[p + 1] / 2 % 4 != 0
}

/// Whether the decoder can be handed a piece of audio. The decoder itself is
/// asked about the ID3v2 tags in front of the audio, one by one.
pub fn is_openable(b: &Vec<u8>) -> (yes: bool)
    ensures
        yes == openable(b@),
{
    let mut p: usize = 0;
    loop
        invariant
            p <= b.len(),
            openable(b@) == can_be_searched(b@, p as int),
        decreases b@.len() - p,
    {
        match find_marker(b, p) {
            None => {
                return true;
            },
            Some(q) => {
                if q - p > SEARCH_LIMIT - 2 {
                    return true;
                }
                if does_start_audio(b, q) {
                    return mpeg::can_enter(b, q);
                }
                if id3::does_restrict_text(b, q) {
                    return false;
                }
                let len: usize = id3::measure_tag(b, q);
                if b.len() - q < len || !can_read_tag(b, q, q + len) {
                    return true;
                }
                p = q + len;
            },
        }
    }
}

/// Counts the samples that a decoder hands out until it has none; nothing when
/// there are more than the counter can hold.
fn count_samples(samples: Samples) -> (count: Option<u64>)
    ensures
        match count {
            Some(n) => n == samples_left(samples),
            None => samples_left(samples) > u64::MAX,
        },
{
    let ghost total = samples_left(samples);
    let mut left = samples;
    let mut count: u64 = 0;
    loop
        invariant
            count + samples_left(left) == total,
            total == samples_left(samples),
        decreases samples_left(left),
    {
        if !next_sample(&mut left) {
            return Some(count);
        }
        if count == u64::MAX {
            return None;
        }
        count = count + 1;
    }
}

/// How many whole seconds `samples` interleaved samples last.
pub open spec fn seconds(channels: nat, rate: nat, samples: nat) -> nat {
    samples / channels / rate
}

/// The line that reports what was decoded.
pub open spec fn report_text(channels: nat, rate: nat, samples: nat) -> Seq<char> {
    "probe: ok — "@ + text::decimal(channels) + " ch, "@ + text::decimal(rate) + " Hz, "@
        + text::decimal(samples) + " samples (~"@ + text::decimal(
        seconds(channels, rate, samples),
    ) + "s audio)"@
}

/// The line that reports what was decoded; one sample is one channel's value,
/// so the duration is the number of samples over channels and rate.
pub fn report(channels: u16, rate: u32, samples: u64) -> (line: String)
    requires
        channels > 0,
        rate > 0,
    ensures
        line@ == report_text(channels as nat, rate as nat, samples as nat),
{
    let secs: u64 = samples / channels as u64 / rate as u64;
    let mut line = "probe: ok — ".to_owned();
    text::push_decimal(&mut line, channels as u64);
    line.append(" ch, ");
    text::push_decimal(&mut line, rate as u64);
    line.append(" Hz, ");
    text::push_decimal(&mut line, samples);
    line.append(" samples (~");
    text::push_decimal(&mut line, secs);
    line.append("s audio)");
    line
}

/// What a probe comes to.
#[derive(Clone, Debug)]
pub enum Outcome {
    /// The audio was decoded; the line that reports it.
    Decoded(String),
    /// The audio could not be decoded; the line that says why.
    Failed(String),
    /// The decoder would panic on this audio, so it was not asked.
    Refused,
    /// The decoder names no channels or no sample rate, or hands out more
    /// samples than can be counted, so there is no duration to report.
    Unmeasured,
}

/// Whether an outcome tells what the decoder found.
pub open spec fn tells(outcome: Outcome, found: Result<(u16, u32, nat), Seq<char>>) -> bool {
    match found {
        Ok((channels, rate, samples)) => match outcome {
            Outcome::Decoded(line) => channels > 0 && rate > 0 && samples <= u64::MAX && line@
                == report_text(channels as nat, rate as nat, samples),
            Outcome::Unmeasured => channels == 0 || rate == 0 || samples > u64::MAX,
            _ => false,
        },
        Err(message) => outcome is Failed && outcome->Failed_0@ == "probe: decode failed: "@
            + message,
    }
}

/// Whether an outcome is what a probe of a piece of audio comes to.
pub open spec fn answers(outcome: Outcome, body: Seq<u8>) -> bool {
    if openable(body) {
        tells(outcome, decoded(body))
    } else {
        outcome is Refused
    }
}

/// Decode a downloaded piece of a stream and report what was found.
pub fn probe(body: Vec<u8>) -> (outcome: Outcome)
    ensures
        if !openable(body@) {
            outcome is Refused
        } else {
            match decoded(body@) {
                Ok((channels, rate, samples)) => if channels > 0 && rate > 0 && samples
                    <= u64::MAX {
                    outcome is Decoded && outcome->Decoded_0@ == report_text(
                        channels as nat,
                        rate as nat,
                        samples,
                    )
                } else {
                    outcome is Unmeasured
                },
                Err(message) => outcome is Failed && outcome->Failed_0@
                    == "probe: decode failed: "@ + message,
            }
        },
        openable(body@) ==> tells(outcome, decoded(body@)),
        answers(outcome, body@),
{
    if !is_openable(&body) {
        return Outcome::Refused;
    }
    match open_decoder(body) {
        Ok(samples) => {
            let ch: u16 = channels(&samples);
            let rate: u32 = sample_rate(&samples);
            match count_samples(samples) {
                Some(count) if ch > 0 && rate > 0 => Outcome::Decoded(report(ch, rate, count)),
                _ => Outcome::Unmeasured,
            }
        },
        Err(message) => {
            let mut line = "probe: decode failed: ".to_owned();
            line.append(message.as_str());
            Outcome::Failed(line)
        },
    }
}

/// What a download ends with when `chunks` come in.
pub open spec fn download_all(d: DownloadState, chunks: Seq<Seq<u8>>) -> DownloadState
    decreases chunks.len(),
{
    if chunks.len() == 0 {
        d
    } else if wants_more(d, chunks.first()) {
        download_all(after_chunk(d, chunks.first()), chunks.drop_first())
    } else {
        after_chunk(d, chunks.first())
    }
}

/// However a stream comes in, in chunks that are not empty, a download from it
/// is its first bytes, as many as were wanted, or all of it where it has fewer.
pub proof fn download_is_what_was_wanted(wanted: nat, chunks: Seq<Seq<u8>>)
    requires
        forall|i: int| 0 <= i < chunks.len() ==> (#[trigger] chunks[i]).len() > 0,
    ensures
        ({
            let stream = chunks.flatten();
            let d = download_all(new_download(wanted), chunks);
            &&& d.taken == stream.take(vstd::math::min(wanted as int, stream.len() as int))
            &&& d.wanted == wanted
        }),
{
    let start = new_download(wanted);
    lemma_download_goes_on(start, chunks);
    assert(start.taken + chunks.flatten() =~= chunks.flatten());
}

/// A download that has not got too much ends with what it has and what comes in,
/// up to what was wanted.
proof fn lemma_download_goes_on(d: DownloadState, chunks: Seq<Seq<u8>>)
    requires
        d.taken.len() <= d.wanted,
        forall|i: int| 0 <= i < chunks.len() ==> (#[trigger] chunks[i]).len() > 0,
    ensures
        ({
            let all = d.taken + chunks.flatten();
            let last = download_all(d, chunks);
            &&& last.taken == all.take(vstd::math::min(d.wanted as int, all.len() as int))
            &&& last.wanted == d.wanted
        }),
    decreases chunks.len(),
{
    let all = d.taken + chunks.flatten();
    if chunks.len() == 0 {
        assert(all =~= d.taken);
        assert(all.take(all.len() as int) =~= all);
    } else {
        let first = chunks.first();
        let rest = chunks.drop_first();
        let next = after_chunk(d, first);
        assert(all =~= (d.taken + first) + rest.flatten());
        if wants_more(d, first) {
            assert(first.take(first.len() as int) =~= first);
            lemma_download_goes_on(next, rest);
        } else {
            assert(next.taken =~= all.take(d.wanted as int));
        }
    }
}

/// The reported duration is the whole number of seconds that all channels
/// together last.
pub proof fn reported_seconds_cover_the_samples(channels: nat, rate: nat, samples: nat)
    requires
        channels > 0,
        rate > 0,
    ensures
        ({
            let s = seconds(channels, rate, samples);
            s * (channels * rate) <= samples < (s + 1) * (channels * rate)
        }),
{
    let frames = samples / channels;
    let s = frames / rate;
    vstd::arithmetic::div_mod::lemma_fundamental_div_mod(samples as int, channels as int);
    vstd::arithmetic::div_mod::lemma_fundamental_div_mod(frames as int, rate as int);
    vstd::arithmetic::div_mod::lemma_mod_bound(samples as int, channels as int);
    vstd::arithmetic::div_mod::lemma_mod_bound(frames as int, rate as int);
    assert(s * (channels * rate) <= samples < (s + 1) * (channels * rate)) by (nonlinear_arith)
        requires
            channels > 0,
            rate > 0,
            channels * frames <= samples,
            samples < channels * frames + channels,
            rate * s <= frames,
            frames + 1 <= rate * s + rate,
    ;
}

/// The report names the channels, the rate and the samples as they are, and as
/// the duration the one whole number of seconds `s` that all channels together
/// last: `s` seconds take no more samples than there are, and `s + 1` seconds
/// take more.
pub proof fn report_gives_the_duration(channels: nat, rate: nat, samples: nat, s: nat)
    requires
        channels > 0,
        rate > 0,
        s * (channels * rate) <= samples < (s + 1) * (channels * rate),
    ensures
        report_text(channels, rate, samples) == "probe: ok — "@ + text::decimal(channels)
            + " ch, "@ + text::decimal(rate) + " Hz, "@ + text::decimal(samples) + " samples (~"@
            + text::decimal(s) + "s audio)"@,
{
    let t = seconds(channels, rate, samples);
    let second = channels * rate;
    reported_seconds_cover_the_samples(channels, rate, samples);
    assert(s == t) by (nonlinear_arith)
        requires
            s * second <= samples,
            samples < (s + 1) * second,
            t * second <= samples,
            samples < (t + 1) * second,
            second >= 0,
    ;
}

/// The duration, read off the report: the digits right before "s audio)" are
/// those of a number of seconds that covers the samples.
pub proof fn duration_can_be_read_off_the_report(channels: nat, rate: nat, samples: nat)
    requires
        channels > 0,
        rate > 0,
    ensures
        exists|s: nat|
            {
                let line = report_text(channels, rate, samples);
                let digits = #[trigger] text::decimal(s);
                let from = line.len() - 8 - digits.len();
                &&& s * (channels * rate) <= samples < (s + 1) * (channels * rate)
                &&& from >= 2
                &&& line.skip(line.len() - 8) == "s audio)"@
                &&& line.subrange(from, line.len() - 8) == digits
                &&& text::number_in(line.subrange(from, line.len() - 8)) == s
                &&& line[from - 1] == '~'
            },
{
    let s = seconds(channels, rate, samples);
    let line = report_text(channels, rate, samples);
    let digits = text::decimal(s);
    reported_seconds_cover_the_samples(channels, rate, samples);
    report_gives_the_duration(channels, rate, samples, s);
    text::decimal_reads_as_the_number(s);
    reveal_strlit("s audio)");
    reveal_strlit(" samples (~");
    let from = line.len() - 8 - digits.len();
    assert(line.skip(line.len() - 8) =~= "s audio)"@);
    assert(line.subrange(from, line.len() - 8) =~= digits);
}

/// What a probe that could ask the decoder says: the report, with the duration,
/// when the decoder found audio that can be measured; the decoder's own words
/// when it found none; and nothing else.
pub proof fn probe_says_what_was_found(
    outcome: Outcome,
    found: Result<(u16, u32, nat), Seq<char>>,
    s: nat,
)
    requires
        tells(outcome, found),
    ensures
        outcome is Failed <==> found is Err,
        found matches Err(message) ==> {
            let line = outcome->Failed_0@;
            &&& line.take(line.len() - message.len()) == "probe: decode failed: "@
            &&& line.skip(line.len() - message.len()) == message
        },
        found matches Ok((channels, rate, samples)) ==> {
            let second = channels as nat * rate as nat;
            &&& outcome is Decoded <==> channels > 0 && rate > 0 && samples <= u64::MAX
            &&& outcome is Decoded && s * second <= samples < (s + 1) * second
                ==> outcome->Decoded_0@ == "probe: ok — "@ + text::decimal(channels as nat)
                + " ch, "@ + text::decimal(rate as nat) + " Hz, "@ + text::decimal(samples)
                + " samples (~"@ + text::decimal(s) + "s audio)"@
        },
        !(outcome is Refused),
{
    match found {
        Ok((channels, rate, samples)) => {
            let second = channels as nat * rate as nat;
            if channels > 0 && rate > 0 && s * second <= samples < (s + 1) * second {
                report_gives_the_duration(channels as nat, rate as nat, samples, s);
            }
        },
        Err(message) => {
            let line = outcome->Failed_0@;
            assert(line.take(line.len() - message.len()) =~= "probe: decode failed: "@);
            assert(line.skip(line.len() - message.len()) =~= message);
        },
    }
}

/// A download keeps the bytes that come in, in order, up to as many as are
/// wanted. It asks for more exactly when the stream goes on and there are too
/// few.
pub proof fn download_takes_what_is_missing(d: DownloadState, chunk: Seq<u8>)
    requires
        d.taken.len() <= d.wanted,
    ensures
        ({
            let after = after_chunk(d, chunk);
            let all = d.taken + chunk;
            &&& after.wanted == d.wanted
            &&& after.taken.len() <= d.wanted
            &&& after.taken.is_prefix_of(all)
            &&& after.taken == all || after.taken.len() == d.wanted
            &&& wants_more(d, chunk) <==> chunk.len() > 0 && all.len() < d.wanted
        }),
{
    let after = after_chunk(d, chunk);
    let all = d.taken + chunk;
    assert(after.taken =~= all.take(after.taken.len() as int));
    if useful(d, chunk.len()) == chunk.len() {
        assert(after.taken =~= all);
    }
}

/// The number in the line about a download is how much was downloaded.
pub proof fn fetched_line_gives_the_number(n: nat)
    ensures
        ({
            let line = fetched_text(n);
            let digits = line.subrange(15, line.len() - 6);
            &&& line.take(15) == "probe: fetched "@
            &&& text::number_in(digits) == n
            &&& digits == text::decimal(n)
            &&& line.skip(line.len() - 6) == " bytes"@
        }),
{
    reveal_strlit("probe: fetched ");
    reveal_strlit(" bytes");
    let line = fetched_text(n);
    text::decimal_reads_as_the_number(n);
    assert(line.take(15) =~= "probe: fetched "@);
    assert(line.subrange(15, line.len() - 6) =~= text::decimal(n));
    assert(line.skip(line.len() - 6) =~= " bytes"@);
}

/// Where the search for something known stops, there is something known, and
/// there is nothing known before.
pub proof fn next_marker_is_the_first(b: Seq<u8>, p: int, j: int)
    requires
        0 <= p <= j,
        j + 16 <= b.len(),
        starts_audio(b, j) || id3::starts_tag(b, j),
    ensures
        next_marker(b, p) matches Some(q) && p <= q <= j && (starts_audio(b, q)
            || id3::starts_tag(b, q)),
    decreases j - p,
{
    if starts_audio(b, p) || id3::starts_tag(b, p) {
    } else {
        next_marker_is_the_first(b, p + 1, j);
    }
}

/// The decoder can be handed any piece without tags, whatever else is in it.
pub proof fn piece_without_tags_is_openable(b: Seq<u8>)
    requires
        forall|i: int| 0 <= i && i + 16 <= b.len() ==> !#[trigger] id3::starts_tag(b, i),
        forall|i: int| #[trigger] mpeg::is_header(b, i) ==> !mpeg::is_tag(b, i),
    ensures
        openable(b),
{
    next_marker_is_ahead(b, 0);
    lemma_marker_is_known(b, 0);
    if let Some(q) = next_marker(b, 0) {
        mpeg::first_frame_is_whole(b, q);
    }
}

/// What the search finds is known.
proof fn lemma_marker_is_known(b: Seq<u8>, p: int)
    ensures
        next_marker(b, p) matches Some(q) ==> starts_audio(b, q) || id3::starts_tag(b, q),
    decreases b.len() - p,
{
    if p < 0 || p + MARKER_LEN > b.len() || starts_audio(b, p) || id3::starts_tag(b, p) {
    } else {
        lemma_marker_is_known(b, p + 1);
    }
}

/// The search for something known goes on byte by byte, and ends when fewer than
/// sixteen bytes are left.
pub proof fn search_for_a_marker_goes_on(b: Seq<u8>, p: int)
    requires
        0 <= p,
    ensures
        p + 16 > b.len() ==> next_marker(b, p) is None,
        p + 16 <= b.len() && !starts_audio(b, p) && !id3::starts_tag(b, p) ==> next_marker(b, p)
            == next_marker(b, p + 1),
{
}

/// Audio is told by its sync word of eleven bits and a version and layer that
/// there are.
pub proof fn audio_is_told_by_two_bytes(b: Seq<u8>, p: int)
    ensures
        starts_audio(b, p) <==> b[p] == 255 && b[p + 1] / 32 == 7 && !(8 <= b[p + 1] % 32 < 16)
            && b[p + 1] % 8 >= 2,
{
}

/// What the decoder meets first decides. Nothing within a mebibyte is no harm;
/// audio has to be such as can be entered; and a tag must not restrict text, and
/// if the decoder can read all of it, the search from its end on decides.
pub proof fn first_thing_met_decides(b: Seq<u8>, p: int)
    requires
        0 <= p,
    ensures
        openable(b) == can_be_searched(b, 0),
        next_marker(b, p) is None ==> can_be_searched(b, p),
        next_marker(b, p) matches Some(q) ==> {
            let end = id3::tag_end(b, q);
            &&& q - p + 2 > 1048576 ==> can_be_searched(b, p)
            &&& q - p + 2 <= 1048576 && starts_audio(b, q) ==> can_be_searched(b, p)
                == mpeg::can_be_entered(b, q)
            &&& q - p + 2 <= 1048576 && !starts_audio(b, q) && id3::restricts_text(b, q)
                ==> !can_be_searched(b, p)
            &&& q - p + 2 <= 1048576 && !starts_audio(b, q) && !id3::restricts_text(b, q) ==> {
                can_be_searched(b, p) == if end <= b.len() && decoded(
                    b.subrange(q, end) + silence(),
                ) is Ok {
                    can_be_searched(b, end)
                } else {
                    true
                }
            }
        },
{
    next_marker_is_ahead(b, p);
}

/// What stands for audio after a tag is one whole frame that is no tag, and can
/// be entered.
#[verifier::spinoff_prover]
#[verifier::rlimit(40)]
pub proof fn silence_is_a_frame_of_audio()
    ensures
        silence().len() == 104,
        mpeg::is_header(silence(), 0),
        mpeg::frame_len(silence(), 0) == 104,
        mpeg::layer(silence(), 0) == 1,
        !mpeg::is_tag(silence(), 0),
        openable(silence()),
{
    let t = silence();
    assert(t[0] == 0xff && t[1] == 0xfb && t[2] == 0x10 && t[3] == 0);
    assert(mpeg::bit_rate(t, 0) == 32);
    assert(mpeg::sample_rate(t, 0) == 44100);
    assert(144 * (32nat * 1000) / 44100nat == 104);
    assert(mpeg::frame_len(t, 0) == 104);
    assert(next_marker(t, 0) == Some(0int));
    assert(mpeg::next_header(t, 0) == Some(0int));
    assert(mpeg::first_frame(t, 0) == Some(0int));
    assert(!mpeg::is_tag(t, 0));
}

/// A probe refuses exactly the pieces that the decoder cannot be handed; of all
/// others it tells whether the decoder accepts them.
pub proof fn probe_refuses_only_what_cannot_be_opened(outcome: Outcome, body: Seq<u8>)
    requires
        answers(outcome, body),
    ensures
        outcome is Refused <==> !openable(body),
        openable(body) ==> tells(outcome, decoded(body)),
        outcome is Failed <==> openable(body) && decoded(body) is Err,
        outcome is Decoded ==> openable(body) && decoded(body) is Ok,
{
}

} // verus!
