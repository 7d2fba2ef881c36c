//! A continuous, reconnecting byte stream.
//!
//! `Stream` is the shared engine of the player. A producer fills its bounded
//! ring buffer from an HTTP connection, and decoders take bytes out of it. The
//! producer is a state machine: `Stream::run` is told what happened to the
//! connection and answers with the next thing to do. On any connection error
//! the buffer is cleared and the producer reconnects with exponential backoff,
//! so audio merely stalls while it retries.

use vstd::prelude::*;

verus! {

/// How many bytes of audio the ring buffer holds: 512 KiB.
pub const CAPACITY: usize = 512 * 1024;

/// How many bytes the producer asks the connection for at a time.
pub const READ_CHUNK: usize = 32 * 1024;

/// The delay in seconds before the first retry after a working connection.
pub const FIRST_DELAY: u64 = 1;

/// The delay in seconds that the backoff never exceeds.
pub const LONGEST_DELAY: u64 = 30;

/// What a stream is, seen from outside.
#[verifier::ext_equal]
pub struct StreamState {
    /// The bytes that are waiting to be read, oldest first.
    pub buffered: Seq<u8>,
    /// Whether the producer has been asked to stop.
    pub shutdown: bool,
    /// Where the audio comes from.
    pub url: Seq<char>,
    /// The delay in seconds before the next retry.
    pub backoff: nat,
}

/// What happened on the producer's side since its last action.
#[derive(Clone, Copy, Debug, PartialEq, Eq, Structural)]
pub enum Event {
    /// The producer has just been started.
    Started,
    /// A connection was attempted; true when it was established.
    Connected(bool),
    /// The connection was read: the number of bytes that came, zero at the
    /// clean end of the body, or nothing when the connection was dropped.
    Received(Option<usize>),
    /// All the bytes that came have been written to the buffer.
    Stored,
    /// The delay before a retry has passed.
    Waited,
}

/// What the producer does next.
#[derive(Clone, Copy, Debug, PartialEq, Eq, Structural)]
pub enum Action {
    /// Request the stream's address.
    Connect,
    /// Read a chunk from the connection.
    Receive,
    /// Write that many bytes of the chunk to the buffer.
    Store(usize),
    /// Sleep for that many seconds.
    Wait(u64),
    /// Leave the producer's thread.
    Stop,
}

/// The delay after a failed attempt: twice the previous one, up to the limit.
pub open spec fn next_delay(delay: nat) -> nat {
    if 2 * delay < LONGEST_DELAY {
        2 * delay
    } else {
        LONGEST_DELAY as nat
    }
}

/// The stream after a failed attempt has been waited for: the delay grows and
/// stale bytes are dropped.
pub open spec fn after_retry(s: StreamState) -> StreamState {
    StreamState { buffered: Seq::empty(), backoff: next_delay(s.backoff), ..s }
}

/// The producer's answer to an event: the stream's next state and the action.
/// Once stopped it leaves, whatever happened; an error that it was told of, or
/// was waiting for, still clears the buffer and lengthens the delay.
pub open spec fn producer_step(s: StreamState, event: Event) -> (StreamState, Action) {
    match event {
        Event::Started => (s, going_on(s, Action::Connect)),
        Event::Connected(true) => if s.shutdown {
            (s, Action::Stop)
        } else {
            (StreamState { backoff: FIRST_DELAY as nat, ..s }, Action::Receive)
        },
        Event::Connected(false) | Event::Received(None) => if s.shutdown {
            (after_retry(s), Action::Stop)
        } else {
            (s, Action::Wait(s.backoff as u64))
        },
        Event::Received(Some(n)) => if n == 0 {
            (s, going_on(s, Action::Connect))
        } else {
            (s, going_on(s, Action::Store(n)))
        },
        Event::Stored => (s, going_on(s, Action::Receive)),
        Event::Waited => (after_retry(s), going_on(s, Action::Connect)),
    }
}

/// The action to go on with, unless the stream has been stopped.
pub open spec fn going_on(s: StreamState, action: Action) -> Action {
    if s.shutdown {
        Action::Stop
    } else {
        action
    }
}

/// How many of `offered` bytes fit into the buffer; nothing when the writer
/// has to wait for space, which it never has to once the stream is stopped.
pub open spec fn write_outcome(s: StreamState, offered: nat) -> Option<nat> {
    let free = CAPACITY - s.buffered.len();
    if offered == 0 {
        Some(0)
    } else if free <= 0 {
        if s.shutdown {
            Some(0)
        } else {
            None
        }
    } else if offered < free {
        Some(offered)
    } else {
        Some(free as nat)
    }
}

/// How many bytes a read into a space of `wanted` bytes delivers; nothing when
/// the reader has to wait for the producer.
pub open spec fn read_outcome(s: StreamState, wanted: nat) -> Option<nat> {
    if wanted == 0 {
        Some(0)
    } else if s.buffered.len() == 0 {
        if s.shutdown {
            Some(0)
        } else {
            None
        }
    } else if s.buffered.len() < wanted {
        Some(s.buffered.len())
    } else {
        Some(wanted)
    }
}

/// The stream after the first `n` of the offered bytes were written.
pub open spec fn after_write(s: StreamState, data: Seq<u8>, n: nat) -> StreamState {
    StreamState { buffered: s.buffered + data.take(n as int), ..s }
}

/// The stream after its oldest `n` bytes were read.
pub open spec fn after_read(s: StreamState, n: nat) -> StreamState {
    StreamState { buffered: s.buffered.skip(n as int), ..s }
}

/// A space after the stream's oldest `n` bytes were read to its front.
pub open spec fn filled(s: StreamState, space: Seq<u8>, n: nat) -> Seq<u8> {
    s.buffered.take(n as int) + space.skip(n as int)
}

/// The stream after it has been asked to stop.
pub open spec fn after_stop(s: StreamState) -> StreamState {
    StreamState { shutdown: true, ..s }
}

/// A stream that nothing has happened to yet.
pub open spec fn fresh(url: Seq<char>) -> StreamState {
    StreamState { buffered: Seq::empty(), shutdown: false, url, backoff: FIRST_DELAY as nat }
}

/// The ring buffer. The oldest byte is at `head`, and the `len` buffered bytes
/// follow it, wrapping around at the end of `buf`.
struct Inner {
    buf: Vec<u8>,
    head: usize,
    len: usize,
}

/// The place in a ring with `CAPACITY` slots that lies `i` slots after `head`.
spec fn slot(head: int, i: int) -> int {
    if head + i < CAPACITY {
        head + i
    } else {
        head + i - CAPACITY
    }
}

/// The slot `i` places after `head`.
fn slot_after(head: usize, i: usize) -> (place: usize)
    requires
        head < CAPACITY,
        i <= CAPACITY,
    ensures
        place == slot(head as int, i as int),
        place < CAPACITY,
{
    if head + i < CAPACITY {
        head + i
    } else {
        head + i - CAPACITY
    }
}

impl Inner {
    spec fn wf(self) -> bool {
        &&& self.buf@.len() == CAPACITY
        &&& self.head < CAPACITY
        &&& self.len <= CAPACITY
    }

    /// The buffered bytes, oldest first.
    spec fn bytes(self) -> Seq<u8> {
        Seq::new(self.len as nat, |i: int| self.buf@[slot(self.head as int, i)])
    }

    /// An empty ring.
    fn new() -> (ring: Inner)
        ensures
            ring.wf(),
            ring.bytes() == Seq::<u8>::empty(),
    {
        let ring = Inner { buf: vec![0; CAPACITY], head: 0, len: 0 };
        assert(ring.bytes() =~= Seq::<u8>::empty());
        ring
    }

    /// Puts one byte behind the others.
    fn push(&mut self, byte: u8)
        requires
            old(self).wf(),
            old(self).len < CAPACITY,
        ensures
            final(self).wf(),
            final(self).bytes() == old(self).bytes().push(byte),
    {
        let ghost before = *self;
        let end: usize = slot_after(self.head, self.len);
        self.buf.set(end, byte);
        self.len = self.len + 1;
        assert(self.bytes() =~= before.bytes().push(byte));
    }

    /// Takes the oldest byte out.
    fn pop(&mut self) -> (byte: u8)
        requires
            old(self).wf(),
            old(self).len > 0,
        ensures
            final(self).wf(),
            byte == old(self).bytes()[0],
            final(self).bytes() == old(self).bytes().skip(1),
    {
        let ghost before = *self;
        let byte: u8 = self.buf[self.head];
        self.head = slot_after(self.head, 1);
        self.len = self.len - 1;
        assert(self.bytes() =~= before.bytes().skip(1));
        byte
    }

    /// Drops every buffered byte.
    fn clear(&mut self)
        requires
            old(self).wf(),
        ensures
            final(self).wf(),
            final(self).bytes() == Seq::<u8>::empty(),
    {
        self.head = 0;
        self.len = 0;
        assert(self.bytes() =~= Seq::<u8>::empty());
    }
}

/// A reconnecting byte stream with a bounded buffer.
pub struct Stream {
    inner: Inner,
    shutdown: bool,
    url: String,
    backoff: u64,
}

impl View for Stream {
    type V = StreamState;

    closed spec fn view(&self) -> StreamState {
        StreamState {
            buffered: self.inner.bytes(),
            shutdown: self.shutdown,
            url: self.url@,
            backoff: self.backoff as nat,
        }
    }
}

impl Stream {
    /// What every operation keeps: the ring is in order and the backoff stays
    /// within its limits.
    pub closed spec fn wf(self) -> bool {
        &&& self.inner.wf()
        &&& FIRST_DELAY <= self.backoff <= LONGEST_DELAY
    }

    /// Every stream's buffer stays within its capacity, and its delay between
    /// one second and the limit.
    pub proof fn stays_within_limits(self)
        requires
            self.wf(),
        ensures
            self@.buffered.len() <= CAPACITY,
            FIRST_DELAY <= self@.backoff <= LONGEST_DELAY,
    {
    }

    /// A stream for `url` with an empty buffer.
    pub fn new(url: String) -> (stream: Stream)
        ensures
            stream.wf(),
            stream@ == (StreamState {
                buffered: Seq::empty(),
                shutdown: false,
                url: url@,
                backoff: FIRST_DELAY as nat,
            }),
            stream@ == fresh(url@),
    {
        Stream { inner: Inner::new(), shutdown: false, url, backoff: FIRST_DELAY }
    }

    /// Where the audio comes from.
    pub fn url(&self) -> (url: &str)
        ensures
            url@ == self@.url,
    {
        self.url.as_str()
    }

    /// Ask the producer to stop and let whoever waits for the stream go on.
    pub fn stop(&mut self)
        requires
            old(self).wf(),
        ensures
            final(self).wf(),
            final(self)@ == (StreamState { shutdown: true, ..old(self)@ }),
            final(self)@ == after_stop(old(self)@),
    {
        self.shutdown = true;
    }

    /// A handle over this stream's buffer.
    pub fn reader(&mut self) -> (reader: Reader<'_>)
        ensures
            *reader.0 == *old(self),
            *final(self) == *final(reader.0),
    {
        Reader(self)
    }

    /// Advance the producer: given what happened to the connection, update the
    /// stream and say what to do next. Once the stream is stopped, that is to
    /// leave.
    pub fn run(&mut self, event: Event) -> (action: Action)
        requires
            old(self).wf(),
        ensures
            final(self).wf(),
            (final(self)@, action) == producer_step(old(self)@, event),
    {
        match event {
            Event::Started => self.unless_stopped(Action::Connect),
            Event::Connected(true) => {
                if !self.shutdown {
                    self.backoff = FIRST_DELAY;
                }
                self.unless_stopped(Action::Receive)
            },
            Event::Connected(false) => self.fail(),
            Event::Received(read) => self.pump(read),
            Event::Stored => self.unless_stopped(Action::Receive),
            Event::Waited => {
                self.schedule_retry();
                self.unless_stopped(Action::Connect)
            },
        }
    }

    /// What follows a read from the connection: store what came, reconnect at
    /// the end of the body, back off when the connection was dropped.
    fn pump(&mut self, read: Option<usize>) -> (action: Action)
        requires
            old(self).wf(),
        ensures
            final(self).wf(),
            (final(self)@, action) == producer_step(old(self)@, Event::Received(read)),
    {
        match read {
            Some(n) => if n == 0 {
                self.unless_stopped(Action::Connect)
            } else {
                self.unless_stopped(Action::Store(n))
            },
            None => self.fail(),
        }
    }

    /// The action to go on with, unless the stream has been stopped.
    fn unless_stopped(&self, action: Action) -> (next: Action)
        ensures
            next == going_on(self@, action),
    {
        if self.shutdown {
            Action::Stop
        } else {
            action
        }
    }

    /// What follows a connection error: the delay, or what it leads to at once
    /// when nobody waits for a new connection any more.
    fn fail(&mut self) -> (action: Action)
        requires
            old(self).wf(),
        ensures
            final(self).wf(),
            (final(self)@, action) == producer_step(old(self)@, Event::Connected(false)),
    {
        if self.shutdown {
            self.schedule_retry();
            Action::Stop
        } else {
            Action::Wait(self.backoff)
        }
    }

    /// Lengthen the delay, and drop stale buffered bytes so that audio from
    /// before the reconnect is not replayed.
    pub fn schedule_retry(&mut self)
        requires
            old(self).wf(),
        ensures
            final(self).wf(),
            final(self)@ == after_retry(old(self)@),
    {
        if self.backoff * 2 < LONGEST_DELAY {
            self.backoff = self.backoff * 2;
        } else {
            self.backoff = LONGEST_DELAY;
        }
        self.inner.clear();
    }

    /// Append as much of `data` as fits and return how much that was; nothing
    /// when there is no space and the writer has to wait. Zero bytes of a
    /// non-empty `data` mean that the stream has been stopped.
    pub fn write(&mut self, data: &[u8]) -> (written: Option<usize>)
        requires
            old(self).wf(),
        ensures
            final(self).wf(),
            match write_outcome(old(self)@, data@.len()) {
                Some(n) => written is Some && written->0 == n && final(self)@ == after_write(
                    old(self)@,
                    data@,
                    n,
                ),
                None => written is None && final(self)@ == old(self)@,
            },
    {
        let ghost before = self@;
        if data.len() == 0 {
            assert(self@ =~= after_write(before, data@, 0));
            return Some(0);
        }
        if self.inner.len == CAPACITY {
            assert(self@ =~= after_write(before, data@, 0));
            return if self.shutdown {
                Some(0)
            } else {
                None
            };
        }
        let free: usize = CAPACITY - self.inner.len;
        let n: usize = if data.len() < free {
            data.len()
        } else {
            free
        };
        let mut i: usize = 0;
        assert(self@ =~= after_write(before, data@, 0));
        while i < n
            invariant
                i <= n <= data@.len(),
                n <= CAPACITY - before.buffered.len(),
                self.wf(),
                self@ == after_write(before, data@, i as nat),
            decreases n - i,
        {
            assert(self@.buffered.len() == self.inner.len);
            self.inner.push(data[i]);
            i = i + 1;
            assert(self@ =~= after_write(before, data@, i as nat));
        }
        Some(n)
    }

    /// Move the oldest buffered bytes to the front of `out` and return how many
    /// there were; nothing when none is there yet and the reader has to wait.
    /// Zero bytes for a non-empty `out` mean that the stream has been stopped.
    pub fn read(&mut self, out: &mut [u8]) -> (delivered: Option<usize>)
        requires
            old(self).wf(),
        ensures
            final(self).wf(),
            match read_outcome(old(self)@, old(out)@.len()) {
                Some(n) => {
                    &&& delivered is Some && delivered->0 == n
                    &&& final(self)@ == after_read(old(self)@, n)
                    &&& final(out)@ == old(self)@.buffered.take(n as int) + old(out)@.skip(n as int)
                    &&& final(out)@ == filled(old(self)@, old(out)@, n)
                },
                None => delivered is None && final(self)@ == old(self)@ && final(out)@ == old(out)@,
            },
    {
        let ghost before = self@;
        let ghost space = out@;
        proof {
            assert(before =~= after_read(before, 0));
            assert(space =~= before.buffered.take(0) + space.skip(0));
        }
        if out.len() == 0 {
            return Some(0);
        }
        if self.inner.len == 0 {
            return if self.shutdown {
                Some(0)
            } else {
                None
            };
        }
        let n: usize = if self.inner.len < out.len() {
            self.inner.len
        } else {
            out.len()
        };
        let mut i: usize = 0;
        while i < n
            invariant
                i <= n <= before.buffered.len(),
                n <= space.len(),
                self.wf(),
                self@ == after_read(before, i as nat),
                out@ == before.buffered.take(i as int) + space.skip(i as int),
            decreases n - i,
        {
            assert(self@.buffered.len() == self.inner.len);
            out[i] = self.inner.pop();
            i = i + 1;
            assert(self@ =~= after_read(before, i as nat));
            assert(out@ =~= before.buffered.take(i as int) + space.skip(i as int));
        }
        Some(n)
    }
}

/// A handle over a stream's buffer that reads and seeks as decoders expect.
pub struct Reader<'a>(pub &'a mut Stream);

impl<'a> Reader<'a> {
    /// Read from the stream, as `Stream::read` does.
    pub fn read(&mut self, out: &mut [u8]) -> (delivered: Option<usize>)
        requires
            old(self).0.wf(),
        ensures
            final(self).0.wf(),
            *final(final(self).0) == *final(old(self).0),
            match read_outcome(old(self).0@, old(out)@.len()) {
                Some(n) => {
                    &&& delivered is Some && delivered->0 == n
                    &&& final(self).0@ == after_read(old(self).0@, n)
                    &&& final(out)@ == old(self).0@.buffered.take(n as int) + old(out)@.skip(
                        n as int,
                    )
                    &&& final(out)@ == filled(old(self).0@, old(out)@, n)
                },
                None => {
                    &&& delivered is None
                    &&& final(self).0@ == old(self).0@
                    &&& final(out)@ == old(out)@
                },
            },
    {
        self.0.read(out)
    }

    /// Live streams are not seekable: wherever a decoder wants to go, nothing
    /// moves and the position is reported as zero.
    pub fn seek(&mut self) -> (position: u64)
        ensures
            position == 0,
            *final(self) == *old(self),
    {
        0
    }
}

/// One use of the buffer: bytes offered by the producer, or a number of bytes
/// wanted by a decoder.
pub enum Transfer {
    Write(Seq<u8>),
    Read(nat),
}

/// What a run of transfers does.
pub struct Transferred {
    /// The stream afterwards.
    pub state: StreamState,
    /// The bytes that went in, in order.
    pub stored: Seq<u8>,
    /// The bytes that came out, in order.
    pub delivered: Seq<u8>,
}

/// The outcome of `transfers`, made one after the other on the stream `s`.
pub open spec fn transfer_all(s: StreamState, transfers: Seq<Transfer>) -> Transferred
    decreases transfers.len(),
{
    if transfers.len() == 0 {
        Transferred { state: s, stored: Seq::empty(), delivered: Seq::empty() }
    } else {
        let t = transfer_all(s, transfers.drop_last());
        match transfers.last() {
            Transfer::Write(data) => match write_outcome(t.state, data.len()) {
                Some(n) => Transferred {
                    state: after_write(t.state, data, n),
                    stored: t.stored + data.take(n as int),
                    ..t
                },
                None => t,
            },
            Transfer::Read(wanted) => match read_outcome(t.state, wanted) {
                Some(n) => Transferred {
                    state: after_read(t.state, n),
                    delivered: t.delivered + t.state.buffered.take(n as int),
                    ..t
                },
                None => t,
            },
        }
    }
}

/// However writes and reads follow each other, decoders get exactly the bytes
/// that the producer stored, in order: what came out, followed by what is still
/// buffered, is what was buffered at first, followed by what went in. The
/// buffer never grows beyond its capacity, and nothing else changes.
pub proof fn transfers_keep_every_byte_in_order(s: StreamState, transfers: Seq<Transfer>)
    requires
        s.buffered.len() <= CAPACITY,
    ensures
        ({
            let t = transfer_all(s, transfers);
            &&& t.delivered + t.state.buffered == s.buffered + t.stored
            &&& t.state.buffered.len() <= CAPACITY
            &&& t.state == (StreamState { buffered: t.state.buffered, ..s })
        }),
    decreases transfers.len(),
{
    if transfers.len() == 0 {
        assert(Seq::<u8>::empty() + s.buffered =~= s.buffered + Seq::<u8>::empty());
    } else {
        transfers_keep_every_byte_in_order(s, transfers.drop_last());
        let t = transfer_all(s, transfers.drop_last());
        let u = transfer_all(s, transfers);
        match transfers.last() {
            Transfer::Write(data) => {
                if let Some(n) = write_outcome(t.state, data.len()) {
                    assert(t.delivered + (t.state.buffered + data.take(n as int)) =~= (t.delivered
                        + t.state.buffered) + data.take(n as int));
                    assert(s.buffered + (t.stored + data.take(n as int)) =~= (s.buffered + t.stored)
                        + data.take(n as int));
                }
            },
            Transfer::Read(wanted) => {
                if let Some(n) = read_outcome(t.state, wanted) {
                    let b = t.state.buffered;
                    assert(b.take(n as int) + b.skip(n as int) =~= b);
                    assert((t.delivered + b.take(n as int)) + b.skip(n as int) =~= t.delivered + (
                    b.take(n as int) + b.skip(n as int)));
                }
            },
        }
    }
}

/// A write that had to wait in between stores the same bytes as one that did
/// not: taking `n` bytes and later `m` of the rest is taking `n + m`.
pub proof fn resumed_write_stores_the_same(s: StreamState, data: Seq<u8>, n: nat, m: nat)
    requires
        n + m <= data.len(),
    ensures
        after_write(after_write(s, data, n), data.skip(n as int), m) == after_write(s, data, n + m),
{
    assert(after_write(after_write(s, data, n), data.skip(n as int), m).buffered =~= after_write(
        s,
        data,
        n + m,
    ).buffered);
}

/// What one write put into an empty buffer is what one read of that size takes
/// out, and the buffer is empty again.
pub proof fn read_gives_back_what_was_written(s: StreamState, data: Seq<u8>)
    requires
        s.buffered.len() == 0,
        0 < data.len() <= CAPACITY,
    ensures
        write_outcome(s, data.len()) == Some(data.len()),
        ({
            let t = after_write(s, data, data.len());
            &&& read_outcome(t, data.len()) == Some(data.len())
            &&& t.buffered.take(data.len() as int) == data
            &&& after_read(t, data.len()) == s
        }),
{
    let t = after_write(s, data, data.len());
    assert(t.buffered =~= data);
    assert(t.buffered.take(data.len() as int) =~= data);
    assert(after_read(t, data.len()).buffered =~= s.buffered);
}

/// While the stream runs, a read into a non-empty space never reports zero
/// bytes, so a decoder never takes a stall for the end of the audio.
pub proof fn running_stream_never_ends(s: StreamState, wanted: nat)
    requires
        !s.shutdown,
        wanted > 0,
    ensures
        read_outcome(s, wanted) != Some(0nat),
        read_outcome(s, wanted) is None <==> s.buffered.len() == 0,
{
}

/// Once stopped, a stream winds down whatever happens: the producer leaves at
/// the next event, the stream stays stopped, and neither a reader nor a writer
/// waits. Only a connection error changes anything any more: it clears the
/// buffer and lengthens the delay, as it does while the stream runs.
pub proof fn stopped_stream_winds_down(s: StreamState, event: Event, wanted: nat, offered: nat)
    requires
        s.shutdown,
    ensures
        producer_step(s, event).1 == Action::Stop,
        producer_step(s, event).0 == if event == Event::Connected(false) || event
            == Event::Received(None) || event == Event::Waited {
            after_retry(s)
        } else {
            s
        },
        producer_step(s, event).0.shutdown,
        read_outcome(s, wanted) is Some,
        write_outcome(s, offered) is Some,
{
}

/// Unless stopped, the producer never leaves its thread, and nothing that it
/// does changes the address it connects to.
pub proof fn running_producer_goes_on(s: StreamState, event: Event)
    requires
        !s.shutdown,
    ensures
        producer_step(s, event).1 != Action::Stop,
        !producer_step(s, event).0.shutdown,
        producer_step(s, event).0.url == s.url,
{
}

/// Any connection error, whether the attempt failed or the connection was
/// dropped, is followed by the current delay; after it the buffer is empty, the
/// delay has grown, and the producer connects again.
pub proof fn connection_error_backs_off_and_clears(s: StreamState, error: Event)
    requires
        !s.shutdown,
        error == Event::Connected(false) || error == Event::Received(None),
    ensures
        producer_step(s, error) == (s, Action::Wait(s.backoff as u64)),
        ({
            let (t, action) = producer_step(s, Event::Waited);
            &&& t.buffered.len() == 0
            &&& t.backoff == next_delay(s.backoff)
            &&& action == Action::Connect
        }),
{
}

/// The stream after `k` failed attempts in a row.
pub open spec fn after_failures(s: StreamState, k: nat) -> StreamState
    decreases k,
{
    if k == 0 {
        s
    } else {
        after_retry(after_failures(s, (k - 1) as nat))
    }
}

/// The backoff is exponential: after `k` failed attempts since a working
/// connection the next one is followed by a delay of two to the power of `k`
/// seconds, but never longer than the limit. Nothing that was buffered before a
/// failed attempt is left after it, and neither the address nor the request to
/// stop changes.
pub proof fn backoff_doubles_up_to_the_limit(s: StreamState, k: nat)
    requires
        s.backoff == FIRST_DELAY,
    ensures
        ({
            let t = after_failures(s, k);
            let delay = if vstd::arithmetic::power2::pow2(k) < LONGEST_DELAY {
                vstd::arithmetic::power2::pow2(k)
            } else {
                LONGEST_DELAY as nat
            };
            &&& t.backoff == delay
            &&& !s.shutdown ==> producer_step(t, Event::Connected(false)).1 == Action::Wait(
                delay as u64,
            )
            &&& k > 0 ==> t.buffered.len() == 0
            &&& t.url == s.url
            &&& t.shutdown == s.shutdown
        }),
    decreases k,
{
    if k == 0 {
        vstd::arithmetic::power2::lemma2_to64();
    } else {
        backoff_doubles_up_to_the_limit(s, (k - 1) as nat);
        vstd::arithmetic::power2::lemma_pow2_unfold(k);
    }
}

/// While the stream runs, a connection that is established resets the delay and
/// keeps the buffer.
pub proof fn working_connection_resets_the_backoff(s: StreamState)
    requires
        !s.shutdown,
    ensures
        producer_step(s, Event::Connected(true)).0 == (StreamState {
            backoff: FIRST_DELAY as nat,
            ..s
        }),
{
}

/// The producer itself never adds to the buffer, and removes bytes from it only
/// for a connection error: all of them, when the wait after the error is over or
/// when it turns out that the stream has been stopped. It never changes the
/// address or the request to stop.
pub proof fn only_an_error_drops_bytes(s: StreamState, event: Event)
    ensures
        ({
            let t = producer_step(s, event).0;
            let error = event == Event::Connected(false) || event == Event::Received(None);
            &&& event != Event::Waited && !(error && s.shutdown) ==> t.buffered == s.buffered
            &&& event == Event::Waited || (error && s.shutdown) ==> t.buffered.len() == 0
            &&& t.url == s.url
            &&& t.shutdown == s.shutdown
        }),
{
}

/// The delay between attempts is one second after a connection has worked, twice
/// what it was, but at most thirty seconds, after an error has been dealt with,
/// and otherwise what it was.
pub proof fn delay_follows_the_connection(s: StreamState, event: Event)
    ensures
        ({
            let delay = producer_step(s, event).0.backoff;
            let error = event == Event::Connected(false) || event == Event::Received(None);
            let worked = event == Event::Connected(true) && !s.shutdown;
            let failed = event == Event::Waited || (error && s.shutdown);
            &&& worked ==> delay == 1
            &&& failed && s.backoff <= 15 ==> delay == 2 * s.backoff
            &&& failed && s.backoff >= 15 ==> delay == 30
            &&& !worked && !failed ==> delay == s.backoff
        }),
{
}

/// What the producer is sent to do, and when: it stores exactly the bytes that
/// came, reads on while the connection works, connects at the start, after the
/// end of a body and after a wait, and waits for the current delay after an
/// error. It leaves exactly when the stream has been stopped.
pub proof fn producer_does_what_is_due(s: StreamState, event: Event, n: usize, secs: u64)
    requires
        s.backoff <= u64::MAX,
    ensures
        ({
            let action = producer_step(s, event).1;
            let error = event == Event::Connected(false) || event == Event::Received(None);
            &&& action == Action::Stop <==> s.shutdown
            &&& action == Action::Store(n) <==> !s.shutdown && n > 0 && event == Event::Received(
                Some(n),
            )
            &&& action == Action::Receive <==> !s.shutdown && (event == Event::Connected(true)
                || event == Event::Stored)
            &&& action == Action::Connect <==> !s.shutdown && (event == Event::Started || event
                == Event::Waited || event == Event::Received(Some(0)))
            &&& action == Action::Wait(secs) <==> !s.shutdown && error && secs == s.backoff
        }),
{
}

/// Anything that can happen to a stream.
pub enum Turn {
    /// Bytes are offered by the producer.
    Write(Seq<u8>),
    /// A number of bytes is wanted by a decoder.
    Read(nat),
    /// The producer is told of an event.
    Produce(Event),
    /// The stream is asked to stop.
    Stop,
}

/// The outcome of `turns`, taken one after the other on the stream `s`.
pub open spec fn take_turns(s: StreamState, turns: Seq<Turn>) -> Transferred
    decreases turns.len(),
{
    if turns.len() == 0 {
        Transferred { state: s, stored: Seq::empty(), delivered: Seq::empty() }
    } else {
        let t = take_turns(s, turns.drop_last());
        match turns.last() {
            Turn::Write(data) => match write_outcome(t.state, data.len()) {
                Some(n) => Transferred {
                    state: after_write(t.state, data, n),
                    stored: t.stored + data.take(n as int),
                    ..t
                },
                None => t,
            },
            Turn::Read(wanted) => match read_outcome(t.state, wanted) {
                Some(n) => Transferred {
                    state: after_read(t.state, n),
                    delivered: t.delivered + filled(
                        t.state,
                        Seq::new(wanted, |i: int| 0u8),
                        n,
                    ).take(n as int),
                    ..t
                },
                None => t,
            },
            Turn::Produce(event) => Transferred { state: producer_step(t.state, event).0, ..t },
            Turn::Stop => Transferred { state: after_stop(t.state), ..t },
        }
    }
}

/// Live audio is streamed without loss: however writes, reads, the producer's
/// events and a request to stop follow each other, as long as no connection
/// error is among them, decoders get exactly the bytes that were stored, in
/// order, and what they have not got yet is what is buffered, at most 512 KiB.
pub proof fn audio_is_streamed_without_loss(s: StreamState, turns: Seq<Turn>)
    requires
        s.buffered.len() <= 524288,
        forall|i: int|
            #![trigger turns[i]]
            0 <= i < turns.len() && turns[i] is Produce ==> {
                let event = turns[i]->Produce_0;
                &&& event != Event::Connected(false)
                &&& event != Event::Received(None)
                &&& event != Event::Waited
            },
    ensures
        ({
            let t = take_turns(s, turns);
            &&& t.delivered + t.state.buffered == s.buffered + t.stored
            &&& t.state.buffered.len() <= 524288
            &&& t.state.url == s.url
            &&& s.shutdown ==> t.state.shutdown
        }),
    decreases turns.len(),
{
    let t = take_turns(s, turns);
    if turns.len() == 0 {
        assert(t.delivered + t.state.buffered =~= s.buffered + t.stored);
    } else {
        let before = turns.drop_last();
        assert forall|i: int| #![trigger before[i]] 0 <= i < before.len() && before[i] is Produce implies {
            let event = before[i]->Produce_0;
            &&& event != Event::Connected(false)
            &&& event != Event::Received(None)
            &&& event != Event::Waited
        } by {
            assert(before[i] == turns[i]);
        }
        audio_is_streamed_without_loss(s, before);
        let u = take_turns(s, before);
        let last = turns[turns.len() - 1];
        match last {
            Turn::Write(data) => {
                if let Some(n) = write_outcome(u.state, data.len()) {
                    assert(t.delivered + t.state.buffered =~= (u.delivered + u.state.buffered)
                        + data.take(n as int));
                    assert(s.buffered + t.stored =~= (s.buffered + u.stored) + data.take(n as int));
                }
            },
            Turn::Read(wanted) => {
                if let Some(n) = read_outcome(u.state, wanted) {
                    let b = u.state.buffered;
                    let space = Seq::new(wanted, |i: int| 0u8);
                    assert(filled(u.state, space, n).take(n as int) =~= b.take(n as int));
                    assert(t.delivered + t.state.buffered =~= u.delivered + u.state.buffered);
                }
            },
            Turn::Produce(event) => {
                only_an_error_drops_bytes(u.state, event);
            },
            Turn::Stop => {},
        }
    }
}

/// A write takes as much as fits: everything that is offered, or as much of it
/// as fills the buffer. It waits exactly when a running stream has no space.
pub proof fn write_takes_what_fits(s: StreamState, offered: nat)
    requires
        s.buffered.len() <= 524288,
    ensures
        match write_outcome(s, offered) {
            Some(n) => {
                &&& n <= offered
                &&& s.buffered.len() + n <= 524288
                &&& n == offered || s.buffered.len() + n == 524288
                &&& n == 0 && offered > 0 ==> s.shutdown
            },
            None => !s.shutdown && offered > 0 && s.buffered.len() == 524288,
        },
{
}

/// A read delivers as much as there is: as much as is wanted, or everything that
/// is buffered. It waits exactly when a running stream has nothing. What it
/// delivers are the oldest bytes, at the front of the space, and the rest of the
/// space stays as it was.
pub proof fn read_delivers_what_is_there(s: StreamState, space: Seq<u8>)
    ensures
        match read_outcome(s, space.len()) {
            Some(n) => {
                &&& n <= space.len()
                &&& n <= s.buffered.len()
                &&& n == space.len() || n == s.buffered.len()
                &&& n == 0 && space.len() > 0 ==> s.shutdown
                &&& filled(s, space, n).len() == space.len()
                &&& forall|i: int|
                    0 <= i < space.len() ==> #[trigger] filled(s, space, n)[i] == (if i < n {
                        s.buffered[i]
                    } else {
                        space[i]
                    })
                &&& after_read(s, n).buffered.len() == s.buffered.len() - n
                &&& forall|i: int|
                    0 <= i < s.buffered.len() - n ==> #[trigger] after_read(s, n).buffered[i]
                        == s.buffered[n + i]
            },
            None => !s.shutdown && space.len() > 0 && s.buffered.len() == 0,
        },
{
}

/// Stopping loses nothing that is buffered: decoders still get it, and only then
/// the end.
pub proof fn stopping_loses_nothing(s: StreamState, wanted: nat)
    requires
        wanted > 0,
    ensures
        ({
            let t = after_stop(s);
            &&& t.shutdown
            &&& t.buffered == s.buffered
            &&& t.url == s.url
            &&& t.backoff == s.backoff
            &&& read_outcome(t, wanted) == Some(0nat) <==> s.buffered.len() == 0
            &&& s.buffered.len() > 0 ==> read_outcome(t, wanted) == read_outcome(s, wanted)
        }),
{
}

/// A new stream has nothing to read yet, takes up to 512 KiB, connects to its
/// address when its producer starts, and waits a second after a first failure.
pub proof fn new_stream_is_ready(url: Seq<char>, wanted: nat, offered: nat)
    ensures
        ({
            let s = fresh(url);
            &&& s.url == url
            &&& wanted > 0 ==> read_outcome(s, wanted) is None
            &&& offered <= 524288 ==> write_outcome(s, offered) == Some(offered)
            &&& offered > 524288 ==> write_outcome(s, offered) == Some(524288nat)
            &&& producer_step(s, Event::Started).1 == Action::Connect
            &&& producer_step(s, Event::Connected(false)).1 == Action::Wait(1)
        }),
{
}

} // verus!
