//! When the player connects, starts a decoder, and lets go of the stream.

use vstd::prelude::*;

use crate::ui::UiState;

verus! {

/// How many seconds to wait after a decoder could not be started.
pub const DECODER_PAUSE: u64 = 2;

/// What the player holds between two frames.
#[derive(Clone, Copy, Debug, PartialEq, Eq, Structural)]
pub struct Playback {
    /// There is a live stream.
    pub streaming: bool,
    /// A decoder is being started in the background.
    pub connecting: bool,
}

/// What has to be done in a frame, in this order.
#[derive(Clone, Copy, Debug, PartialEq, Eq, Structural)]
pub struct Step {
    /// Stop the audio output.
    pub stop_audio: bool,
    /// Stop the live stream and let go of it.
    pub close_stream: bool,
    /// Open a live stream.
    pub open_stream: bool,
    /// Start a decoder that reads from the live stream.
    pub start_decoder: bool,
}

/// What a frame does, given whether audio is wanted and whether the output has
/// nothing to play. Paused, everything is let go of. Playing, there is a stream,
/// and an output with nothing to play gets a decoder unless one is on its way.
pub open spec fn tick(pb: Playback, playing: bool, idle: bool) -> (Playback, Step) {
    if playing {
        let start = idle && !pb.connecting;
        (
            Playback { streaming: true, connecting: pb.connecting || start },
            Step {
                stop_audio: false,
                close_stream: false,
                open_stream: !pb.streaming,
                start_decoder: start,
            },
        )
    } else {
        (
            Playback { streaming: false, connecting: false },
            Step {
                stop_audio: !idle,
                close_stream: pb.streaming,
                open_stream: false,
                start_decoder: false,
            },
        )
    }
}

/// What is held at the start.
pub open spec fn nothing_held() -> Playback {
    Playback { streaming: false, connecting: false }
}

/// What is held when a decoder has been started, or has failed.
pub open spec fn after_decoder(pb: Playback) -> Playback {
    Playback { connecting: false, ..pb }
}

/// How many seconds to wait before another decoder may be started.
pub open spec fn pause_after(started: bool) -> u64 {
    if started {
        0
    } else {
        DECODER_PAUSE
    }
}

impl Playback {
    /// Nothing is held yet.
    pub fn new() -> (pb: Playback)
        ensures
            pb == (Playback { streaming: false, connecting: false }),
            pb == nothing_held(),
    {
        Playback { streaming: false, connecting: false }
    }

    /// The decoder that was being started has been started, or has failed.
    pub fn decoder_done(&mut self)
        ensures
            *final(self) == (Playback { connecting: false, ..*old(self) }),
            *final(self) == after_decoder(*old(self)),
    {
        self.connecting = false;
    }
}

/// How many seconds to wait before another decoder may be started, given
/// whether the last one could be.
pub fn decoder_pause(started: bool) -> (secs: u64)
    ensures
        secs == if started {
            0
        } else {
            DECODER_PAUSE
        },
        secs == pause_after(started),
{
    if started {
        0
    } else {
        DECODER_PAUSE
    }
}

/// Advance the live-stream state machine for one frame. `idle` says whether the
/// audio output has nothing to play.
pub fn playback_tick(pb: &mut Playback, state: &UiState, idle: bool) -> (step: Step)
    ensures
        (*final(pb), step) == tick(*old(pb), state.playing, idle),
{
    if !state.playing {
        // Paused: stop audio and tear down the live stream so that resuming
        // reconnects to the current broadcast (never the old position).
        let step = Step {
            stop_audio: !idle,
            close_stream: pb.streaming,
            open_stream: false,
            start_decoder: false,
        };
        pb.streaming = false;
        pb.connecting = false;
        return step;
    }
    let open_stream = !pb.streaming;
    pb.streaming = true;
    let start_decoder = idle && !pb.connecting;
    if start_decoder {
        pb.connecting = true;
    }
    Step { stop_audio: false, close_stream: false, open_stream, start_decoder }
}

/// Resuming after a pause always opens a new stream, so that what is heard is
/// live and never the old position.
pub proof fn resuming_reconnects(pb: Playback, idle: bool, idle_later: bool)
    ensures
        ({
            let (paused, _) = tick(pb, false, idle);
            let (resumed, step) = tick(paused, true, idle_later);
            &&& !paused.streaming && !paused.connecting
            &&& step.open_stream
            &&& step.start_decoder == idle_later
            &&& resumed.streaming
        }),
{
}

/// A pause leaves nothing running: what was held is closed, audio is stopped,
/// and pausing further does nothing more.
pub proof fn pausing_lets_go_of_everything(pb: Playback, idle: bool)
    ensures
        ({
            let (paused, step) = tick(pb, false, idle);
            &&& step.close_stream == pb.streaming
            &&& step.stop_audio == !idle
            &&& tick(paused, false, true) == (
                paused,
                Step {
                    stop_audio: false,
                    close_stream: false,
                    open_stream: false,
                    start_decoder: false,
                },
            )
        }),
{
}

/// Decoders are started one at a time, and only when there is a stream to read
/// from and nothing to play: after a start, no frame starts another before that
/// one is done or playback is paused.
pub proof fn one_decoder_at_a_time(pb: Playback, idle: bool, idle_later: bool)
    requires
        tick(pb, true, idle).1.start_decoder,
    ensures
        idle && !pb.connecting,
        tick(pb, true, idle).0.streaming,
        !tick(tick(pb, true, idle).0, true, idle_later).1.start_decoder,
{
}

/// While audio plays from a live stream, frames change nothing.
pub proof fn steady_playback_is_left_alone(pb: Playback)
    requires
        pb.streaming,
    ensures
        tick(pb, true, false) == (
            pb,
            Step {
                stop_audio: false,
                close_stream: false,
                open_stream: false,
                start_decoder: false,
            },
        ),
{
}

/// A frame in which audio is not wanted never opens a stream and never starts a
/// decoder, whatever was held before it and whether or not the output is idle.
pub proof fn pausing_opens_nothing(pb: Playback, idle: bool)
    ensures
        !tick(pb, false, idle).1.open_stream,
        !tick(pb, false, idle).1.start_decoder,
        !tick(pb, false, idle).0.streaming,
        !tick(pb, false, idle).0.connecting,
{
}

/// A frame in which audio is wanted never stops it and never lets go of the
/// stream.
pub proof fn playing_closes_nothing(pb: Playback, idle: bool)
    ensures
        !tick(pb, true, idle).1.stop_audio,
        !tick(pb, true, idle).1.close_stream,
        tick(pb, true, idle).0.streaming,
{
}

/// What is held is always what the steps say: a stream is opened exactly when
/// there was none and there is one now, and closed exactly when there was one
/// and there is none now; a decoder is on its way exactly while audio is wanted
/// and one was on its way already or is started now. There is a stream exactly
/// while audio is wanted.
pub proof fn steps_account_for_what_is_held(pb: Playback, playing: bool, idle: bool)
    ensures
        ({
            let (after, step) = tick(pb, playing, idle);
            &&& after.streaming == playing
            &&& step.open_stream == (!pb.streaming && after.streaming)
            &&& step.close_stream == (pb.streaming && !after.streaming)
            &&& after.connecting == (playing && (pb.connecting || step.start_decoder))
            &&& step.stop_audio == (!playing && !idle)
        }),
{
}

/// A decoder is started exactly when audio is wanted, there is nothing to play
/// and none is on its way.
pub proof fn decoder_is_started_when_it_is_missing(pb: Playback, playing: bool, idle: bool)
    ensures
        tick(pb, playing, idle).1.start_decoder <==> playing && idle && !pb.connecting,
{
}

/// Once a decoder has been started, or has failed, the stream is still there and
/// the next frame with nothing to play starts another, after no pause in the
/// first case and after two seconds in the second.
pub proof fn decoder_can_be_started_again(pb: Playback, idle: bool)
    ensures
        after_decoder(pb).streaming == pb.streaming,
        tick(after_decoder(pb), true, idle).1.start_decoder == idle,
        pause_after(true) == 0,
        pause_after(false) == 2,
{
}

/// What goes on between the player and the world from one moment to the next.
pub enum Moment {
    /// A frame: whether audio is wanted, and whether the output is idle.
    Frame(bool, bool),
    /// The decoder that was being started is done.
    DecoderDone,
}

/// What is held after `moments`, and how many streams were opened, and closed,
/// on the way.
pub open spec fn play(pb: Playback, moments: Seq<Moment>) -> (Playback, nat, nat)
    decreases moments.len(),
{
    if moments.len() == 0 {
        (pb, 0, 0)
    } else {
        let (held, opened, closed) = play(pb, moments.drop_last());
        match moments.last() {
            Moment::Frame(playing, idle) => {
                let (after, step) = tick(held, playing, idle);
                (
                    after,
                    if step.open_stream {
                        opened + 1
                    } else {
                        opened
                    },
                    if step.close_stream {
                        closed + 1
                    } else {
                        closed
                    },
                )
            },
            Moment::DecoderDone => (after_decoder(held), opened, closed),
        }
    }
}

/// No stream is ever lost or opened twice: however frames follow each other, of
/// all the streams that were opened, all but the one that is held have been
/// closed, and one is held exactly when the last frame wanted audio.
pub proof fn every_stream_is_accounted_for(moments: Seq<Moment>)
    ensures
        ({
            let (held, opened, closed) = play(nothing_held(), moments);
            &&& opened == closed + if held.streaming {
                1nat
            } else {
                0
            }
            &&& moments.len() > 0 && moments.last() is Frame ==> held.streaming
                == moments.last()->Frame_0
        }),
    decreases moments.len(),
{
    if moments.len() > 0 {
        every_stream_is_accounted_for(moments.drop_last());
    }
}

/// The first frame that wants audio opens a stream, and starts a decoder if the
/// output is idle.
pub proof fn first_frame_connects(idle: bool)
    ensures
        tick(nothing_held(), true, idle).1.open_stream,
        tick(nothing_held(), true, idle).1.start_decoder == idle,
{
}

} // verus!
