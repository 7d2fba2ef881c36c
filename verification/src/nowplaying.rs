//! Track metadata from the AzuraCast now-playing API.

use vstd::prelude::*;
use vstd::string::*;

use crate::ui::UiState;

verus! {

/// How many one-second naps the poller takes between two requests.
pub const NAPS: u8 = 4;

/// The length of a nap in milliseconds.
pub const NAP_MILLIS: u64 = 1000;

/// What the API answers with.
#[derive(Clone, Debug)]
pub struct NowPlaying {
    pub now_playing: Option<Slot>,
}

/// The slot of the programme that is on the air.
#[derive(Clone, Debug)]
pub struct Slot {
    pub song: Option<Song>,
}

/// A track.
#[derive(Clone, Debug)]
pub struct Song {
    pub artist: Option<String>,
    pub title: Option<String>,
}

impl Default for NowPlaying {
    fn default() -> (answer: NowPlaying)
        ensures
            answer.now_playing is None,
    {
        NowPlaying { now_playing: None }
    }
}

impl Default for Slot {
    fn default() -> (slot: Slot)
        ensures
            slot.song is None,
    {
        Slot { song: None }
    }
}

impl Default for Song {
    fn default() -> (song: Song)
        ensures
            song.artist is None,
            song.title is None,
    {
        Song { artist: None, title: None }
    }
}

/// Whether a tag is there and not empty.
pub open spec fn given(tag: Option<String>) -> bool {
    tag is Some && tag->0@.len() > 0
}

/// How a track is shown: "artist — title", just the title without an artist,
/// and not at all without a title.
pub open spec fn song_text(song: Song) -> Option<Seq<char>> {
    if given(song.title) {
        if given(song.artist) {
            Some(song.artist->0@ + " — "@ + song.title->0@)
        } else {
            Some(song.title->0@)
        }
    } else {
        None
    }
}

/// How the track of an answer is shown, if it names one.
pub open spec fn track_text(answer: Option<NowPlaying>) -> Option<Seq<char>> {
    match answer {
        Some(NowPlaying { now_playing: Some(Slot { song: Some(song) }) }) => song_text(song),
        _ => None,
    }
}

/// The text of an optional string.
pub open spec fn optional_text(text: Option<String>) -> Option<Seq<char>> {
    match text {
        Some(t) => Some(t@),
        None => None,
    }
}

/// Whether a tag is there and not empty.
fn is_given(tag: &Option<String>) -> (yes: bool)
    ensures
        yes == given(*tag),
{
    match tag {
        Some(text) => !text.as_str().is_empty(),
        None => false,
    }
}

/// `artist — title` (or just the title when there is no artist), or `None`
/// when there is nothing identifiable to show.
pub fn status_text(song: &Song) -> (text: Option<String>)
    ensures
        optional_text(text) == song_text(*song),
{
    match &song.title {
        Some(title) if is_given(&song.title) => {
            if let Some(artist) = &song.artist {
                if is_given(&song.artist) {
                    let mut text = artist.clone();
                    text.append(" — ");
                    text.append(title.as_str());
                    return Some(text);
                }
            }
            Some(title.clone())
        },
        _ => None,
    }
}

/// What happened since the poller's last action.
pub enum Event {
    /// The poller has just been started.
    Started,
    /// The API was asked; nothing when it did not answer.
    Fetched(Option<NowPlaying>),
    /// A nap is over.
    Napped,
}

/// What the poller does next.
#[derive(Clone, Copy, Debug, PartialEq, Eq, Structural)]
pub enum Action {
    /// Ask the API.
    Fetch,
    /// Sleep for that many milliseconds.
    Nap(u64),
    /// Leave the poller's thread.
    Leave,
}

/// What a poller is, seen from outside.
#[verifier::ext_equal]
pub struct PollerState {
    /// The track that was shown last.
    pub last: Option<Seq<char>>,
    /// How many naps have been taken since the last request.
    pub naps: nat,
}

/// A poller that has shown nothing yet.
pub open spec fn new_poller() -> PollerState {
    PollerState { last: None, naps: 0 }
}

/// The poller and the shown song after an answer of the API: a track that was
/// not the last one shown replaces it.
pub open spec fn after_answer(p: PollerState, song: Seq<char>, answer: Option<NowPlaying>) -> (
    PollerState,
    Seq<char>,
) {
    match track_text(answer) {
        Some(text) => if p.last == Some(text) {
            (PollerState { naps: 0, ..p }, song)
        } else {
            (PollerState { last: Some(text), naps: 0 }, text)
        },
        None => (PollerState { naps: 0, ..p }, song),
    }
}

/// The poller after a nap: the naps start again when there were enough of them.
pub open spec fn after_nap(p: PollerState) -> PollerState {
    PollerState { naps: if p.naps + 1 < NAPS { p.naps + 1 } else { 0 }, ..p }
}

/// The poller's answer to an event: its next state, the song that is shown, and
/// what it does next. It leaves as soon as the player quits, asks again after
/// all the naps, and naps otherwise.
pub open spec fn poll_step(p: PollerState, song: Seq<char>, quit: bool, event: Event) -> (
    PollerState,
    Seq<char>,
    Action,
) {
    match event {
        Event::Started => (p, song, if quit {
            Action::Leave
        } else {
            Action::Fetch
        }),
        Event::Fetched(answer) => {
            let (q, shown) = after_answer(p, song, answer);
            (q, shown, if quit {
                Action::Leave
            } else {
                Action::Nap(NAP_MILLIS)
            })
        },
        Event::Napped => (after_nap(p), song, if quit {
            Action::Leave
        } else if p.naps + 1 < NAPS {
            Action::Nap(NAP_MILLIS)
        } else {
            Action::Fetch
        }),
    }
}

/// Keeps the shown song in step with what is on the air.
pub struct Poller {
    last: Option<String>,
    naps: u8,
}

impl View for Poller {
    type V = PollerState;

    closed spec fn view(&self) -> PollerState {
        PollerState { last: optional_text(self.last), naps: self.naps as nat }
    }
}

impl Poller {
    /// A poller never counts as many naps as it takes.
    pub closed spec fn wf(self) -> bool {
        self.naps < NAPS
    }

    /// A poller that has shown nothing yet.
    pub fn new() -> (poller: Poller)
        ensures
            poller.wf(),
            poller@ == (PollerState { last: None, naps: 0 }),
            poller@ == new_poller(),
    {
        Poller { last: None, naps: 0 }
    }
}

/// How the track of an answer is shown, if it names one.
pub fn current_track(answer: &Option<NowPlaying>) -> (text: Option<String>)
    ensures
        optional_text(text) == track_text(*answer),
{
    match answer {
        Some(data) => match &data.now_playing {
            Some(slot) => match &slot.song {
                Some(song) => status_text(song),
                None => None,
            },
            None => None,
        },
        None => None,
    }
}

/// Advance the poller: given what happened, update the song that `state` shows
/// and say what to do next.
pub fn run(poller: &mut Poller, state: &mut UiState, event: Event) -> (action: Action)
    requires
        old(poller).wf(),
    ensures
        final(poller).wf(),
        (final(poller)@, final(state).song@, action) == poll_step(
            old(poller)@,
            old(state).song@,
            old(state).quit,
            event,
        ),
        final(state).playing == old(state).playing,
        final(state).volume == old(state).volume,
        final(state).prev == old(state).prev,
        final(state).quit == old(state).quit,
{
    match event {
        Event::Started => if state.quit {
            Action::Leave
        } else {
            Action::Fetch
        },
        Event::Fetched(answer) => {
            poller.naps = 0;
            if let Some(text) = current_track(&answer) {
                let seen = match &poller.last {
                    Some(last) => *last == text,
                    None => false,
                };
                if !seen {
                    state.song = text.clone();
                    poller.last = Some(text);
                }
            }
            if state.quit {
                Action::Leave
            } else {
                Action::Nap(NAP_MILLIS)
            }
        },
        Event::Napped => {
            let rested = poller.naps + 1 >= NAPS;
            poller.naps = if rested {
                0
            } else {
                poller.naps + 1
            };
            if state.quit {
                Action::Leave
            } else if rested {
                Action::Fetch
            } else {
                Action::Nap(NAP_MILLIS)
            }
        },
    }
}

/// The shown song is the one that the poller remembers, if it remembers one.
pub open spec fn in_step(p: PollerState, song: Seq<char>) -> bool {
    p.last is None || p.last == Some(song)
}

/// The poller keeps the song in step with the air: starting from any song, what
/// it remembers is what is shown, and an answer that names a track makes that
/// track the shown one.
pub proof fn song_follows_the_track(p: PollerState, song: Seq<char>, quit: bool, event: Event)
    requires
        in_step(p, song),
    ensures
        in_step(poll_step(p, song, quit, event).0, poll_step(p, song, quit, event).1),
        event matches Event::Fetched(answer) ==> (track_text(answer) matches Some(text)
            ==> poll_step(p, song, quit, event).1 == text),
{
}

/// Without an answer, or with one that names no track, the last song stays.
pub proof fn song_outlives_missing_answers(
    p: PollerState,
    song: Seq<char>,
    quit: bool,
    answer: Option<NowPlaying>,
)
    requires
        track_text(answer) is None,
    ensures
        poll_step(p, song, quit, Event::Fetched(answer)).1 == song,
        poll_step(p, song, quit, Event::Fetched(answer)).0.last == p.last,
{
}

/// Once the player quits, the poller leaves whatever happens.
pub proof fn poller_leaves_on_quit(p: PollerState, song: Seq<char>, event: Event)
    ensures
        poll_step(p, song, true, event).2 == Action::Leave,
{
}

/// The poller after `k` naps.
pub open spec fn after_naps(p: PollerState, k: nat) -> PollerState
    decreases k,
{
    if k == 0 {
        p
    } else {
        after_nap(after_naps(p, (k - 1) as nat))
    }
}

/// Between two requests there are four naps of a second each: after an answer
/// the poller naps, goes on napping until the last of the naps, and then asks
/// again with its count back at zero.
pub proof fn four_naps_between_requests(
    p: PollerState,
    song: Seq<char>,
    answer: Option<NowPlaying>,
    k: nat,
)
    requires
        k < NAPS,
    ensures
        ({
            let (q, shown, action) = poll_step(p, song, false, Event::Fetched(answer));
            let (r, still_shown, next) = poll_step(
                after_naps(q, k),
                shown,
                false,
                Event::Napped,
            );
            &&& action == Action::Nap(NAP_MILLIS)
            &&& still_shown == shown
            &&& r.last == q.last
            &&& next == if k + 1 < NAPS {
                Action::Nap(NAP_MILLIS)
            } else {
                Action::Fetch
            }
            &&& k + 1 == NAPS ==> r.naps == 0
        }),
{
    let q = poll_step(p, song, false, Event::Fetched(answer)).0;
    reveal_with_fuel(after_naps, 5);
    assert(after_naps(q, k) == (PollerState { naps: k, ..q }));
}

/// A track is shown exactly when it has a title. What is shown ends with the
/// whole title; before it, when there is an artist, comes the whole artist with
/// a dash between spaces, and nothing otherwise.
pub proof fn track_is_shown_in_full(song: Song)
    ensures
        song_text(song) is Some <==> song.title is Some && song.title->0@.len() > 0,
        song_text(song) matches Some(text) ==> {
            let title = song.title->0@;
            let rest = text.len() - title.len();
            &&& rest >= 0
            &&& text.skip(rest) == title
            &&& if song.artist is Some && song.artist->0@.len() > 0 {
                let artist = song.artist->0@;
                &&& rest == artist.len() + 3
                &&& text.take(artist.len() as int) == artist
                &&& text[rest - 3] == ' '
                &&& text[rest - 2] == '—'
                &&& text[rest - 1] == ' '
            } else {
                rest == 0
            }
        },
{
    reveal_strlit(" — ");
    if let Some(text) = song_text(song) {
        let title = song.title->0@;
        assert(text.skip(text.len() - title.len()) =~= title);
        if given(song.artist) {
            let artist = song.artist->0@;
            assert(text.take(artist.len() as int) =~= artist);
        }
    }
}

/// The track of an answer is that of its song, and there is none where any part
/// of the answer is missing.
pub proof fn answer_names_the_track_of_its_song(answer: Option<NowPlaying>)
    ensures
        track_text(answer) == if answer is Some && answer->0.now_playing is Some
            && answer->0.now_playing->0.song is Some {
            song_text(answer->0.now_playing->0.song->0)
        } else {
            None
        },
{
}

/// Only an answer changes what is shown, and it changes it at most to the track
/// that it names. Nothing else that happens to the poller changes what it
/// remembers.
pub proof fn only_answers_change_the_song(
    p: PollerState,
    song: Seq<char>,
    quit: bool,
    event: Event,
)
    ensures
        ({
            let (after, shown, _) = poll_step(p, song, quit, event);
            let track = match event {
                Event::Fetched(answer) => track_text(answer),
                _ => None,
            };
            &&& track is None ==> shown == song && after.last == p.last
            &&& track is Some ==> after.last == track
            &&& track is Some && p.last != track ==> shown == track->0
            &&& track is Some && p.last == track ==> shown == song
        }),
{
}

/// What the poller comes to after `events`, and what is shown then.
pub open spec fn poll_all(p: PollerState, song: Seq<char>, quit: bool, events: Seq<Event>) -> (
    PollerState,
    Seq<char>,
)
    decreases events.len(),
{
    if events.len() == 0 {
        (p, song)
    } else {
        let (q, shown) = poll_all(p, song, quit, events.drop_last());
        let (after, now_shown, _) = poll_step(q, shown, quit, events.last());
        (after, now_shown)
    }
}

/// The last track that an answer among `events` named, or `song` if none did.
pub open spec fn last_track(song: Seq<char>, events: Seq<Event>) -> Seq<char>
    decreases events.len(),
{
    if events.len() == 0 {
        song
    } else {
        match events.last() {
            Event::Fetched(answer) if track_text(answer) is Some => track_text(answer)->0,
            _ => last_track(song, events.drop_last()),
        }
    }
}

/// The shown song is always the last one that the station named, however many
/// requests failed, named nothing or were waited for since.
pub proof fn shown_song_is_the_last_track(song: Seq<char>, quit: bool, events: Seq<Event>)
    ensures
        ({
            let (after, shown) = poll_all(new_poller(), song, quit, events);
            &&& shown == last_track(song, events)
            &&& after.last is None || after.last == Some(shown)
        }),
    decreases events.len(),
{
    if events.len() > 0 {
        shown_song_is_the_last_track(song, quit, events.drop_last());
    }
}

/// What the poller does next: it asks first, naps for a second after an answer
/// and after each of the first three naps that follow, and asks again after the
/// fourth. Once the player quits it leaves instead.
pub proof fn poller_asks_every_four_seconds(
    p: PollerState,
    song: Seq<char>,
    quit: bool,
    answer: Option<NowPlaying>,
)
    requires
        p.naps < 4,
    ensures
        ({
            let (started, _, first) = poll_step(p, song, quit, Event::Started);
            let (fetched, _, second) = poll_step(p, song, quit, Event::Fetched(answer));
            let (napped, _, third) = poll_step(p, song, quit, Event::Napped);
            &&& started.naps == p.naps
            &&& fetched.naps == 0
            &&& napped.naps == if p.naps == 3 {
                0
            } else {
                p.naps + 1
            }
            &&& quit ==> first == Action::Leave && second == Action::Leave && third == Action::Leave
            &&& !quit ==> first == Action::Fetch && second == Action::Nap(1000)
            &&& !quit && p.naps == 3 ==> third == Action::Fetch
            &&& !quit && p.naps < 3 ==> third == Action::Nap(1000)
        }),
{
}

/// An optional string has a text exactly when it is there, and it is its own.
pub proof fn optional_text_is_the_text(text: String)
    ensures
        optional_text(Some(text)) == Some(text@),
        optional_text(None::<String>) == None::<Seq<char>>,
{
}

} // verus!
