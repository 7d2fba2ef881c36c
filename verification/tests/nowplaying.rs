use coderadio::nowplaying::{
    current_track, run, status_text, Action, Event, NowPlaying, Poller, Slot, Song,
};
use coderadio::ui::UiState;

fn song(artist: &str, title: &str) -> Song {
    Song {
        artist: Some(artist.to_string()),
        title: Some(title.to_string()),
    }
}

fn answer(artist: &str, title: &str) -> Option<NowPlaying> {
    Some(NowPlaying {
        now_playing: Some(Slot {
            song: Some(song(artist, title)),
        }),
    })
}

#[test]
fn formats_artist_and_title() {
    assert_eq!(
        status_text(&song("Nym", "Come Back")),
        Some("Nym — Come Back".into())
    );
}

#[test]
fn falls_back_to_title_without_artist() {
    assert_eq!(status_text(&song("", "Interlude")), Some("Interlude".into()));
}

#[test]
fn recognizes_missing_track() {
    assert_eq!(status_text(&Song::default()), None);
}

#[test]
fn title_is_what_identifies_a_track() {
    let no_artist = Song {
        artist: None,
        title: Some("Interlude".to_string()),
    };
    assert_eq!(status_text(&no_artist), Some("Interlude".into()));
    let no_title = Song {
        artist: Some("Nym".to_string()),
        title: None,
    };
    assert_eq!(status_text(&no_title), None);
    assert_eq!(status_text(&song("Nym", "")), None);
    assert_eq!(status_text(&song("", "")), None);
}

#[test]
fn track_of_an_answer() {
    assert_eq!(current_track(&None), None);
    assert_eq!(current_track(&Some(NowPlaying::default())), None);
    let empty_slot = Some(NowPlaying {
        now_playing: Some(Slot::default()),
    });
    assert_eq!(current_track(&empty_slot), None);
    assert_eq!(
        current_track(&answer("Nym", "Come Back")),
        Some("Nym — Come Back".into())
    );
}

#[test]
fn poller_shows_tracks_and_keeps_the_last_one() {
    let mut poller = Poller::new();
    let mut state = UiState::new(100);
    assert_eq!(run(&mut poller, &mut state, Event::Started), Action::Fetch);
    let next = run(&mut poller, &mut state, Event::Fetched(answer("A", "One")));
    assert_eq!(next, Action::Nap(1000));
    assert_eq!(state.song, "A — One");
    run(&mut poller, &mut state, Event::Fetched(None));
    assert_eq!(state.song, "A — One");
    run(&mut poller, &mut state, Event::Fetched(answer("", "")));
    assert_eq!(state.song, "A — One");
    run(&mut poller, &mut state, Event::Fetched(answer("B", "Two")));
    assert_eq!(state.song, "B — Two");
    run(&mut poller, &mut state, Event::Fetched(answer("A", "One")));
    assert_eq!(state.song, "A — One");
}

#[test]
fn poller_writes_only_new_tracks() {
    let mut poller = Poller::new();
    let mut state = UiState::new(100);
    run(&mut poller, &mut state, Event::Fetched(answer("A", "One")));
    state.song = "edited".to_string();
    run(&mut poller, &mut state, Event::Fetched(answer("A", "One")));
    assert_eq!(state.song, "edited");
}

#[test]
fn four_naps_between_two_requests() {
    let mut poller = Poller::new();
    let mut state = UiState::new(100);
    for _ in 0..3 {
        let mut actions = Vec::new();
        actions.push(run(&mut poller, &mut state, Event::Fetched(None)));
        for _ in 0..4 {
            actions.push(run(&mut poller, &mut state, Event::Napped));
        }
        assert_eq!(
            actions,
            vec![
                Action::Nap(1000),
                Action::Nap(1000),
                Action::Nap(1000),
                Action::Nap(1000),
                Action::Fetch
            ]
        );
    }
}

#[test]
fn poller_leaves_when_the_player_quits() {
    let mut state = UiState::new(100);
    state.quit = true;
    let mut poller = Poller::new();
    assert_eq!(run(&mut poller, &mut state, Event::Started), Action::Leave);
    assert_eq!(run(&mut poller, &mut state, Event::Napped), Action::Leave);
    assert_eq!(
        run(&mut poller, &mut state, Event::Fetched(answer("A", "One"))),
        Action::Leave
    );
    assert_eq!(state.song, "A — One");
}
