use coderadio::cli::{listen_url, Cli, LOW_URL, RADIO_URL};
use coderadio::playback::{decoder_pause, playback_tick, Playback, Step};
use coderadio::ui::UiState;

const NOTHING: Step = Step {
    stop_audio: false,
    close_stream: false,
    open_stream: false,
    start_decoder: false,
};

fn state(playing: bool) -> UiState {
    let mut s = UiState::new(100);
    s.playing = playing;
    s
}

#[test]
fn first_frame_opens_a_stream_and_starts_a_decoder() {
    let mut pb = Playback::new();
    let step = playback_tick(&mut pb, &state(true), true);
    assert_eq!(
        step,
        Step {
            open_stream: true,
            start_decoder: true,
            ..NOTHING
        }
    );
    assert!(pb.streaming && pb.connecting);
}

#[test]
fn one_decoder_at_a_time() {
    let mut pb = Playback::new();
    playback_tick(&mut pb, &state(true), true);
    assert_eq!(playback_tick(&mut pb, &state(true), true), NOTHING);
    pb.decoder_done();
    assert_eq!(playback_tick(&mut pb, &state(true), false), NOTHING);
    let step = playback_tick(&mut pb, &state(true), true);
    assert_eq!(
        step,
        Step {
            start_decoder: true,
            ..NOTHING
        }
    );
}

#[test]
fn pause_lets_go_and_resume_reconnects() {
    let mut pb = Playback::new();
    playback_tick(&mut pb, &state(true), true);
    let step = playback_tick(&mut pb, &state(false), false);
    assert_eq!(
        step,
        Step {
            stop_audio: true,
            close_stream: true,
            ..NOTHING
        }
    );
    assert_eq!(pb, Playback::new());
    assert_eq!(playback_tick(&mut pb, &state(false), true), NOTHING);
    let step = playback_tick(&mut pb, &state(true), true);
    assert!(step.open_stream && step.start_decoder);
}

#[test]
fn failed_decoder_is_followed_by_a_pause() {
    assert_eq!(decoder_pause(true), 0);
    assert_eq!(decoder_pause(false), 2);
}

#[test]
fn low_stream_wins_over_an_address() {
    let mut cli = Cli {
        low: false,
        volume: 100,
        url: RADIO_URL.to_string(),
        probe: None,
    };
    assert_eq!(
        listen_url(&cli),
        "https://coderadio-admin-v2.freecodecamp.org/listen/coderadio/radio.mp3"
    );
    cli.url = "http://radio.example/x.mp3".to_string();
    assert_eq!(listen_url(&cli), "http://radio.example/x.mp3");
    cli.low = true;
    assert_eq!(listen_url(&cli), LOW_URL);
    assert_eq!(
        LOW_URL,
        "https://coderadio-admin-v2.freecodecamp.org/listen/coderadio/low.mp3"
    );
}
