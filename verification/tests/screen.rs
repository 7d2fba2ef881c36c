use coderadio::screen::{
    center_muted, render, screen_rows, status_line, volume_line, ART, CONTROLS, HINT, PAUSED, REPO,
};
use coderadio::text::{cell_width, center};
use coderadio::ui::UiState;

fn ui(playing: bool, song: &str, volume: u8) -> UiState {
    UiState {
        playing,
        volume,
        prev: None,
        song: song.to_string(),
        quit: false,
    }
}

fn frame(playing: bool, song: &str, volume: u8, tick: u64) -> String {
    let mut buf = String::new();
    render(&mut buf, &ui(playing, song, volume), tick);
    buf
}

#[test]
fn playing_frame_has_banner_song_and_controls() {
    let f = frame(true, "Nym — Come Back", 80, 12); // 12 -> dots "..."
    assert!(f.contains(ART[0]), "banner row 1");
    assert!(
        f.contains("Now Playing: Nym — Come Back..."),
        "song + full dots"
    );
    assert!(f.contains("\"Space\" to Play/Pause"), "controls");
}

#[test]
fn playing_dots_animate_slowly_one_at_a_time() {
    let t0 = frame(true, "Song", 80, 0); //   (0/6)%3 = 0 -> ".  "
    let t6 = frame(true, "Song", 80, 6); //   (6/6)%3 = 1 -> ".. "
    let t12 = frame(true, "Song", 80, 12); // (12/6)%3 = 2 -> "..."
    let t18 = frame(true, "Song", 80, 18); // (18/6)%3 = 0 -> ".  " again
    assert!(!t0.contains("Song.."), "frame 0 is single dot");
    assert!(
        t6.contains("Song..") && !t6.contains("Song..."),
        "frame 1 is two dots"
    );
    assert!(t12.contains("Song..."), "frame 2 is three dots");
    assert!(
        t18.contains("Song.") && !t18.contains("Song.."),
        "wraps back to single dot"
    );
}

#[test]
fn cd_icon_toggles_between_cd_and_dvd() {
    assert!(frame(true, "Song", 80, 0).contains('💿'), "CD icon @t0");
    assert!(!frame(true, "Song", 80, 0).contains('📀'), "no DVD @t0");
    assert!(frame(true, "Song", 80, 5).contains('📀'), "DVD icon @t5");
    assert!(!frame(true, "Song", 80, 5).contains('💿'), "no CD @t5");
    assert!(
        frame(true, "Song", 80, 10).contains('💿'),
        "back to CD @t10"
    );
}

#[test]
fn paused_frame_shows_paused_line() {
    let f = frame(false, "Nym — Come Back", 80, 1);
    assert!(f.contains("Paused"), "paused line shown");
    assert!(
        !f.contains("Now Playing"),
        "no now-playing line while paused"
    );
}

#[test]
fn paused_line_blinks_via_dim_attribute() {
    let normal = frame(false, "", 80, 1); // (1/6)%2 == 0 -> normal
    let dim = frame(false, "", 80, 7); //    (7/6)%2 == 1 -> dimmed
    assert!(!normal.contains("\x1b[2m"), "not dimmed on even phase");
    assert!(dim.contains("\x1b[2m"), "dimmed on odd phase");
}

#[test]
fn volume_bar_expands_to_art_width_and_is_proportional() {
    let w = ART[0].chars().count();
    let l80 = volume_line(80, w, 0);
    assert!(l80.starts_with("🔊 ["), "speaker icon");
    assert!(l80.ends_with("80"), "value shown");
    assert_eq!(cell_width(&l80), w, "bar fills the full art width");
    // fill ratio ~80%: many filled, some empty.
    let filled = l80.matches('█').count();
    let empty = l80.matches('░').count();
    assert!(filled > empty && empty > 0, "mostly filled at 80");
}

#[test]
fn full_volume_fills_the_bar() {
    let l = volume_line(100, ART[0].chars().count(), 0);
    assert!(l.starts_with("🔊 ["), "speaker");
    assert!(l.matches('░').count() == 0, "no empty cells at 100");
    // at 100, bar_width == w - cells(left) - cells(right)
    let bar_cells = ART[0].chars().count() - cell_width("🔊 [") - cell_width("] 100");
    assert!(l.matches('█').count() == bar_cells, "fully filled");
}

#[test]
fn muted_shows_centered_hint_in_bar() {
    let l = volume_line(0, ART[0].chars().count(), 1); // tick 1 -> normal
    assert!(l.starts_with("🔇 ["), "muted icon");
    assert!(l.matches('█').count() == 0, "no filled cells when muted");
    assert!(l.ends_with("0"), "zero shown");
    assert!(l.contains(HINT), "hint shown when muted");
    assert_eq!(
        cell_width(&l),
        ART[0].chars().count(),
        "hint keeps full bar width"
    );
}

#[test]
fn muted_hint_blinks() {
    let normal = volume_line(0, ART[0].chars().count(), 1); // (1/6)%2 == 0
    let dim = volume_line(0, ART[0].chars().count(), 7); //   (7/6)%2 == 1
    assert!(!normal.contains("\x1b[2m"), "not dimmed on even phase");
    assert!(dim.contains("\x1b[2m"), "dimmed on odd phase");
}

#[test]
fn bar_width_is_stable_across_volume_values() {
    // The 3-digit reservation must keep the bar the same length whether
    // the value is 0, 22, or 100 (no jank when the digit count changes).
    let w = ART[0].chars().count();
    let widths: Vec<usize> = [0u8, 22, 100]
        .iter()
        .map(|v| cell_width(&volume_line(*v, w, 0)))
        .collect();
    assert!(
        widths.iter().all(|&x| x == w),
        "bar width constant: {widths:?}"
    );
}

#[test]
fn repo_url_is_centered_under_the_art() {
    let w = ART[0].chars().count();
    let c = center(REPO, w);
    assert_eq!(c.chars().count(), w, "fills the art width");
    assert!(c.contains(REPO), "url present");
    let left = c.find(REPO).unwrap();
    let right = w - left - REPO.chars().count();
    assert!(
        (left as i64 - right as i64).abs() <= 1,
        "centered (pad {left}/{right})"
    );
    assert!(
        frame(true, "Song", 80, 0).contains(REPO),
        "rendered in the frame"
    );
}

#[test]
fn frame_is_exactly_these_bytes() {
    let rows = [
        "".to_string(),
        "▄█████ ▄████▄ ████▄  ██████   █████▄  ▄████▄ ████▄  ██ ▄████▄".to_string(),
        "██     ██  ██ ██  ██ ██▄▄     ██▄▄██▄ ██▄▄██ ██  ██ ██ ██  ██".to_string(),
        "▀█████ ▀████▀ ████▀  ██▄▄▄▄   ██   ██ ██  ██ ████▀  ██ ▀████▀".to_string(),
        "".to_string(),
        "             https://github.com/p1n2o/coderadio              ".to_string(),
        "".to_string(),
        format!("🔊 [{}{}]  50", "█".repeat(26), "░".repeat(26)),
        "".to_string(),
        "📀 Now Playing: Nym — Come Back.. ".to_string(),
        "".to_string(),
        "[\"Space\" to Play/Pause] [\"0-9\" for Volume] [\"Ctrl+C\" to Quit]".to_string(),
    ];
    let mut expected = String::from("\x1b[1;1H");
    for row in &rows {
        expected.push_str("\x1b[1G");
        expected.push_str(row);
        expected.push_str("\x1b[K\n");
    }
    assert_eq!(frame(true, "Nym — Come Back", 50, 6), expected);
}

#[test]
fn frames_are_appended() {
    let mut out = String::from("before");
    render(&mut out, &ui(true, "Song", 80), 3);
    assert_eq!(out, format!("before{}", frame(true, "Song", 80, 3)));
}

#[test]
fn frames_differ_only_in_volume_and_status() {
    let a = screen_rows(&ui(true, "Song", 80), 0);
    let b = screen_rows(&ui(false, "Other", 0), 7);
    assert_eq!(a.len(), 12);
    assert_eq!(b.len(), 12);
    for i in 0..12 {
        assert_eq!(a[i] == b[i], i != 7 && i != 9, "row {i}");
    }
    assert_eq!(a[11], CONTROLS);
}

#[test]
fn paused_frame_does_not_depend_on_the_song() {
    for tick in 0..13 {
        assert_eq!(
            frame(false, "A", 40, tick),
            frame(false, "Something else", 40, tick)
        );
    }
}

#[test]
fn status_line_while_paused() {
    assert_eq!(
        status_line(&ui(false, "Song", 80), 0),
        "⏸  Paused [\"Space\" to Resume]"
    );
    assert_eq!(
        status_line(&ui(false, "Song", 80), 6),
        "\x1b[2m⏸  Paused [\"Space\" to Resume]\x1b[0m"
    );
    assert_eq!(status_line(&ui(false, "Song", 80), 12), PAUSED);
}

#[test]
fn status_line_keeps_its_length() {
    let lengths: Vec<usize> = (0..40u64)
        .map(|t| status_line(&ui(true, "Song", 80), t).chars().count())
        .collect();
    assert!(lengths.iter().all(|&n| n == lengths[0]));
}

#[test]
fn volume_line_values() {
    assert_eq!(volume_line(50, 19, 0), "🔊 [█████░░░░░]  50");
    assert_eq!(volume_line(5, 19, 9), "🔊 [░░░░░░░░░░]   5");
    assert_eq!(volume_line(99, 19, 0), "🔊 [█████████░]  99");
    assert_eq!(volume_line(100, 19, 0), "🔊 [██████████] 100");
    assert_eq!(volume_line(100, 3, 0), "🔊 [] 100");
    assert_eq!(
        volume_line(0, 36, 0),
        "🔇 [░░ Muted (\"0\" to Unmute) ░░]   0"
    );
    assert_eq!(
        volume_line(0, 33, 0),
        "🔇 [ Muted (\"0\" to Unmute) ░]   0"
    );
    assert_eq!(
        volume_line(0, 0, 6),
        "\x1b[2m🔇 [ Muted (\"0\" to Unmute) ]   0\x1b[0m"
    );
}

#[test]
fn volume_above_full_is_drawn_while_it_fits() {
    assert_eq!(volume_line(101, 19, 0), "🔊 [██████████] 101");
}

#[test]
fn fill_grows_with_the_volume() {
    let mut last = 0;
    for volume in 1..=100u8 {
        let line = volume_line(volume, 61, 0);
        let filled = line.matches('█').count();
        assert_eq!(filled, 52 * volume as usize / 100);
        assert!(filled >= last);
        assert_eq!(cell_width(&line), 61);
        last = filled;
    }
    assert_eq!(last, 52);
}

#[test]
fn muted_line_spans_the_width() {
    for width in 32..=90 {
        assert_eq!(cell_width(&volume_line(0, width, 0)), width);
    }
}

#[test]
fn center_muted_values() {
    let content = " Muted (\"0\" to Unmute) ";
    assert_eq!(center_muted(0), content);
    assert_eq!(center_muted(23), content);
    assert_eq!(center_muted(24), format!("{content}░"));
    assert_eq!(center_muted(25), format!("░{content}░"));
    assert_eq!(center_muted(26), format!("░{content}░░"));
    for bar in 23..=80 {
        assert_eq!(center_muted(bar).chars().count(), bar);
    }
}
