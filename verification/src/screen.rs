//! The player's screen: banner, volume bar, status line and controls.

use vstd::prelude::*;
use vstd::string::*;

use crate::terminal;
use crate::text;
use crate::ui::UiState;

verus! {

/// The banner.
pub const ART: [&'static str; 3] = [
    "▄█████ ▄████▄ ████▄  ██████   █████▄  ▄████▄ ████▄  ██ ▄████▄",
    "██     ██  ██ ██  ██ ██▄▄     ██▄▄██▄ ██▄▄██ ██  ██ ██ ██  ██",
    "▀█████ ▀████▀ ████▀  ██▄▄▄▄   ██   ██ ██  ██ ████▀  ██ ▀████▀",
];

/// A CD and a DVD in turn convey that the disc spins.
pub const SPIN: [&'static str; 2] = ["💿", "📀"];

/// The frames of the ellipsis (trailing spaces keep the line a fixed width).
pub const DOTS: [&'static str; 3] = [".  ", ".. ", "..."];

/// The keys, as the bottom line shows them.
pub const CONTROLS: &'static str =
    "[\"Space\" to Play/Pause] [\"0-9\" for Volume] [\"Ctrl+C\" to Quit]";

/// The project's address.
pub const REPO: &'static str = "https://github.com/p1n2o/coderadio";

/// In front of the volume bar.
pub const SPEAKER: &'static str = "🔊";

/// In front of the volume bar when it is muted.
pub const MUTED: &'static str = "🔇";

/// In the volume bar when it is muted.
pub const HINT: &'static str = "Muted (\"0\" to Unmute)";

/// The status line while paused.
pub const PAUSED: &'static str = "⏸  Paused [\"Space\" to Resume]";

/// How many cells of a volume line are not part of its bar: the icon takes two,
/// ` [` and `] ` take two each, and the number is right-aligned in three.
pub const AROUND_BAR: usize = 9;

/// How many cells the bar of a volume line has.
pub open spec fn bar_cells(width: nat) -> nat {
    if width < AROUND_BAR {
        0
    } else {
        (width - AROUND_BAR) as nat
    }
}

/// How many cells of the bar are filled: a share of `volume` percent, rounded
/// down.
pub open spec fn filled_cells(width: nat, volume: nat) -> nat {
    bar_cells(width) * volume / 100
}

/// Whether the filled cells fit into the bar, as they do up to 100.
pub open spec fn drawable(volume: nat, width: nat) -> bool {
    volume <= 100 || filled_cells(width, volume) <= bar_cells(width)
}

/// The hint with a space on either side, in the middle of a bar of `bar` cells,
/// the odd bar cell going to the right; by itself when the bar is too narrow.
pub open spec fn muted_bar(bar: nat) -> Seq<char> {
    let content = " "@ + HINT@ + " "@;
    if bar < content.len() {
        content
    } else {
        let rest = (bar - content.len()) as nat;
        text::repeated('░', rest / 2) + content + text::repeated('░', (rest - rest / 2) as nat)
    }
}

/// The bar of a volume line.
pub open spec fn volume_bar(volume: nat, width: nat) -> Seq<char> {
    if volume == 0 {
        muted_bar(bar_cells(width))
    } else {
        let filled = filled_cells(width, volume);
        text::repeated('█', filled) + text::repeated('░', (bar_cells(width) - filled) as nat)
    }
}

/// A volume line without blinking.
pub open spec fn plain_volume_line(volume: nat, width: nat) -> Seq<char> {
    (if volume == 0 {
        MUTED@
    } else {
        SPEAKER@
    }) + " ["@ + volume_bar(volume, width) + "] "@ + text::right_aligned(text::decimal(volume), 3)
}

/// A text between the escape sequences that dim it.
pub open spec fn dimmed(line: Seq<char>) -> Seq<char> {
    "\x1b[2m"@ + line + "\x1b[0m"@
}

/// Whether a blinking line is dimmed: six frames normal, six frames dimmed.
pub open spec fn dim_phase(tick: nat) -> bool {
    (tick / 6) % 2 == 1
}

/// The volume line: blinking while muted.
pub open spec fn volume_text(volume: nat, width: nat, tick: nat) -> Seq<char> {
    if volume == 0 && dim_phase(tick) {
        dimmed(plain_volume_line(volume, width))
    } else {
        plain_volume_line(volume, width)
    }
}

/// The icon of the playing disc, which changes every five frames.
pub open spec fn spin(tick: nat) -> Seq<char> {
    SPIN@[((tick / 5) % 2) as int]@
}

/// The ellipsis, which grows by a dot every six frames and starts again.
pub open spec fn dots(tick: nat) -> Seq<char> {
    DOTS@[((tick / 6) % 3) as int]@
}

/// The status line: the song while playing, a blinking note while paused.
pub open spec fn status(playing: bool, song: Seq<char>, tick: nat) -> Seq<char> {
    if playing {
        spin(tick) + " Now Playing: "@ + song + dots(tick)
    } else if dim_phase(tick) {
        dimmed(PAUSED@)
    } else {
        PAUSED@
    }
}

/// How wide the banner is.
pub open spec fn art_width() -> nat {
    ART@[0]@.len()
}

/// The rows of the screen, from top to bottom.
pub open spec fn rows(playing: bool, volume: nat, song: Seq<char>, tick: nat) -> Seq<Seq<char>> {
    seq![
        Seq::empty(),
        ART@[0]@,
        ART@[1]@,
        ART@[2]@,
        Seq::empty(),
        text::centered(REPO@, art_width()),
        Seq::empty(),
        volume_text(volume, art_width(), tick),
        Seq::empty(),
        status(playing, song, tick),
        Seq::empty(),
        CONTROLS@,
    ]
}

/// One row as it is sent to the terminal: from the first column, with the rest
/// of the row cleared and a line feed.
pub open spec fn row_text(row: Seq<char>) -> Seq<char> {
    terminal::move_to_column_text(0) + row + "\x1b[K"@ + "\n"@
}

/// Rows one after the other.
pub open spec fn rows_text(rows: Seq<Seq<char>>) -> Seq<char>
    decreases rows.len(),
{
    if rows.len() == 0 {
        Seq::empty()
    } else {
        rows_text(rows.drop_last()) + row_text(rows.last())
    }
}

/// A whole frame: the rows, starting in the top left corner.
pub open spec fn frame_text(playing: bool, volume: nat, song: Seq<char>, tick: nat) -> Seq<char> {
    terminal::move_to_text(0, 0) + rows_text(rows(playing, volume, song, tick))
}

/// What a list of strings says.
pub open spec fn texts(lines: Seq<String>) -> Seq<Seq<char>> {
    Seq::new(lines.len(), |i: int| lines[i]@)
}

/// A number below a thousand, right-aligned, takes three narrow characters.
proof fn lemma_number_column(n: nat)
    requires
        n < 1000,
    ensures
        text::right_aligned(text::decimal(n), 3).len() == 3,
        text::cells(text::right_aligned(text::decimal(n), 3)) == 3,
{
    text::decimal_is_narrow(n);
    reveal_with_fuel(text::decimal, 3);
    let column = text::right_aligned(text::decimal(n), 3);
    text::cells_of_narrow_text(column);
}

/// What stands around the bar takes nine cells.
proof fn lemma_around_bar(volume: nat)
    requires
        volume < 1000,
    ensures
        text::cells(MUTED@ + " ["@) == 4,
        text::cells(SPEAKER@ + " ["@) == 4,
        text::cells("] "@ + text::right_aligned(text::decimal(volume), 3)) == 5,
{
    reveal_strlit("🔊");
    reveal_strlit("🔇");
    reveal_strlit(" [");
    reveal_strlit("] ");
    reveal_with_fuel(text::cells, 3);
    lemma_number_column(volume);
    text::cells_of_concatenation(MUTED@, " ["@);
    text::cells_of_concatenation(SPEAKER@, " ["@);
    text::cells_of_concatenation("] "@, text::right_aligned(text::decimal(volume), 3));
}

/// Up to 100 the filled cells fit into the bar.
proof fn lemma_fill_fits(bar: nat, volume: nat)
    requires
        volume <= 100,
    ensures
        bar * volume / 100 <= bar,
{
    assert(bar * volume <= 100 * bar) by (nonlinear_arith)
        requires
            volume <= 100,
    ;
}

/// Center the hint (one space either side) within `bar_width` cells, filling
/// the rest with empty bar cells so that the total row width stays constant.
pub fn center_muted(bar_width: usize) -> (bar: String)
    ensures
        bar@ == muted_bar(bar_width as nat),
{
    let mut content = " ".to_owned();
    content.append(HINT);
    content.append(" ");
    let cw: usize = content.as_str().unicode_len();
    let rest: usize = if bar_width < cw {
        0
    } else {
        bar_width - cw
    };
    if rest >= 1 {
        let left: usize = rest / 2;
        let right: usize = rest - left;
        proof {
            reveal_strlit("░");
        }
        let mut bar = String::new();
        text::push_repeated(&mut bar, "░", left);
        bar.append(content.as_str());
        text::push_repeated(&mut bar, "░", right);
        assert(bar@ =~= muted_bar(bar_width as nat));
        bar
    } else {
        assert(content@ =~= muted_bar(bar_width as nat));
        content
    }
}

/// A text between the escape sequences that dim it.
fn dim(line: &str) -> (dim: String)
    ensures
        dim@ == dimmed(line@),
{
    let mut dim = "\x1b[2m".to_owned();
    dim.append(line);
    dim.append("\x1b[0m");
    dim
}

/// Whether a blinking line is dimmed in this frame.
fn is_dim(tick: u64) -> (yes: bool)
    ensures
        yes == dim_phase(tick as nat),
{
    (tick / 6) % 2 == 1
}

/// `🔊 [██████…░░] 80`: a bar that spans `width` cells together with what
/// stands around it, filled in proportion to the volume. When muted, the bar
/// holds a blinking, centered hint, so that the user knows why it is silent.
pub fn volume_line(volume: u8, width: usize, tick: u64) -> (line: String)
    requires
        drawable(volume as nat, width as nat),
    ensures
        line@ == volume_text(volume as nat, width as nat, tick as nat),
{
    let mut left = (if volume == 0 {
        MUTED
    } else {
        SPEAKER
    }).to_owned();
    left.append(" [");
    let mut right = "] ".to_owned();
    text::push_right_aligned(&mut right, volume);
    proof {
        lemma_around_bar(volume as nat);
    }
    let around: usize = text::cell_width(left.as_str()) + text::cell_width(right.as_str());
    let bar_width: usize = if width < around {
        0
    } else {
        width - around
    };
    let mut line = left;
    if volume == 0 {
        let bar = center_muted(bar_width);
        line.append(bar.as_str());
    } else {
        proof {
            reveal_strlit("█");
            reveal_strlit("░");
            if volume <= 100 {
                lemma_fill_fits(bar_width as nat, volume as nat);
            }
            assert(bar_width * volume <= u64::MAX * 255) by (nonlinear_arith)
                requires
                    bar_width <= u64::MAX,
                    volume <= 255,
            ;
        }
        let filled: usize = (bar_width as u128 * volume as u128 / 100) as usize;
        text::push_repeated(&mut line, "█", filled);
        text::push_repeated(&mut line, "░", bar_width - filled);
    }
    line.append(right.as_str());
    assert(line@ =~= plain_volume_line(volume as nat, width as nat));
    if volume == 0 && is_dim(tick) {
        dim(line.as_str())
    } else {
        line
    }
}

/// The status line: the song while playing, a blinking note while paused.
pub fn status_line(state: &UiState, tick: u64) -> (line: String)
    ensures
        line@ == status(state.playing, state.song@, tick as nat),
{
    if state.playing {
        let mut line = SPIN[((tick / 5) % 2) as usize].to_owned();
        line.append(" Now Playing: ");
        line.append(state.song.as_str());
        line.append(DOTS[((tick / 6) % 3) as usize]);
        line
    } else if is_dim(tick) {
        dim(PAUSED)
    } else {
        PAUSED.to_owned()
    }
}

/// The rows of the screen, from top to bottom.
pub fn screen_rows(state: &UiState, tick: u64) -> (lines: Vec<String>)
    requires
        drawable(state.volume as nat, art_width()),
    ensures
        texts(lines@) == rows(state.playing, state.volume as nat, state.song@, tick as nat),
{
    let art_width: usize = ART[0].unicode_len();
    let mut lines: Vec<String> = Vec::new();
    lines.push(String::new());
    lines.push(ART[0].to_owned());
    lines.push(ART[1].to_owned());
    lines.push(ART[2].to_owned());
    lines.push(String::new());
    lines.push(text::center(REPO, art_width));
    lines.push(String::new());
    lines.push(volume_line(state.volume, art_width, tick));
    lines.push(String::new());
    lines.push(status_line(state, tick));
    lines.push(String::new());
    lines.push(CONTROLS.to_owned());
    assert(texts(lines@) =~= rows(
        state.playing,
        state.volume as nat,
        state.song@,
        tick as nat,
    ));
    lines
}

/// Append a frame of the screen to `out`, as text for the terminal.
pub fn render(out: &mut String, state: &UiState, tick: u64)
    requires
        drawable(state.volume as nat, art_width()),
    ensures
        final(out)@ == old(out)@ + frame_text(
            state.playing,
            state.volume as nat,
            state.song@,
            tick as nat,
        ),
{
    let ghost before = out@;
    let lines = screen_rows(state, tick);
    let ghost all = rows(state.playing, state.volume as nat, state.song@, tick as nat);
    terminal::move_to(out, 0, 0);
    assert(out@ =~= before + terminal::move_to_text(0, 0) + rows_text(all.take(0)));
    let mut i: usize = 0;
    while i < lines.len()
        invariant
            i <= lines@.len(),
            texts(lines@) == all,
            out@ == before + terminal::move_to_text(0, 0) + rows_text(all.take(i as int)),
        decreases lines@.len() - i,
    {
        terminal::move_to_column(out, 0);
        terminal::print(out, lines[i].as_str());
        terminal::clear_until_new_line(out);
        terminal::print(out, "\n");
        proof {
            let shown = all.take(i + 1);
            assert(shown.drop_last() =~= all.take(i as int));
            assert(shown.last() == lines[i as int]@);
            assert(out@ =~= before + terminal::move_to_text(0, 0) + rows_text(shown));
        }
        i = i + 1;
    }
    assert(all.take(lines@.len() as int) =~= all);
    assert(out@ =~= before + (terminal::move_to_text(0, 0) + rows_text(all)));
}

/// The text of the hint and of the banner's rows, measured.
proof fn lemma_measures()
    ensures
        (" "@ + HINT@ + " "@).len() == 23,
        text::cells(" "@ + HINT@ + " "@) == 23,
        ART@[0]@.len() == 61,
        ART@[1]@.len() == 61,
        ART@[2]@.len() == 61,
        REPO@.len() == 34,
{
    reveal_strlit(" ");
    reveal_strlit("Muted (\"0\" to Unmute)");
    reveal_strlit("▄█████ ▄████▄ ████▄  ██████   █████▄  ▄████▄ ████▄  ██ ▄████▄");
    reveal_strlit("██     ██  ██ ██  ██ ██▄▄     ██▄▄██▄ ██▄▄██ ██  ██ ██ ██  ██");
    reveal_strlit("▀█████ ▀████▀ ████▀  ██▄▄▄▄   ██   ██ ██  ██ ████▀  ██ ▀████▀");
    reveal_strlit("https://github.com/p1n2o/coderadio");
    let content = " "@ + HINT@ + " "@;
    assert(forall|i: int| 0 <= i < HINT@.len() ==> text::cell(#[trigger] HINT@[i]) == 1);
    text::cells_of_narrow_text(content);
}

/// A run of a narrow character takes one cell each.
proof fn lemma_cells_of_run(c: char, n: nat)
    requires
        text::cell(c) == 1,
    ensures
        text::cells(text::repeated(c, n)) == n,
{
    text::cells_of_narrow_text(text::repeated(c, n));
}

/// The bar takes exactly the cells that are left for it, whatever the volume.
proof fn lemma_bar_fills_its_cells(volume: nat, width: nat)
    requires
        drawable(volume, width),
        volume == 0 ==> bar_cells(width) >= 23,
    ensures
        text::cells(volume_bar(volume, width)) == bar_cells(width),
{
    let bar = bar_cells(width);
    if volume == 0 {
        lemma_measures();
        let content = " "@ + HINT@ + " "@;
        let rest = (bar - 23) as nat;
        let left = text::repeated('░', rest / 2);
        let right = text::repeated('░', (rest - rest / 2) as nat);
        lemma_cells_of_run('░', rest / 2);
        lemma_cells_of_run('░', (rest - rest / 2) as nat);
        text::cells_of_concatenation(left + content, right);
        text::cells_of_concatenation(left, content);
    } else {
        if volume <= 100 {
            lemma_fill_fits(bar, volume);
        }
        let filled = filled_cells(width, volume);
        lemma_cells_of_run('█', filled);
        lemma_cells_of_run('░', (bar - filled) as nat);
        text::cells_of_concatenation(
            text::repeated('█', filled),
            text::repeated('░', (bar - filled) as nat),
        );
    }
}

/// The volume line spans exactly the given width, whatever the volume, so it
/// never shifts when the number of digits or the fill changes. A width below
/// nine has no room for what stands around the bar, and a muted line needs a bar
/// that holds its hint (23 cells).
pub proof fn volume_line_spans_the_width(volume: nat, width: nat)
    requires
        volume <= u8::MAX,
        drawable(volume, width),
        width >= AROUND_BAR,
        volume == 0 ==> bar_cells(width) >= 23,
    ensures
        text::cells(plain_volume_line(volume, width)) == width,
{
    let left = (if volume == 0 {
        MUTED@
    } else {
        SPEAKER@
    }) + " ["@;
    let bar = volume_bar(volume, width);
    let number = text::right_aligned(text::decimal(volume), 3);
    lemma_around_bar(volume);
    lemma_bar_fills_its_cells(volume, width);
    text::cells_of_concatenation(left, bar);
    text::cells_of_concatenation(left + bar, "] "@ + number);
    assert(left + bar + ("] "@ + number) =~= plain_volume_line(volume, width));
}

/// On the screen everything lines up with the banner: its rows are equally
/// long, and the address and, at every volume, the volume line are as wide.
pub proof fn screen_lines_up_with_the_art(volume: nat)
    requires
        volume <= 100,
    ensures
        ART@[1]@.len() == art_width(),
        ART@[2]@.len() == art_width(),
        text::centered(REPO@, art_width()).len() == art_width(),
        text::cells(plain_volume_line(volume, art_width())) == art_width(),
{
    lemma_measures();
    text::centered_fills_the_width(REPO@, art_width());
    volume_line_spans_the_width(volume, art_width());
}

/// The fill is proportional: it is the volume's share of the bar to within one
/// cell, a higher volume never fills less, and 100 fills the bar without an
/// empty cell.
pub proof fn fill_is_proportional(width: nat, volume: nat, louder: nat)
    requires
        volume <= louder <= 100,
    ensures
        100 * filled_cells(width, volume) <= bar_cells(width) * volume,
        bar_cells(width) * volume < 100 * (filled_cells(width, volume) + 1),
        filled_cells(width, volume) <= filled_cells(width, louder) <= bar_cells(width),
        volume_bar(100, width) == text::repeated('█', bar_cells(width)),
{
    let bar = bar_cells(width);
    lemma_fill_fits(bar, louder);
    assert(bar * volume <= bar * louder) by (nonlinear_arith)
        requires
            volume <= louder,
    ;
    assert(filled_cells(width, 100) == bar);
    assert(volume_bar(100, width) =~= text::repeated('█', bar));
}

/// A muted bar shows the whole hint, however narrow it is, and no filled cell.
pub proof fn muted_bar_shows_the_hint(width: nat)
    ensures
        exists|at: int|
            0 <= at <= volume_bar(0, width).len() - HINT@.len()
                && #[trigger] volume_bar(0, width).subrange(at, at + HINT@.len()) == HINT@,
        !volume_bar(0, width).contains('█'),
{
    lemma_measures();
    reveal_strlit(" ");
    reveal_strlit("Muted (\"0\" to Unmute)");
    let bar = bar_cells(width);
    let at: int = if bar < 23 {
        1
    } else {
        (bar - 23) / 2 + 1
    };
    assert(volume_bar(0, width).subrange(at, at + HINT@.len()) =~= HINT@);
}

/// Blinking is symmetric: a line is dimmed in a frame exactly when it is not
/// six frames later, and only the escape sequences around it change.
pub proof fn lines_blink_every_six_frames(volume: nat, width: nat, song: Seq<char>, tick: nat)
    ensures
        dim_phase(tick + 6) == !dim_phase(tick),
        status(false, song, tick) == PAUSED@ || status(false, song, tick) == dimmed(PAUSED@),
        volume_text(volume, width, tick) == plain_volume_line(volume, width) || volume_text(
            volume,
            width,
            tick,
        ) == dimmed(plain_volume_line(volume, width)),
        volume > 0 ==> volume_text(volume, width, tick) == plain_volume_line(volume, width),
{
}

/// The disc alternates every five frames, and the ellipsis shows one, two and
/// three dots for six frames each before it starts again.
pub proof fn playing_line_is_animated(tick: nat)
    ensures
        spin(tick + 5) != spin(tick),
        spin(tick + 10) == spin(tick),
        dots(tick + 18) == dots(tick),
        forall|i: int|
            0 <= i < dots(tick).len() ==> #[trigger] dots(tick)[i] == (if i <= (tick / 6) % 3 {
                '.'
            } else {
                ' '
            }),
{
    reveal_strlit("💿");
    reveal_strlit("📀");
    reveal_strlit(".  ");
    reveal_strlit(".. ");
    reveal_strlit("...");
    assert("💿"@[0] != "📀"@[0]);
}

/// The animation never changes how long the line is.
pub proof fn playing_line_has_a_fixed_length(song: Seq<char>, tick: nat, other: nat)
    ensures
        status(true, song, tick).len() == status(true, song, other).len(),
{
    reveal_strlit("💿");
    reveal_strlit("📀");
    reveal_strlit(".  ");
    reveal_strlit(".. ");
    reveal_strlit("...");
}

/// Every frame has the same twelve rows, of which only the volume line and the
/// status line change, so a frame always covers the one before it; and a paused
/// frame says nothing of the song.
pub proof fn frames_cover_each_other(
    playing: bool,
    volume: nat,
    song: Seq<char>,
    tick: nat,
    other: Seq<char>,
)
    ensures
        rows(playing, volume, song, tick).len() == 12,
        rows(playing, volume, song, tick) == rows(true, 100, other, 0).update(
            7,
            volume_text(volume, art_width(), tick),
        ).update(9, status(playing, song, tick)),
        frame_text(false, volume, song, tick) == frame_text(false, volume, other, tick),
{
    assert(rows(playing, volume, song, tick) =~= rows(true, 100, other, 0).update(
        7,
        volume_text(volume, art_width(), tick),
    ).update(9, status(playing, song, tick)));
}

/// While playing, the status line holds the whole song: after the disc, which is
/// a CD for five frames and a DVD for the next five, and " Now Playing: " come
/// exactly the characters of the song, and after them only the three characters
/// of the ellipsis, which shows one more dot every six frames.
#[verifier::spinoff_prover]
#[verifier::rlimit(40)]
pub proof fn playing_line_shows_the_whole_song(song: Seq<char>, tick: nat)
    ensures
        ({
            let line = status(true, song, tick);
            let end = 15 + song.len() as int;
            let ellipsis = line.skip(end);
            &&& line.len() == end + 3
            &&& line[0] == if tick % 10 < 5 {
                '💿'
            } else {
                '📀'
            }
            &&& line.subrange(1, 15) == " Now Playing: "@
            &&& line.subrange(15, end) == song
            &&& ellipsis[0] == '.'
            &&& ellipsis[1] == if tick % 18 < 6 {
                ' '
            } else {
                '.'
            }
            &&& ellipsis[2] == if tick % 18 < 12 {
                ' '
            } else {
                '.'
            }
        }),
{
    reveal_strlit("💿");
    reveal_strlit("📀");
    reveal_strlit(".  ");
    reveal_strlit(".. ");
    reveal_strlit("...");
    reveal_strlit(" Now Playing: ");
    let line = status(true, song, tick);
    let end = 15 + song.len() as int;
    let disc = spin(tick);
    let dots = dots(tick);
    assert(disc.len() == 1 && dots.len() == 3);
    assert(line.len() == end + 3);
    assert(line[0] == disc[0]);
    assert(line.subrange(1, 15) =~= " Now Playing: "@);
    assert(line.subrange(15, end) =~= song);
    assert(line.skip(end) =~= dots);
    assert(tick % 10 < 5 <==> (tick / 5) % 2 == 0);
    assert(tick % 18 < 6 <==> (tick / 6) % 3 == 0);
    assert(tick % 18 < 12 <==> (tick / 6) % 3 < 2);
}

/// While paused, the status line says so and how to resume, plainly for six
/// frames and dimmed for the next six, whatever the song.
pub proof fn paused_line_blinks(song: Seq<char>, tick: nat)
    ensures
        tick % 12 < 6 ==> status(false, song, tick) == "⏸  Paused [\"Space\" to Resume]"@,
        tick % 12 >= 6 ==> status(false, song, tick) == "\x1b[2m"@
            + "⏸  Paused [\"Space\" to Resume]"@ + "\x1b[0m"@,
{
}

/// The volume line blinks exactly while it is muted: plain for six frames and
/// dimmed for the next six.
pub proof fn only_a_muted_volume_blinks(volume: nat, width: nat, tick: nat)
    ensures
        volume > 0 || tick % 12 < 6 ==> volume_text(volume, width, tick) == plain_volume_line(
            volume,
            width,
        ),
        volume == 0 && tick % 12 >= 6 ==> volume_text(volume, width, tick) == "\x1b[2m"@
            + plain_volume_line(volume, width) + "\x1b[0m"@,
{
}

/// What a volume line says: a speaker, struck through exactly when it is muted,
/// a bar in brackets, and the volume in three columns, its digits as far right as
/// they go.
pub proof fn volume_line_says_the_volume(volume: nat, width: nat)
    requires
        volume <= 255,
        drawable(volume, width),
    ensures
        ({
            let line = plain_volume_line(volume, width);
            let bar = volume_bar(volume, width).len() as int;
            &&& line.len() == bar + 8
            &&& line[0] == if volume == 0 {
                '🔇'
            } else {
                '🔊'
            }
            &&& line.subrange(1, 3) == " ["@
            &&& line.subrange(3, 3 + bar) == volume_bar(volume, width)
            &&& line.subrange(3 + bar, 5 + bar) == "] "@
            &&& line[7 + bar] as int == '0' as int + volume % 10
            &&& line[6 + bar] as int == if volume < 10 {
                ' ' as int
            } else {
                '0' as int + volume / 10 % 10
            }
            &&& line[5 + bar] as int == if volume < 100 {
                ' ' as int
            } else {
                '0' as int + volume / 100
            }
        }),
{
    reveal_strlit("🔊");
    reveal_strlit("🔇");
    reveal_strlit(" [");
    reveal_strlit("] ");
    reveal_with_fuel(text::decimal, 3);
    lemma_number_column(volume);
    let line = plain_volume_line(volume, width);
    let bar = volume_bar(volume, width).len() as int;
    let number = text::right_aligned(text::decimal(volume), 3);
    assert(line.subrange(1, 3) =~= " ["@);
    assert(line.subrange(3, 3 + bar) =~= volume_bar(volume, width));
    assert(line.subrange(3 + bar, 5 + bar) =~= "] "@);
    assert(line.skip(5 + bar) =~= number);
    assert(forall|i: int| 0 <= i < 3 ==> line[5 + bar + i] == #[trigger] number[i]);
    if volume < 10 {
        assert(number =~= seq![' ', ' ', text::digit_char(volume)]);
    } else if volume < 100 {
        assert(number =~= seq![
            ' ',
            text::digit_char(volume / 10),
            text::digit_char(volume % 10),
        ]);
    } else {
        assert(number =~= seq![
            text::digit_char(volume / 10 / 10),
            text::digit_char(volume / 10 % 10),
            text::digit_char(volume % 10),
        ]);
    }
}

/// The bar of an audible volume takes the width without the nine cells around
/// it. Its cells are filled from the left, each of them exactly when the volume,
/// in percent, covers the whole cell.
pub proof fn bar_is_filled_up_to_the_volume(volume: nat, width: nat)
    requires
        volume > 0,
        drawable(volume, width),
        width >= 9,
    ensures
        volume_bar(volume, width).len() == width - 9,
        forall|i: int|
            0 <= i < width - 9 ==> #[trigger] volume_bar(volume, width)[i] == (if 100 * (i + 1)
                <= (width - 9) * volume {
                '█'
            } else {
                '░'
            }),
{
    if volume <= 100 {
        lemma_fill_fits(bar_cells(width), volume);
    }
    assert((width - 9) * volume == bar_cells(width) * volume);
}

/// The bar of a muted volume holds the hint, with a space on either side, in its
/// middle, and empty cells around it, the odd one on the right. It is as wide as
/// any other bar, or just as wide as the hint when that does not fit.
pub proof fn muted_bar_holds_the_hint_in_its_middle(width: nat)
    ensures
        ({
            let bar = volume_bar(0, width);
            let left: int = if width < 32 {
                0
            } else {
                (width - 32) / 2
            };
            &&& bar.len() == if width < 32 {
                23
            } else {
                width - 9
            }
            &&& bar.subrange(left, left + 23) == " Muted (\"0\" to Unmute) "@
            &&& forall|i: int|
                0 <= i < bar.len() && !(left <= i < left + 23) ==> #[trigger] bar[i] == '░'
        }),
{
    lemma_measures();
    reveal_strlit(" ");
    reveal_strlit("Muted (\"0\" to Unmute)");
    reveal_strlit(" Muted (\"0\" to Unmute) ");
    let left: int = if width < 32 {
        0
    } else {
        (width - 32) / 2
    };
    assert(" "@ + HINT@ + " "@ =~= " Muted (\"0\" to Unmute) "@);
    assert(volume_bar(0, width).subrange(left, left + 23) =~= " "@ + HINT@ + " "@);
}

/// Every volume that the player can have can be drawn, however wide the line.
pub proof fn every_volume_can_be_drawn(volume: nat, width: nat)
    requires
        volume <= 100,
    ensures
        drawable(volume, width),
{
}

/// What stands where on the screen: the banner from the second row on, the
/// address in the middle below it, the volume, the status and the keys, with an
/// empty row above each of them.
pub proof fn screen_is_laid_out(playing: bool, volume: nat, song: Seq<char>, tick: nat)
    ensures
        ({
            let r = rows(playing, volume, song, tick);
            &&& r.len() == 12
            &&& r[1] == "▄█████ ▄████▄ ████▄  ██████   █████▄  ▄████▄ ████▄  ██ ▄████▄"@
            &&& r[2] == "██     ██  ██ ██  ██ ██▄▄     ██▄▄██▄ ██▄▄██ ██  ██ ██ ██  ██"@
            &&& r[3] == "▀█████ ▀████▀ ████▀  ██▄▄▄▄   ██   ██ ██  ██ ████▀  ██ ▀████▀"@
            &&& r[5].len() == 61
            &&& r[5].subrange(13, 47) == "https://github.com/p1n2o/coderadio"@
            &&& forall|i: int| 0 <= i < 61 && !(13 <= i < 47) ==> #[trigger] r[5][i] == ' '
            &&& r[7] == volume_text(volume, 61, tick)
            &&& r[9] == status(playing, song, tick)
            &&& r[11]
                == "[\"Space\" to Play/Pause] [\"0-9\" for Volume] [\"Ctrl+C\" to Quit]"@
            &&& r[0].len() == 0 && r[4].len() == 0 && r[6].len() == 0 && r[8].len() == 0
            &&& r[10].len() == 0
        }),
{
    lemma_measures();
    text::centered_text_is_between_spaces(REPO@, 61);
}

/// Rows are sent one after the other, each from the first column, as it is, with
/// the rest of the old row cleared and a line feed after it.
pub proof fn rows_are_sent_in_order(above: Seq<Seq<char>>, row: Seq<char>)
    ensures
        rows_text(Seq::empty()) == Seq::<char>::empty(),
        rows_text(above.push(row)) == rows_text(above) + ("\x1b[1G"@ + row + "\x1b[K\n"@),
{
    reveal_strlit("\x1b[");
    reveal_strlit("G");
    reveal_strlit("\x1b[1G");
    reveal_strlit("\x1b[K");
    reveal_strlit("\n");
    reveal_strlit("\x1b[K\n");
    assert(above.push(row).drop_last() =~= above);
    assert(terminal::move_to_column_text(0) =~= "\x1b[1G"@);
    assert("\x1b[K"@ + "\n"@ =~= "\x1b[K\n"@);
    assert(row_text(row) =~= "\x1b[1G"@ + row + "\x1b[K\n"@);
}

/// A frame starts in the top left corner and consists of the rows of the screen.
pub proof fn frame_is_the_rows_of_the_screen(
    playing: bool,
    volume: nat,
    song: Seq<char>,
    tick: nat,
)
    ensures
        frame_text(playing, volume, song, tick) == "\x1b[1;1H"@ + rows_text(
            rows(playing, volume, song, tick),
        ),
{
    reveal_strlit("\x1b[");
    reveal_strlit(";");
    reveal_strlit("H");
    reveal_strlit("\x1b[1;1H");
    assert(terminal::move_to_text(0, 0) =~= "\x1b[1;1H"@);
}

/// A line that is too narrow for what stands around a bar has none, unless it is
/// muted.
pub proof fn narrow_line_has_no_bar(volume: nat, width: nat)
    requires
        volume > 0,
        width <= 9,
    ensures
        volume_bar(volume, width).len() == 0,
{
    let bar = bar_cells(width);
    assert(bar * volume == 0) by (nonlinear_arith)
        requires
            bar == 0,
    ;
}

/// The texts of lines are those lines, in the same order.
pub proof fn texts_keep_the_order(lines: Seq<String>, i: int)
    requires
        0 <= i < lines.len(),
    ensures
        texts(lines).len() == lines.len(),
        texts(lines)[i] == lines[i]@,
{
}

} // verus!
