//! The player's user-visible state and the keys that change it.

use vstd::prelude::*;

verus! {

/// The volume that means "as loud as it gets".
pub const FULL_VOLUME: u8 = 100;

/// Two presses of a toggle key closer than this many nanoseconds count as one:
/// some terminals deliver a key twice, or repeat it.
pub const DEBOUNCE: u64 = 150_000_000;

/// Where the player's clock starts, in nanoseconds. The last toggle is taken to
/// have been at zero, so the very first one is never mistaken for a repeat.
pub const CLOCK_START: u64 = 10_000_000_000;

/// Shared state of the player, changed by keys, by the metadata poller and by
/// the request to quit.
pub struct UiState {
    /// Whether audio is wanted.
    pub playing: bool,
    /// The volume, 0 to 100.
    pub volume: u8,
    /// The last non-muted volume, for the mute toggle.
    pub prev: Option<u8>,
    /// "Artist — Title".
    pub song: String,
    /// Whether the player should leave.
    pub quit: bool,
}

/// The part of the state that volume keys change.
pub struct VolumeState {
    /// The volume now.
    pub volume: int,
    /// What to restore when unmuting.
    pub prev: Option<int>,
}

/// The volume of a digit key: the whole number nearest to `100 * d / 9`, so
/// that the digits one to nine spread evenly up to the full volume.
pub open spec fn digit_volume(d: int) -> int {
    (200 * d + 9) / 18
}

/// What a key does to the volume: `0` mutes, or restores what was there before
/// (the full volume when nothing was); `1` to `9` set a volume and make it the
/// one to restore; other keys do nothing.
pub open spec fn after_volume_key(s: VolumeState, key: char) -> VolumeState {
    if key == '0' {
        if s.volume > 0 {
            VolumeState { volume: 0, prev: Some(s.volume) }
        } else {
            VolumeState {
                volume: match s.prev {
                    Some(v) => v,
                    None => FULL_VOLUME as int,
                },
                prev: None,
            }
        }
    } else if '1' <= key <= '9' {
        let v = digit_volume(key as int - '0' as int);
        VolumeState { volume: v, prev: Some(v) }
    } else {
        s
    }
}

/// Volumes stay within 0 and 100, and what is remembered is not silence.
pub open spec fn volume_in_range(s: VolumeState) -> bool {
    &&& 0 <= s.volume <= FULL_VOLUME
    &&& s.prev matches Some(v) ==> 0 < v <= FULL_VOLUME
}

impl UiState {
    /// The part of the state that volume keys change.
    pub open spec fn volumes(self) -> VolumeState {
        VolumeState {
            volume: self.volume as int,
            prev: match self.prev {
                Some(v) => Some(v as int),
                None => None,
            },
        }
    }

    /// What keys act on, given when a toggle key last took effect.
    pub open spec fn controls(self, last_toggle: u64) -> Controls {
        Controls {
            playing: self.playing,
            volumes: self.volumes(),
            quit: self.quit,
            last_toggle: last_toggle as int,
        }
    }

    /// Whether the volumes are in range.
    pub open spec fn wf(self) -> bool {
        volume_in_range(self.volumes())
    }

    /// The state at start-up: playing, at the requested volume or at the full
    /// one if more was asked for.
    pub fn new(volume: u8) -> (state: UiState)
        ensures
            state.wf(),
            state.playing,
            !state.quit,
            state.volume == if volume < FULL_VOLUME {
                volume
            } else {
                FULL_VOLUME
            },
            state.volume == clamped(volume),
            state.prev == None::<u8>,
            state.song@ == Seq::<char>::empty(),
            state.controls(0) == at_start(volume),
    {
        UiState {
            playing: true,
            volume: clamp_volume(volume),
            prev: None,
            song: String::new(),
            quit: false,
        }
    }
}

/// The volume itself, or the full volume if it is above that.
pub open spec fn clamped(volume: u8) -> u8 {
    if volume < FULL_VOLUME {
        volume
    } else {
        FULL_VOLUME
    }
}

/// The volume itself, or the full volume if it is above that.
pub fn clamp_volume(volume: u8) -> (clamped: u8)
    ensures
        clamped == if volume < FULL_VOLUME {
            volume
        } else {
            FULL_VOLUME
        },
        clamped == self::clamped(volume),
{
    if volume < FULL_VOLUME {
        volume
    } else {
        FULL_VOLUME
    }
}

/// Apply a volume or mute (`0`) key to `s`, returning the new volume.
///
/// `0` toggles between mute and the previous volume; with no previous volume
/// it falls back to 100. Digits `1` to `9` set a concrete volume and record it
/// as the restore point.
pub fn apply_volume_key(s: &mut UiState, key: char) -> (volume: u8)
    ensures
        final(s).volumes() == after_volume_key(old(s).volumes(), key),
        volume == final(s).volume,
        final(s).playing == old(s).playing,
        final(s).song == old(s).song,
        final(s).quit == old(s).quit,
        old(s).wf() ==> final(s).wf(),
{
    if key == '0' {
        if s.volume > 0 {
            s.prev = Some(s.volume);
            s.volume = 0;
        } else {
            s.volume = match s.prev {
                Some(v) => v,
                None => FULL_VOLUME,
            };
            s.prev = None;
        }
    } else if '1' <= key && key <= '9' {
        let d: u32 = key as u32 - '0' as u32;
        let v: u8 = ((200 * d + 9) / 18) as u8;
        s.volume = v;
        s.prev = Some(v);
    }
    s.volume
}

/// A key as the terminal reports it.
pub struct KeyEvent {
    /// Whether this is the press itself, not a repeat or a release.
    pub pressed: bool,
    /// The character of the key, if it has one.
    pub char: Option<char>,
    /// Whether the control key is held.
    pub control: bool,
}

/// What a key event asks for.
pub enum Command {
    /// Play or pause.
    TogglePlay,
    /// Mute or unmute.
    ToggleMute,
    /// Set the volume of this digit.
    SetVolume(char),
    /// Leave the player.
    Quit,
    /// Nothing.
    Ignore,
}

/// The command of a key event: only presses count; space plays and pauses, `0`
/// mutes, `1` to `9` set the volume, and `c` with control quits.
pub open spec fn command_of(event: KeyEvent) -> Command {
    match event.char {
        Some(c) if event.pressed => if c == ' ' {
            Command::TogglePlay
        } else if c == '0' {
            Command::ToggleMute
        } else if '1' <= c <= '9' {
            Command::SetVolume(c)
        } else if c == 'c' && event.control {
            Command::Quit
        } else {
            Command::Ignore
        },
        _ => Command::Ignore,
    }
}

/// What keys act on.
pub struct Controls {
    /// Whether audio is wanted.
    pub playing: bool,
    /// The volume and what to restore when unmuting.
    pub volumes: VolumeState,
    /// Whether the player should leave.
    pub quit: bool,
    /// When a toggle key last took effect.
    pub last_toggle: int,
}

/// What keys act on at the start, with a volume asked for.
pub open spec fn at_start(volume: u8) -> Controls {
    Controls {
        playing: true,
        volumes: VolumeState { volume: clamped(volume) as int, prev: None },
        quit: false,
        last_toggle: 0,
    }
}

/// Whether a toggle at the time `now` is far enough from the last one.
pub open spec fn settled(last_toggle: int, now: int) -> bool {
    now - last_toggle >= DEBOUNCE
}

/// What a key event at the time `now` does to the controls, and the volume that
/// the output gets, if it gets one.
pub open spec fn after_key(c: Controls, event: KeyEvent, now: int) -> (Controls, Option<int>) {
    match command_of(event) {
        Command::TogglePlay => if settled(c.last_toggle, now) {
            (Controls { playing: !c.playing, last_toggle: now, ..c }, None)
        } else {
            (c, None)
        },
        Command::ToggleMute => if settled(c.last_toggle, now) {
            let v = after_volume_key(c.volumes, '0');
            (Controls { volumes: v, last_toggle: now, ..c }, Some(v.volume))
        } else {
            (c, None)
        },
        Command::SetVolume(digit) => {
            let v = after_volume_key(c.volumes, digit);
            (Controls { volumes: v, ..c }, Some(v.volume))
        },
        Command::Quit => (Controls { quit: true, ..c }, None),
        Command::Ignore => (c, None),
    }
}

/// Which command a key event stands for.
pub fn command(event: &KeyEvent) -> (command: Command)
    ensures
        command == command_of(*event),
{
    if !event.pressed {
        return Command::Ignore;
    }
    match event.char {
        Some(c) => if c == ' ' {
            Command::TogglePlay
        } else if c == '0' {
            Command::ToggleMute
        } else if '1' <= c && c <= '9' {
            Command::SetVolume(c)
        } else if c == 'c' && event.control {
            Command::Quit
        } else {
            Command::Ignore
        },
        None => Command::Ignore,
    }
}

/// Whether a toggle at the time `now` is far enough from the last one.
fn is_settled(last_toggle: u64, now: u64) -> (yes: bool)
    ensures
        yes == settled(last_toggle as int, now as int),
{
    now >= last_toggle && now - last_toggle >= DEBOUNCE
}

/// Apply a key event at the time `now` to the state, and return the volume that
/// the output has to be set to, if it has to be.
pub fn handle_key(s: &mut UiState, last_toggle: &mut u64, event: &KeyEvent, now: u64) -> (output:
    Option<u8>)
    ensures
        final(s).controls(*final(last_toggle)) == after_key(
            old(s).controls(*old(last_toggle)),
            *event,
            now as int,
        ).0,
        match after_key(old(s).controls(*old(last_toggle)), *event, now as int).1 {
            Some(v) => output is Some && output->0 == v,
            None => output is None,
        },
        final(s).song == old(s).song,
        old(s).wf() ==> final(s).wf(),
{
    match command(event) {
        Command::TogglePlay => {
            if is_settled(*last_toggle, now) {
                *last_toggle = now;
                s.playing = !s.playing;
            }
            None
        },
        Command::ToggleMute => {
            if is_settled(*last_toggle, now) {
                *last_toggle = now;
                Some(apply_volume_key(s, '0'))
            } else {
                None
            }
        },
        Command::SetVolume(digit) => Some(apply_volume_key(s, digit)),
        Command::Quit => {
            s.quit = true;
            None
        },
        Command::Ignore => None,
    }
}

/// Whether an event is a press of a key that toggles something.
pub open spec fn is_toggle(event: KeyEvent) -> bool {
    command_of(event) == Command::TogglePlay || command_of(event) == Command::ToggleMute
}

/// Muting and unmuting again restores an audible volume.
pub proof fn muting_twice_restores_the_volume(s: VolumeState)
    requires
        s.volume > 0,
    ensures
        after_volume_key(s, '0').volume == 0,
        after_volume_key(after_volume_key(s, '0'), '0').volume == s.volume,
{
}

/// Unmuting and muting again is silent, and what was audible in between is
/// remembered.
pub proof fn unmuting_twice_is_silent_again(s: VolumeState)
    requires
        volume_in_range(s),
        s.volume == 0,
    ensures
        after_volume_key(s, '0').volume > 0,
        after_volume_key(after_volume_key(s, '0'), '0') == (VolumeState {
            volume: 0,
            prev: Some(after_volume_key(s, '0').volume),
        }),
{
}

/// A digit becomes the restore point: whatever came before, muting and unmuting
/// after it gives the volume of that digit.
pub proof fn digit_is_what_unmuting_restores(s: VolumeState, digit: char)
    requires
        '1' <= digit <= '9',
    ensures
        ({
            let set = after_volume_key(s, digit);
            &&& set.volume == digit_volume(digit as int - '0' as int)
            &&& after_volume_key(after_volume_key(set, '0'), '0').volume == set.volume
        }),
{
}

/// Digits spread evenly: each volume is the whole number nearest to `100 * d /
/// 9`, a larger digit is louder, none of them mutes, and nine is the full
/// volume.
pub proof fn digits_are_linear(d: int, e: int)
    requires
        1 <= d <= 9,
        1 <= e <= 9,
    ensures
        -9 < 2 * (9 * digit_volume(d) - 100 * d) < 9,
        0 < digit_volume(d) <= FULL_VOLUME,
        d < e ==> digit_volume(d) < digit_volume(e),
        digit_volume(9) == FULL_VOLUME,
{
}

/// No key takes a volume out of its range.
pub proof fn keys_keep_volumes_in_range(c: Controls, event: KeyEvent, now: int)
    requires
        volume_in_range(c.volumes),
    ensures
        volume_in_range(after_key(c, event, now).0.volumes),
{
}

/// A toggle key that follows an effective toggle within the debounce time does
/// nothing, whichever of the two keys it is.
pub proof fn phantom_toggle_does_nothing(
    c: Controls,
    first: KeyEvent,
    at: int,
    second: KeyEvent,
    later: int,
)
    requires
        is_toggle(first),
        is_toggle(second),
        settled(c.last_toggle, at),
        later - at < DEBOUNCE,
    ensures
        ({
            let toggled = after_key(c, first, at).0;
            after_key(toggled, second, later) == (toggled, None::<int>)
        }),
{
}

/// Two presses of space that are far enough apart leave playing as it was.
pub proof fn pausing_twice_resumes(c: Controls, space: KeyEvent, at: int, later: int)
    requires
        command_of(space) == Command::TogglePlay,
        settled(c.last_toggle, at),
        later - at >= DEBOUNCE,
    ensures
        after_key(c, space, at).0.playing == !c.playing,
        after_key(after_key(c, space, at).0, space, later).0.playing == c.playing,
{
}

/// Repeats and releases of a held key never do anything.
pub proof fn held_key_acts_once(c: Controls, event: KeyEvent, now: int)
    requires
        !event.pressed,
    ensures
        after_key(c, event, now) == (c, None::<int>),
{
}

/// The first toggle after the start always takes effect.
pub proof fn first_toggle_takes_effect(now: int)
    requires
        now >= CLOCK_START,
    ensures
        settled(0, now),
{
}

/// Whatever volume is asked for, the player gets one from 0 to 100: the one that
/// was asked for if it is in that range, and 100 if it is above.
pub proof fn requested_volume_is_kept_in_range(volume: u8)
    ensures
        volume <= 100 ==> clamped(volume) == volume,
        volume >= 100 ==> clamped(volume) == 100,
{
}

/// Space plays and pauses, and does nothing else: the volume, what is remembered
/// of it and the request to quit stay as they were, and the output is given no
/// volume, both when it pauses and when it resumes. It takes effect exactly when
/// the last toggle was at least 150 milliseconds ago.
pub proof fn space_only_plays_and_pauses(c: Controls, space: KeyEvent, now: int)
    requires
        space.pressed,
        space.char == Some(' '),
    ensures
        ({
            let (after, output) = after_key(c, space, now);
            let effective = now - c.last_toggle >= 150_000_000;
            &&& after.playing == (c.playing != effective)
            &&& after.last_toggle == if effective {
                now
            } else {
                c.last_toggle
            }
            &&& after.volumes == c.volumes
            &&& after.quit == c.quit
            &&& output is None
        }),
{
}

/// The mute key only mutes and unmutes, and takes effect exactly when the last
/// toggle was at least 150 milliseconds ago; the output is then given the volume
/// that it leads to.
pub proof fn mute_key_only_mutes_and_unmutes(c: Controls, zero: KeyEvent, now: int)
    requires
        zero.pressed,
        zero.char == Some('0'),
    ensures
        ({
            let (after, output) = after_key(c, zero, now);
            let effective = now - c.last_toggle >= 150_000_000;
            &&& after.playing == c.playing
            &&& after.quit == c.quit
            &&& effective ==> after.last_toggle == now && output == Some(after.volumes.volume)
            &&& effective && c.volumes.volume > 0 ==> after.volumes.volume == 0
                && after.volumes.prev == Some(c.volumes.volume)
            &&& effective && c.volumes.volume == 0 ==> after.volumes.prev is None && (
            match c.volumes.prev {
                Some(v) => after.volumes.volume == v,
                None => after.volumes.volume == 100,
            })
            &&& !effective ==> after == c && output is None
        }),
{
}

/// A digit sets the volume at once, however soon it comes after another key: to
/// the whole number nearest to its ninth of the full volume. It is given to the
/// output and remembered, and nothing else changes.
pub proof fn digit_only_sets_the_volume(c: Controls, press: KeyEvent, digit: char, now: int)
    requires
        press.pressed,
        press.char == Some(digit),
        '1' <= digit <= '9',
    ensures
        ({
            let (after, output) = after_key(c, press, now);
            let d = digit as int - '0' as int;
            let v = after.volumes.volume;
            &&& -9 < 2 * (9 * v - 100 * d) < 9
            &&& after.volumes.prev == Some(v)
            &&& output == Some(v)
            &&& after.playing == c.playing
            &&& after.quit == c.quit
            &&& after.last_toggle == c.last_toggle
        }),
{
}

/// `c` with control held asks the player to leave, and changes nothing else.
pub proof fn control_c_only_quits(c: Controls, press: KeyEvent, now: int)
    requires
        press.pressed,
        press.control,
        press.char == Some('c'),
    ensures
        after_key(c, press, now) == (Controls { quit: true, ..c }, None::<int>),
{
}

/// No other key event does anything: not a repeat or a release, not a key
/// without a character, not `c` by itself, and no other character, with or
/// without control.
pub proof fn other_keys_do_nothing(c: Controls, event: KeyEvent, now: int)
    requires
        !event.pressed || (match event.char {
            Some(k) => k != ' ' && !('0' <= k <= '9') && !(k == 'c' && event.control),
            None => true,
        }),
    ensures
        after_key(c, event, now) == (c, None::<int>),
{
}

/// Only the mute key and the digits change the volumes, and whenever one of them
/// does, the output is given the volume that it leads to. Whatever else is given
/// to the output is the volume that it has already.
pub proof fn output_follows_the_volume(c: Controls, event: KeyEvent, now: int)
    ensures
        ({
            let (after, output) = after_key(c, event, now);
            let volume_key = event.pressed && event.char is Some && '0' <= event.char->0 <= '9';
            &&& after.volumes != c.volumes ==> volume_key && output is Some
            &&& output matches Some(v) ==> volume_key && v == after.volumes.volume
        }),
{
}

/// Nothing but the request to quit is irrevocable, and that is: no key takes it
/// back.
pub proof fn quitting_is_final(c: Controls, event: KeyEvent, now: int)
    requires
        c.quit,
    ensures
        after_key(c, event, now).0.quit,
{
}

/// What a press on the keyboard stands for.
pub proof fn keys_stand_for_commands(event: KeyEvent, digit: char)
    requires
        '1' <= digit <= '9',
    ensures
        command_of(event) == Command::TogglePlay <==> event.pressed && event.char == Some(' '),
        command_of(event) == Command::ToggleMute <==> event.pressed && event.char == Some('0'),
        command_of(event) == Command::SetVolume(digit) <==> event.pressed && event.char == Some(
            digit,
        ),
        command_of(event) matches Command::SetVolume(k) ==> '1' <= k <= '9',
        command_of(event) == Command::Quit <==> event.pressed && event.control && event.char
            == Some('c'),
{
}

/// What volume keys come to, pressed one after the other, and the last volume
/// that could be heard on the way, if there was one.
pub open spec fn press_all(s: VolumeState, keys: Seq<char>) -> (VolumeState, Option<int>)
    decreases keys.len(),
{
    let audible = |v: int, before: Option<int>|
        if v > 0 {
            Some(v)
        } else {
            before
        };
    if keys.len() == 0 {
        (s, audible(s.volume, None))
    } else {
        let (before, heard) = press_all(s, keys.drop_last());
        let after = after_volume_key(before, keys.last());
        (after, audible(after.volume, heard))
    }
}

/// Whatever keys were pressed since something could be heard, a muted player
/// remembers what could be heard last, and unmuting restores exactly that.
pub proof fn unmuting_restores_what_was_heard_last(s: VolumeState, keys: Seq<char>)
    requires
        volume_in_range(s),
        s.volume > 0,
    ensures
        ({
            let (after, heard) = press_all(s, keys);
            &&& volume_in_range(after)
            &&& heard is Some
            &&& after.volume > 0 ==> after.volume == heard->0
            &&& after.volume == 0 ==> after.prev == heard && after_volume_key(after, '0').volume
                == heard->0
        }),
    decreases keys.len(),
{
    if keys.len() > 0 {
        unmuting_restores_what_was_heard_last(s, keys.drop_last());
    }
}

/// A key that is no digit changes no volume.
pub proof fn other_keys_leave_the_volume(s: VolumeState, key: char)
    requires
        !('0' <= key <= '9'),
    ensures
        after_volume_key(s, key) == s,
{
}

/// At the start the player plays, at the volume that was asked for or at 100 if
/// that is less, and remembers none; the first press of space pauses it, and the
/// first press of `0` mutes it, or unmutes it to 100 if it was asked for silence.
pub proof fn player_starts_playing(volume: u8, space: KeyEvent, zero: KeyEvent, now: int)
    requires
        now >= CLOCK_START,
        space.pressed,
        space.char == Some(' '),
        zero.pressed,
        zero.char == Some('0'),
    ensures
        ({
            let c = at_start(volume);
            &&& c.playing && !c.quit
            &&& volume <= 100 ==> c.volumes.volume == volume
            &&& volume > 100 ==> c.volumes.volume == 100
            &&& !after_key(c, space, now).0.playing
            &&& volume > 0 ==> after_key(c, zero, now).1 == Some(0int)
            &&& volume == 0 ==> after_key(c, zero, now).1 == Some(100int)
        }),
{
}

/// What keys act on is the state itself: whether it plays, its volumes and the
/// request to quit, as they are, with the time of the last toggle.
pub proof fn controls_are_the_state(s: UiState, last_toggle: u64)
    ensures
        ({
            let c = s.controls(last_toggle);
            &&& c.playing == s.playing
            &&& c.volumes.volume == s.volume
            &&& c.volumes.prev is Some <==> s.prev is Some
            &&& s.prev is Some ==> c.volumes.prev->0 == s.prev->0
            &&& c.quit == s.quit
            &&& c.last_toggle == last_toggle
            &&& c.volumes == s.volumes()
            &&& s.wf() <==> s.volume <= 100 && (s.prev is Some ==> 0 < s.prev->0 <= 100)
        }),
{
}

} // verus!
