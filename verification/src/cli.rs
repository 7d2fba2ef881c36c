//! What the player can be asked for on the command line.

use vstd::prelude::*;

verus! {

/// Where the default stream comes from, 128 kbps.
pub const RADIO_URL: &'static str =
    "https://coderadio-admin-v2.freecodecamp.org/listen/coderadio/radio.mp3";

/// Where the 64 kbps stream comes from.
pub const LOW_URL: &'static str =
    "https://coderadio-admin-v2.freecodecamp.org/listen/coderadio/low.mp3";

/// Where the track metadata comes from.
pub const NOWPLAYING_URL: &'static str =
    "https://coderadio-admin-v2.freecodecamp.org/api/nowplaying_static/coderadio.json";

/// The options of the player.
pub struct Cli {
    /// Use the 64 kbps stream instead of the default one.
    pub low: bool,
    /// Playback volume, 0 to 100.
    pub volume: u8,
    /// The address of the stream.
    pub url: String,
    /// Fetch this many bytes, decode them, print stats, then exit.
    pub probe: Option<usize>,
}

/// The address to listen to, given whether the low stream is asked for and an
/// address.
pub open spec fn chosen_url(low: bool, url: Seq<char>) -> Seq<char> {
    if low {
        LOW_URL@
    } else {
        url
    }
}

/// The address to listen to: that of the low stream when it is asked for,
/// whatever address is given besides.
pub fn listen_url(cli: &Cli) -> (url: String)
    ensures
        url@ == if cli.low {
            LOW_URL@
        } else {
            cli.url@
        },
        url@ == chosen_url(cli.low, cli.url@),
{
    if cli.low {
        LOW_URL.to_owned()
    } else {
        cli.url.clone()
    }
}

/// The low stream is one and the same whatever address is given, and without it
/// the given address is taken as it is.
pub proof fn low_stream_overrides_the_address(url: Seq<char>, other: Seq<char>)
    ensures
        chosen_url(true, url) == chosen_url(true, other),
        chosen_url(true, url)
            == "https://coderadio-admin-v2.freecodecamp.org/listen/coderadio/low.mp3"@,
        chosen_url(false, url) == url,
{
}

} // verus!
