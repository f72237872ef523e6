//! Queueing a replay for rendering: the checks of the render command,
//! finding the score behind a Bathbot recent-score embed, and the permission
//! checks of the commands that change a server's channels.

use vstd::prelude::*;

use crate::skins::{file_has_extension, has_extension};
use crate::text::{
    opt_view, parse_i64, parse_signed, parse_u32, parse_unsigned, split_last, split_nth, split_pieces,
    trim_end_all, trim_end_matches, trim_start_all, trim_start_matches,
};

verus! {

// ---------------------------------------------------------------------------
// The outside calls.

/// What `osu_db::Replay::from_bytes` reads as the game mode of a replay
/// file (0 standard, 1 taiko, 2 catch, 3 mania), or `None` where it fails.
pub uninterp spec fn spec_replay_mode(bytes: Seq<u8>) -> Option<u8>;

/// Parses a replay file with `osu_db::Replay::from_bytes` and gives its game
/// mode as `Mode::raw` numbers it. The parse is named, not stated. The parse
/// panics on a string whose length prefix has too many continuation bytes
/// (see `replay_length_prefixes_ok`), so such files are left out.
#[verifier::external_body]
fn parsed_replay_mode(bytes: &Vec<u8>) -> (r: Option<u8>)
    requires
        replay_length_prefixes_ok(bytes@),
    ensures
        r == spec_replay_mode(bytes@),
{
    osu_db::Replay::from_bytes(bytes.as_slice()).ok().map(|replay| replay.mode.raw())
}

// ---------------------------------------------------------------------------
// The length prefixes of a replay's strings.
//
// A replay file holds four strings (beatmap hash, player name, replay hash,
// life graph), each a tag byte (0x00: none, 0x0b: a string follows) and, for
// a string, a ULEB128 length and that many bytes. The length is read into a
// `usize`, seven bits per byte; a length whose first `k` bytes have their
// high bit set is shifted by `7 * k` bits at its last byte, which overflows
// the shift once `7 * k` reaches the width of `usize`.

/// The number of bytes from `i` on that have their high bit set.
pub open spec fn leading_continuations(bytes: Seq<u8>, i: int) -> nat
    decreases bytes.len() - i,
{
    if 0 <= i < bytes.len() && bytes[i] >= 0x80 {
        1 + leading_continuations(bytes, i + 1)
    } else {
        0
    }
}

/// The low seven bits of the first `j` bytes from `i`, each shifted by seven
/// bits more than the one before and or-ed together in a `usize`.
pub open spec fn uleb_low_bits(bytes: Seq<u8>, i: int, j: nat) -> usize
    decreases j,
{
    if j == 0 {
        0usize
    } else {
        uleb_low_bits(bytes, i, (j - 1) as nat) | (((bytes[i + j - 1] & 0x7fu8) as usize) << ((7 * (j - 1)) as usize))
    }
}

/// The length read at `i` from `k` continuation bytes and the byte after
/// them, in a `usize`.
pub open spec fn uleb_value(bytes: Seq<u8>, i: int, k: nat) -> usize {
    uleb_low_bits(bytes, i, k) | ((bytes[i + k] as usize) << ((7 * k) as usize))
}

/// Reading the optional string at `p`: `None` where its length prefix is too
/// long for a `usize` shift, `Some(None)` where the read fails there (the
/// bytes end, an unknown tag, a length past the end), `Some(Some(q))` where
/// the string ends just before `q`.
pub open spec fn opt_string_end(bytes: Seq<u8>, p: int) -> Option<Option<int>> {
    if p < 0 || p >= bytes.len() {
        Some(None)
    } else if bytes[p] == 0 {
        Some(Some(p + 1))
    } else if bytes[p] == 0x0b {
        let k = leading_continuations(bytes, p + 1);
        let f = p + 1 + k;
        if f >= bytes.len() {
            Some(None)
        } else if 7 * k >= usize::BITS {
            None
        } else {
            let len = uleb_value(bytes, p + 1, k);
            if len > bytes.len() - (f + 1) {
                Some(None)
            } else {
                Some(Some(f + 1 + len))
            }
        }
    } else {
        Some(None)
    }
}

/// Whether reading the replay's strings meets no length prefix that is too
/// long: the mode byte and the version take five bytes, then come three
/// strings, 23 bytes of counts, score, combo and mods, and the life graph.
/// Whether a string's bytes are UTF-8 is not looked at: after a string that
/// is not, the walk goes on where the parse has already failed, so it may
/// refuse a file that the parse refuses anyway, never one that it reads.
pub open spec fn replay_length_prefixes_ok(bytes: Seq<u8>) -> bool {
    if bytes.len() < 5 || bytes[0] > 3 {
        true
    } else {
        match opt_string_end(bytes, 5) {
            None => false,
            Some(None) => true,
            Some(Some(p1)) => match opt_string_end(bytes, p1) {
                None => false,
                Some(None) => true,
                Some(Some(p2)) => match opt_string_end(bytes, p2) {
                    None => false,
                    Some(None) => true,
                    Some(Some(p3)) => opt_string_end(bytes, p3 + 23) is Some,
                },
            },
        }
    }
}

/// The number of bytes from `i` on that have their high bit set.
fn count_continuations(bytes: &Vec<u8>, i: usize) -> (r: usize)
    requires
        i <= bytes.len(),
    ensures
        r == leading_continuations(bytes@, i as int),
        i + r <= bytes.len(),
{
    let mut k: usize = i;
    while k < bytes.len() && bytes[k] >= 0x80
        invariant
            i <= k <= bytes.len(),
            leading_continuations(bytes@, i as int) == (k - i) + leading_continuations(bytes@, k as int),
        decreases bytes.len() - k,
    {
        k = k + 1;
    }
    k - i
}

/// Where the optional string at `p` ends, as `opt_string_end` says.
fn read_opt_string_end(bytes: &Vec<u8>, p: usize) -> (r: Option<Option<usize>>)
    ensures
        match r {
            None => opt_string_end(bytes@, p as int) is None,
            Some(None) => opt_string_end(bytes@, p as int) == Some(None::<int>),
            Some(Some(q)) => opt_string_end(bytes@, p as int) == Some(Some(q as int)),
        },
{
    if p >= bytes.len() {
        return Some(None);
    }
    if bytes[p] == 0 {
        return Some(Some(p + 1));
    }
    if bytes[p] != 0x0b {
        return Some(None);
    }
    let k = count_continuations(bytes, p + 1);
    let f = p + 1 + k;
    if f >= bytes.len() {
        return Some(None);
    }
    if k >= 10 || 7 * (k as u32) >= usize::BITS {
        assert(7 * k >= usize::BITS) by {
            assert(usize::BITS <= 64);
        }
        return None;
    }
    let mut out: usize = 0;
    let mut j: usize = 0;
    while j < k
        invariant
            j <= k,
            k < 10,
            7 * k < usize::BITS,
            p + 1 + k < bytes.len(),
            out == uleb_low_bits(bytes@, p + 1, j as nat),
        decreases k - j,
    {
        let b = bytes[p + 1 + j];
        let offset: usize = 7 * j;
        out = out | (((b & 0x7f) as usize) << offset);
        j = j + 1;
    }
    let last = bytes[f];
    let len = out | ((last as usize) << (7 * k));
    if len > bytes.len() - (f + 1) {
        Some(None)
    } else {
        Some(Some(f + 1 + len))
    }
}

/// Whether the replay's string length prefixes all fit a `usize` shift, as
/// `replay_length_prefixes_ok` says.
pub fn replay_length_prefixes_fit(bytes: &Vec<u8>) -> (r: bool)
    ensures
        r == replay_length_prefixes_ok(bytes@),
{
    if bytes.len() < 5 || bytes[0] > 3 {
        return true;
    }
    let p1 = match read_opt_string_end(bytes, 5) {
        None => return false,
        Some(None) => return true,
        Some(Some(q)) => q,
    };
    let p2 = match read_opt_string_end(bytes, p1) {
        None => return false,
        Some(None) => return true,
        Some(Some(q)) => q,
    };
    let p3 = match read_opt_string_end(bytes, p2) {
        None => return false,
        Some(None) => return true,
        Some(Some(q)) => q,
    };
    if bytes.len() < 23 || p3 > bytes.len() - 23 {
        return true;
    }
    match read_opt_string_end(bytes, p3 + 23) {
        None => false,
        Some(_) => true,
    }
}

/// The text that `time::OffsetDateTime::from_unix_timestamp(secs)` formatted
/// with `Iso8601::DEFAULT` gives, or `None` where either step fails.
pub uninterp spec fn spec_unix_iso8601(secs: int) -> Option<Seq<char>>;

/// The Unix seconds from 0000-01-01T00:00:00Z to 9999-12-31T23:59:59Z: the
/// instants whose year the default ISO 8601 format writes with four digits.
pub open spec fn unix_secs_four_digit_year(secs: int) -> bool {
    -62_167_219_200 <= secs <= 253_402_300_799
}

/// The instant of `secs` Unix seconds written with the `time` crate's
/// default ISO 8601 format. `OffsetDateTime::from_unix_timestamp` turns the
/// seconds into the crate's date-time and fails outside the years -9999 to
/// 9999; the format fails for the years before 0, which it cannot write with
/// four digits. The formatted text is named, not stated; what is stated of
/// it is that `twilight_model`'s timestamp parse (RFC 3339, which takes the
/// text's four-digit year, nine-digit fraction and `Z`) reads the same
/// seconds back from it.
#[verifier::external_body]
fn unix_iso8601(secs: i64) -> (r: Option<String>)
    ensures
        match r {
            Some(t) => spec_unix_iso8601(secs as int) == Some(t@),
            None => spec_unix_iso8601(secs as int) is None,
        },
        r is Some <==> unix_secs_four_digit_year(secs as int),
        r matches Some(t) ==> spec_timestamp_secs(t@) == Some(secs as int),
{
    time::OffsetDateTime::from_unix_timestamp(secs).ok().and_then(
        |dt| dt.format(&time::format_description::well_known::Iso8601::DEFAULT).ok(),
    )
}

/// The Unix seconds of the timestamp that
/// `twilight_model::util::Timestamp::from_str` reads from `text`, or `None`
/// where it refuses the text.
pub uninterp spec fn spec_timestamp_secs(text: Seq<char>) -> Option<int>;

/// Reads a Discord timestamp with `Timestamp::from_str` and gives its Unix
/// seconds (`Timestamp::as_secs`). What the parse accepts is named, not
/// stated.
#[verifier::external_body]
fn timestamp_secs(text: &str) -> (r: Option<i64>)
    ensures
        match r {
            Some(s) => spec_timestamp_secs(text@) == Some(s as int),
            None => spec_timestamp_secs(text@) is None,
        },
{
    <twilight_model::util::Timestamp as std::str::FromStr>::from_str(text).ok().map(|t| t.as_secs())
}

// ---------------------------------------------------------------------------
// Permissions.

/// `twilight_model::guild::Permissions::ADMINISTRATOR` as bits: `1 << 3`.
#[verifier::external_body]
fn twilight_administrator_bits() -> (r: u64)
    ensures
        r == 8,
{
    twilight_model::guild::Permissions::ADMINISTRATOR.bits()
}

/// `serenity::model::Permissions::ADMINISTRATOR` as bits: `1 << 3`.
#[verifier::external_body]
fn serenity_administrator_bits() -> (r: u64)
    ensures
        r == 8,
{
    serenity::model::Permissions::ADMINISTRATOR.bits()
}

/// `serenity::model::Permissions::MANAGE_CHANNELS` as bits: `1 << 4`.
#[verifier::external_body]
fn serenity_manage_channels_bits() -> (r: u64)
    ensures
        r == 16,
{
    serenity::model::Permissions::MANAGE_CHANNELS.bits()
}

/// Whether a member with the permission bits `bits` may change the channel
/// setup of a server: they must be an administrator.
pub fn may_configure_channels(bits: u64) -> (r: bool)
    ensures
        r == (bits & 8u64 != 0),
{
    let admin = twilight_administrator_bits();
    bits & admin != 0
}

/// Whether a member with the permission bits `bits` in a channel passes the
/// prefix commands' permission check: administrator or channel manager.
pub fn passes_permissions_check(bits: u64) -> (r: bool)
    ensures
        r == (bits & 24u64 != 0),
{
    let wanted = serenity_administrator_bits() | serenity_manage_channels_bits();
    assert(8u64 | 16u64 == 24u64) by (bit_vector);
    bits & wanted != 0
}

// ---------------------------------------------------------------------------
// The render command.

/// Why a replay was not queued.
#[derive(Clone, Copy, Debug, PartialEq, Eq)]
pub enum RenderError {
    /// The attachment's name does not end in `.osr`.
    NotOsrFile,
    /// The server has no output channel.
    NoOutputChannel,
    /// The attachment could not be downloaded.
    DownloadFailed,
    /// The file is not a replay.
    InvalidReplay,
    /// The replay is not an osu!standard play.
    NotStandard,
    /// The replay file could not be stored.
    StoreFailed,
    /// The message is not a Bathbot recent-score embed.
    NotBathbotEmbed,
    /// No score of the player matches the embed.
    ScoreNotFound,
    /// The replay fetched for a score could not be read.
    ReplayUnreadable,
}

/// The message shown for a refused render.
pub open spec fn render_error_message(e: RenderError) -> Seq<char> {
    match e {
        RenderError::NotOsrFile => "The attachment must be a .osr file!"@,
        RenderError::NoOutputChannel => "Looks like this server has not setup their output channel yet.\nBe sure to use `/setup` first."@,
        RenderError::DownloadFailed => "Failed to download attachment"@,
        RenderError::InvalidReplay => "Failed to parse the .osr file. Did you give a valid replay file?"@,
        RenderError::NotStandard => "danser only accepts osu!standard plays, sorry :("@,
        RenderError::StoreFailed => "Failed to store replay file"@,
        RenderError::NotBathbotEmbed => "The command can only be used on Bathbot **/rs** embeds!"@,
        RenderError::ScoreNotFound => "Couldn't find the replay for this score"@,
        RenderError::ReplayUnreadable => "Failed to parse replay"@,
    }
}

impl RenderError {
    /// The message shown for this error.
    pub fn message(&self) -> (r: &'static str)
        ensures
            r@ == render_error_message(*self),
    {
        match self {
            RenderError::NotOsrFile => "The attachment must be a .osr file!",
            RenderError::NoOutputChannel => "Looks like this server has not setup their output channel yet.\nBe sure to use `/setup` first.",
            RenderError::DownloadFailed => "Failed to download attachment",
            RenderError::InvalidReplay => "Failed to parse the .osr file. Did you give a valid replay file?",
            RenderError::NotStandard => "danser only accepts osu!standard plays, sorry :(",
            RenderError::StoreFailed => "Failed to store replay file",
            RenderError::NotBathbotEmbed => "The command can only be used on Bathbot **/rs** embeds!",
            RenderError::ScoreNotFound => "Couldn't find the replay for this score",
            RenderError::ReplayUnreadable => "Failed to parse replay",
        }
    }
}

/// The reply once a replay is queued.
pub open spec fn queued_message() -> Seq<char> {
    "Replay has been pushed to the queue!"@
}

/// The reply once a replay is queued.
pub fn queued_text() -> (r: &'static str)
    ensures
        r@ == queued_message(),
{
    "Replay has been pushed to the queue!"
}

/// Where a rendered replay goes: outside a server, back to the channel of
/// the command; in a server, its output channel.
pub open spec fn render_target_spec(
    filename: Seq<char>,
    guild: Option<u64>,
    output: Option<Option<u64>>,
    channel: u64,
) -> Result<u64, RenderError> {
    if !has_extension(filename, "osr"@) {
        Err(RenderError::NotOsrFile)
    } else {
        match guild {
            None => Ok(channel),
            Some(_) => match output {
                Some(Some(c)) => Ok(c),
                _ => Err(RenderError::NoOutputChannel),
            },
        }
    }
}

/// The checks of the render command before the attachment is downloaded:
/// `filename` is the attachment's name, `guild` the server of the command
/// (if any), `output` the server's output channel as stored (`None` when the
/// server has no settings), `channel` the channel of the command. Gives the
/// channel that the rendered video goes to.
pub fn render_target(filename: &str, guild: Option<u64>, output: Option<Option<u64>>, channel: u64) -> (r:
    Result<u64, RenderError>)
    ensures
        r == render_target_spec(filename@, guild, output, channel),
{
    if !file_has_extension(filename, "osr") {
        return Err(RenderError::NotOsrFile);
    }
    match guild {
        None => Ok(channel),
        Some(_) => match output {
            Some(Some(c)) => Ok(c),
            _ => Err(RenderError::NoOutputChannel),
        },
    }
}

/// The render command refuses an attachment not named `.osr`; otherwise it
/// renders into the channel of the command outside a server, into the
/// server's output channel in a server that has one, and refuses in a
/// server without one.
pub proof fn law_render_target(filename: Seq<char>, guild: Option<u64>, output: Option<Option<u64>>, channel: u64)
    ensures
        !has_extension(filename, "osr"@) ==> render_target_spec(filename, guild, output, channel)
            == Err::<u64, RenderError>(RenderError::NotOsrFile),
        has_extension(filename, "osr"@) && guild is None ==> render_target_spec(filename, guild, output, channel)
            == Ok::<u64, RenderError>(channel),
        has_extension(filename, "osr"@) && guild is Some && output is Some && output->0 is Some
            ==> render_target_spec(filename, guild, output, channel) == Ok::<u64, RenderError>(output->0->0),
        has_extension(filename, "osr"@) && guild is Some && !(output is Some && output->0 is Some)
            ==> render_target_spec(filename, guild, output, channel) == Err::<u64, RenderError>(
            RenderError::NoOutputChannel,
        ),
        render_target_spec(filename, guild, output, channel) is Ok ==> has_extension(filename, "osr"@),
{
}

/// What the render command makes of a replay's parse: `Ok` for an
/// osu!standard play.
pub open spec fn replay_check_spec(mode: Option<u8>) -> Result<(), RenderError> {
    match mode {
        None => Err(RenderError::InvalidReplay),
        Some(m) => if m == 0 {
            Ok(())
        } else {
            Err(RenderError::NotStandard)
        },
    }
}

/// What the render command makes of a replay's parsed mode.
pub fn check_replay_mode(mode: Option<u8>) -> (r: Result<(), RenderError>)
    ensures
        r == replay_check_spec(mode),
        r is Ok <==> mode == Some(0u8),
        mode matches Some(m) && m != 0 ==> r == Err::<(), RenderError>(RenderError::NotStandard),
{
    match mode {
        None => Err(RenderError::InvalidReplay),
        Some(m) => if m == 0 {
            Ok(())
        } else {
            Err(RenderError::NotStandard)
        },
    }
}

/// The check of the render command on the downloaded file: it must be a
/// replay of an osu!standard play. A file whose string length prefixes are
/// too long to read is refused as not a replay.
pub fn check_replay(bytes: &Vec<u8>) -> (r: Result<(), RenderError>)
    ensures
        !replay_length_prefixes_ok(bytes@) ==> r == Err::<(), RenderError>(RenderError::InvalidReplay),
        replay_length_prefixes_ok(bytes@) ==> r == replay_check_spec(spec_replay_mode(bytes@)),
{
    if !replay_length_prefixes_fit(bytes) {
        return Err(RenderError::InvalidReplay);
    }
    check_replay_mode(parsed_replay_mode(bytes))
}

/// The check on a replay fetched for a Bathbot embed: it must parse. A file
/// whose string length prefixes are too long to read is unreadable.
pub fn check_fetched_replay(bytes: &Vec<u8>) -> (r: Result<(), RenderError>)
    ensures
        r is Ok <==> replay_length_prefixes_ok(bytes@) && spec_replay_mode(bytes@) is Some,
        r is Err ==> r == Err::<(), RenderError>(RenderError::ReplayUnreadable),
{
    if !replay_length_prefixes_fit(bytes) {
        return Err(RenderError::ReplayUnreadable);
    }
    match parsed_replay_mode(bytes) {
        Some(_) => Ok(()),
        None => Err(RenderError::ReplayUnreadable),
    }
}

/// The render command takes osu!standard plays (mode 0) alone: every other
/// parsed mode is refused as not standard, a file that does not parse is
/// refused as no replay, and only mode 0 passes.
pub proof fn law_only_standard_replays(mode: Option<u8>)
    ensures
        replay_check_spec(mode) is Ok <==> mode == Some(0u8),
        mode is None ==> replay_check_spec(mode) == Err::<(), RenderError>(RenderError::InvalidReplay),
        forall|m: u8| m != 0 ==> #[trigger] replay_check_spec(Some(m)) == Err::<(), RenderError>(
            RenderError::NotStandard,
        ),
{
}

// ---------------------------------------------------------------------------
// Bathbot embeds.

/// What the render-from-message command reads of a Bathbot embed.
pub struct BathbotEmbed {
    /// The link of the embed's author: the player's osu! profile.
    pub author_url: Option<String>,
    /// The embed's timestamp in Unix seconds, when it has one (maximized
    /// embeds).
    pub timestamp: Option<i64>,
    /// The name of the embed's first field, when it has one.
    pub first_field_name: Option<String>,
}

/// The osu! user id in a profile link: the fifth `/`-separated piece as a
/// `u32` (`https://osu.ppy.sh/users/<id>/...`).
pub open spec fn user_id_of_url(url: Seq<char>) -> Option<u32> {
    let p = split_pieces(url, '/');
    if p.len() > 4 {
        match parse_unsigned(p[4], u32::MAX as nat) {
            Some(v) => Some(v as u32),
            None => None,
        }
    } else {
        None
    }
}

/// The osu! user id in a profile link.
pub fn osu_user_id_of_url(url: &str) -> (r: Option<u32>)
    ensures
        r == user_id_of_url(url@),
{
    match split_nth(url, '/', 4) {
        Some(piece) => parse_u32(piece.as_str()),
        None => None,
    }
}

/// The number in a minimized embed's field name: the part after its last
/// tab, without leading `<t:` and trailing `:R>`, as an `i64`.
pub open spec fn timestamp_text_spec(name: Seq<char>) -> Option<int> {
    let last = split_pieces(name, '\t').last();
    let inner = trim_end_all(trim_start_all(last, "<t:"@), ":R>"@);
    parse_signed(inner, i64::MIN as int, i64::MAX as int)
}

/// The number in a minimized embed's field name (`<t:1234567890:R>`).
pub fn timestamp_text_value(name: &str) -> (r: Option<i64>)
    ensures
        match r {
            Some(v) => timestamp_text_spec(name@) == Some(v as int),
            None => timestamp_text_spec(name@) is None,
        },
{
    proof {
        reveal_strlit("<t:");
        reveal_strlit(":R>");
    }
    let last = split_last(name, '\t');
    let start = trim_start_matches(last.as_str(), "<t:");
    let inner = trim_end_matches(start.as_str(), ":R>");
    parse_i64(inner.as_str())
}

/// The timestamp of a minimized embed: the number in its first field's
/// name, taken through an ISO 8601 text as Discord timestamps are.
pub open spec fn minimized_timestamp_spec(first_field_name: Option<Seq<char>>) -> Option<int> {
    match first_field_name {
        None => None,
        Some(name) => match timestamp_text_spec(name) {
            None => None,
            Some(secs) => match spec_unix_iso8601(secs) {
                None => None,
                Some(text) => spec_timestamp_secs(text),
            },
        },
    }
}

/// The number in the first field's name, where there is one.
pub open spec fn minimized_timestamp_text(first_field_name: Option<Seq<char>>) -> int {
    match first_field_name {
        Some(name) => match timestamp_text_spec(name) {
            Some(secs) => secs,
            None => 0,
        },
        None => 0,
    }
}

/// Whether the first field's name holds a number of seconds whose year is
/// written with four digits.
pub open spec fn readable_minimized_timestamp(first_field_name: Option<Seq<char>>) -> bool {
    match first_field_name {
        Some(name) => match timestamp_text_spec(name) {
            Some(secs) => unix_secs_four_digit_year(secs),
            None => false,
        },
        None => false,
    }
}

/// The timestamp (Unix seconds) of a minimized Bathbot embed, read from the
/// name of its first field; for a number whose year has four digits, that
/// number.
pub fn get_timestamp_from_minimized_embed(first_field_name: &Option<String>) -> (r: Option<i64>)
    ensures
        match r {
            Some(v) => minimized_timestamp_spec(opt_view(*first_field_name)) == Some(v as int),
            None => minimized_timestamp_spec(opt_view(*first_field_name)) is None,
        },
        readable_minimized_timestamp(opt_view(*first_field_name)) ==> r == Some(
            minimized_timestamp_text(opt_view(*first_field_name)) as i64,
        ),
{
    let name = match first_field_name {
        Some(n) => n,
        None => return None,
    };
    let secs = match timestamp_text_value(name.as_str()) {
        Some(s) => s,
        None => return None,
    };
    let text = match unix_iso8601(secs) {
        Some(t) => t,
        None => return None,
    };
    timestamp_secs(text.as_str())
}

/// The player and the time of a Bathbot embed: the osu! user id from the
/// author link and the embed's timestamp, or that of its minimized form.
pub open spec fn bathbot_target_spec(embed: Option<BathbotEmbed>) -> Result<(u32, int), RenderError> {
    match embed {
        None => Err(RenderError::NotBathbotEmbed),
        Some(e) => match e.author_url {
            None => Err(RenderError::NotBathbotEmbed),
            Some(url) => match user_id_of_url(url@) {
                None => Err(RenderError::NotBathbotEmbed),
                Some(id) => match e.timestamp {
                    Some(t) => Ok((id, t as int)),
                    None => match minimized_timestamp_spec(opt_view(e.first_field_name)) {
                        Some(t) => Ok((id, t)),
                        None => Err(RenderError::NotBathbotEmbed),
                    },
                },
            },
        },
    }
}

/// Reads the first embed of the message that the command was used on
/// (`None` when the message has none).
pub fn bathbot_target(embed: &Option<BathbotEmbed>) -> (r: Result<(u32, i64), RenderError>)
    ensures
        match r {
            Ok((id, t)) => bathbot_target_spec(*embed) == Ok::<(u32, int), RenderError>((id, t as int)),
            Err(e) => bathbot_target_spec(*embed) == Err::<(u32, int), RenderError>(e),
        },
{
    let e = match embed {
        Some(e) => e,
        None => return Err(RenderError::NotBathbotEmbed),
    };
    let url = match &e.author_url {
        Some(u) => u,
        None => return Err(RenderError::NotBathbotEmbed),
    };
    let id = match osu_user_id_of_url(url.as_str()) {
        Some(id) => id,
        None => return Err(RenderError::NotBathbotEmbed),
    };
    match e.timestamp {
        Some(t) => Ok((id, t)),
        None => match get_timestamp_from_minimized_embed(&e.first_field_name) {
            Some(t) => Ok((id, t)),
            None => Err(RenderError::NotBathbotEmbed),
        },
    }
}

/// What the search reads of a score from the osu! API.
#[derive(Clone, Copy, Debug, PartialEq, Eq)]
pub struct ScoreCandidate {
    /// When the play ended, in Unix seconds.
    pub ended_at: i64,
    /// Whether the API offers the replay (`None` when it did not say).
    pub replay: Option<bool>,
}

/// Whether a score is the one of an embed taken at `ts`: it ended within
/// three seconds of `ts` and its replay is available.
pub open spec fn score_matches(s: ScoreCandidate, ts: int) -> bool {
    -3 <= s.ended_at - ts <= 3 && s.replay == Some(true)
}

/// A score is the embed's when it ended at most three seconds before or
/// after the embed's time and the API says its replay is available; a score
/// without a replay, or with no word on one, never is.
pub proof fn law_score_matches(s: ScoreCandidate, ts: int)
    ensures
        score_matches(s, ts) ==> s.replay == Some(true),
        score_matches(s, ts) ==> ts - 3 <= s.ended_at <= ts + 3,
        s.replay == Some(true) && ts - 3 <= s.ended_at <= ts + 3 ==> score_matches(s, ts),
{
}

/// The first score that matches the embed's time, if any.
pub fn find_score(scores: &Vec<ScoreCandidate>, ts: i64) -> (r: Option<usize>)
    ensures
        match r {
            Some(i) => i < scores@.len() && score_matches(scores@[i as int], ts as int) && forall|
                j: int,
            |
                0 <= j < i ==> !score_matches(#[trigger] scores@[j], ts as int),
            None => forall|j: int|
                0 <= j < scores@.len() ==> !score_matches(#[trigger] scores@[j], ts as int),
        },
{
    let n = scores.len();
    for i in 0..n
        invariant
            n == scores@.len(),
            forall|j: int| 0 <= j < i ==> !score_matches(#[trigger] scores@[j], ts as int),
    {
        let s = scores[i];
        let d: i128 = (s.ended_at as i128) - (ts as i128);
        let available = match s.replay {
            Some(b) => b,
            None => false,
        };
        if -3 <= d && d <= 3 && available {
            return Some(i);
        }
    }
    None
}

/// Which score the render-from-message command takes: the first recent
/// score that matches the embed's time, `Some((true, i))` for `recent[i]`;
/// when none does, the first matching top score, `Some((false, i))` for
/// `best[i]`; `None` when neither list has one.
pub fn pick_score(recent: &Vec<ScoreCandidate>, best: &Vec<ScoreCandidate>, ts: i64) -> (r: Option<(bool, usize)>)
    ensures
        match r {
            Some((true, i)) => i < recent@.len() && score_matches(recent@[i as int], ts as int)
                && forall|j: int| 0 <= j < i ==> !score_matches(#[trigger] recent@[j], ts as int),
            Some((false, i)) => (forall|j: int|
                0 <= j < recent@.len() ==> !score_matches(#[trigger] recent@[j], ts as int)) && i
                < best@.len() && score_matches(best@[i as int], ts as int) && forall|j: int|
                0 <= j < i ==> !score_matches(#[trigger] best@[j], ts as int),
            None => (forall|j: int|
                0 <= j < recent@.len() ==> !score_matches(#[trigger] recent@[j], ts as int))
                && forall|j: int| 0 <= j < best@.len() ==> !score_matches(#[trigger] best@[j], ts as int),
        },
{
    match find_score(recent, ts) {
        Some(i) => Some((true, i)),
        None => match find_score(best, ts) {
            Some(i) => Some((false, i)),
            None => None,
        },
    }
}

} // verus!
