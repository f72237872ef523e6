//! The header of an osu! replay (`.osr`) file, written in front of the raw
//! replay data that the osu! API hands out.
//!
//! Integers are little-endian; strings are `0x00` when empty, else `0x0b`,
//! the ULEB128 length of their UTF-8 bytes, then those bytes.

use vstd::prelude::*;
use vstd::utf8::encode_utf8;
use vstd::string::StringSliceAdditionalSpecFns;

verus! {

/// The `n` low bytes of `x`, least significant first.
pub open spec fn le_bytes(x: nat, n: nat) -> Seq<u8>
    decreases n,
{
    if n == 0 {
        Seq::<u8>::empty()
    } else {
        seq![(x % 256) as u8] + le_bytes(x / 256, (n - 1) as nat)
    }
}

/// The unsigned LEB128 encoding of `n`.
pub open spec fn leb128(n: nat) -> Seq<u8>
    decreases n,
{
    if n < 128 {
        seq![n as u8]
    } else {
        seq![((n % 128) + 128) as u8] + leb128(n / 128)
    }
}

/// The encoding of a string: `0x00` for an empty one, else `0x0b`, the
/// LEB128 byte length and the UTF-8 bytes.
pub open spec fn osr_string(s: Seq<char>) -> Seq<u8> {
    if s.len() == 0 {
        seq![0x00u8]
    } else {
        seq![0x0bu8] + leb128(encode_utf8(s).len()) + encode_utf8(s)
    }
}

pub proof fn lemma_leb128_len(n: nat)
    ensures
        1 <= leb128(n).len() <= n + 1,
    decreases n,
{
    if n >= 128 {
        lemma_leb128_len(n / 128);
    }
}

/// The number that LEB128 bytes stand for: the low seven bits of each byte,
/// the first byte lowest.
pub open spec fn leb128_value(a: Seq<u8>) -> nat
    decreases a.len(),
{
    if a.len() == 0 {
        0
    } else {
        ((a[0] & 0x7fu8) as nat) + 128 * leb128_value(a.drop_first())
    }
}

/// The LEB128 encoding of `n` is at least one byte long; every byte but the
/// last has its high bit set and the last has it clear; the low seven bits
/// of the bytes, first byte lowest, make `n`; and the encoding is the
/// shortest: its last byte is zero only when it is the only byte.
pub proof fn law_leb128(n: nat)
    ensures
        ({
            let a = leb128(n);
            let k = a.len();
            &&& k >= 1
            &&& forall|i: int| 0 <= i < k - 1 ==> #[trigger] a[i] & 0x80u8 != 0
            &&& a[k - 1] & 0x80u8 == 0
            &&& leb128_value(a) == n
            &&& (k == 1 || a[k - 1] != 0)
        }),
    decreases n,
{
    lemma_leb128_len(n);
    let a = leb128(n);
    if n < 128 {
        let b = n as u8;
        assert(b & 0x80u8 == 0 && b & 0x7fu8 == b) by (bit_vector)
            requires
                b < 128,
        ;
        assert(a.drop_first() =~= Seq::<u8>::empty());
        assert(leb128_value(a.drop_first()) == 0);
        assert(a[0] == b);
    } else {
        law_leb128(n / 128);
        let rest = leb128(n / 128);
        let m = (n % 128) as u8;
        let b = ((n % 128) + 128) as u8;
        assert(b & 0x80u8 != 0 && b & 0x7fu8 == m) by (bit_vector)
            requires
                m < 128,
                b == m + 128,
        ;
        assert(a =~= seq![b] + rest);
        assert(a.drop_first() =~= rest);
        assert(a[0] == b);
        assert(leb128_value(a) == m as nat + 128 * leb128_value(rest));
        assert(n == n % 128 + 128 * (n / 128)) by (nonlinear_arith);
        assert forall|i: int| 0 <= i < a.len() - 1 implies #[trigger] a[i] & 0x80u8 != 0 by {
            if i > 0 {
                assert(a[i] == rest[i - 1]);
            }
        }
        assert(a[a.len() - 1] == rest[rest.len() - 1]);
        if rest.len() == 1 {
            assert(n / 128 < 128) by {
                if n / 128 >= 128 {
                    lemma_leb128_len(n / 128 / 128);
                }
            }
            assert(rest[0] == (n / 128) as u8);
        }
    }
}

/// Appends `bytes_in` to `bytes`.
fn push_all(bytes: &mut Vec<u8>, bytes_in: &[u8])
    ensures
        final(bytes)@ == old(bytes)@ + bytes_in@,
{
    let ghost b0 = bytes@;
    let n = bytes_in.len();
    for i in 0..n
        invariant
            n == bytes_in@.len(),
            bytes@ == b0 + bytes_in@.subrange(0, i as int),
    {
        bytes.push(bytes_in[i]);
        assert(bytes@ =~= b0 + bytes_in@.subrange(0, i + 1));
    }
    assert(bytes_in@.subrange(0, n as int) =~= bytes_in@);
}

/// Appends the `n` low bytes of `x`, least significant first.
fn push_le(bytes: &mut Vec<u8>, x: u64, n: usize)
    requires
        n <= 8,
    ensures
        final(bytes)@ == old(bytes)@ + le_bytes(x as nat, n as nat),
    decreases n,
{
    if n > 0 {
        bytes.push((x % 256) as u8);
        let ghost mid = bytes@;
        push_le(bytes, x / 256, n - 1);
        assert(bytes@ =~= old(bytes)@ + le_bytes(x as nat, n as nat));
    }
}

/// Appends one byte; returns the number of bytes written.
pub fn encode_byte(bytes: &mut Vec<u8>, byte: u8) -> (r: usize)
    ensures
        final(bytes)@ == old(bytes)@.push(byte),
        r == 1,
{
    bytes.push(byte);
    1
}

/// Appends a little-endian `u16`; returns the number of bytes written.
pub fn encode_short(bytes: &mut Vec<u8>, short: u16) -> (r: usize)
    ensures
        final(bytes)@ == old(bytes)@ + le_bytes(short as nat, 2),
        r == 2,
{
    push_le(bytes, short as u64, 2);
    2
}

/// Appends a little-endian `u32`; returns the number of bytes written.
pub fn encode_int(bytes: &mut Vec<u8>, value: u32) -> (r: usize)
    ensures
        final(bytes)@ == old(bytes)@ + le_bytes(value as nat, 4),
        r == 4,
{
    push_le(bytes, value as u64, 4);
    4
}

/// Appends a little-endian `u64`; returns the number of bytes written.
pub fn encode_long(bytes: &mut Vec<u8>, long: u64) -> (r: usize)
    ensures
        final(bytes)@ == old(bytes)@ + le_bytes(long as nat, 8),
        r == 8,
{
    push_le(bytes, long, 8);
    8
}

/// Appends the ULEB128 encoding of `n`; returns the number of bytes written.
pub fn encode_leb128(bytes: &mut Vec<u8>, n: usize) -> (r: usize)
    ensures
        final(bytes)@ == old(bytes)@ + leb128(n as nat),
        r == leb128(n as nat).len(),
    decreases n,
{
    if n < 128 {
        bytes.push(n as u8);
        assert(bytes@ =~= old(bytes)@ + leb128(n as nat));
        1
    } else {
        bytes.push(((n % 128) + 128) as u8);
        let rest = encode_leb128(bytes, n / 128);
        assert(bytes@ =~= old(bytes)@ + leb128(n as nat));
        proof {
            lemma_leb128_len((n / 128) as nat);
        }
        1 + rest
    }
}

/// Appends a string in the replay format; returns the number of bytes written.
pub fn encode_string(bytes: &mut Vec<u8>, s: &str) -> (r: usize)
    ensures
        final(bytes)@ == old(bytes)@ + osr_string(s@),
        r == osr_string(s@).len(),
{
    if s.is_empty() {
        bytes.push(0x00);
        assert(bytes@ =~= old(bytes)@ + osr_string(s@));
        1
    } else {
        let start = bytes.len();
        let b = s.as_bytes();
        assert(b@.len() == encode_utf8(s@).len());
        let byte_len = b.len();
        assert(byte_len == encode_utf8(s@).len());
        bytes.push(0x0b);
        let _len = encode_leb128(bytes, byte_len);
        push_all(bytes, b);
        assert(bytes@ =~= old(bytes)@ + osr_string(s@));
        bytes.len() - start
    }
}


// ---------------------------------------------------------------------------
// Dates and times.

/// A calendar date (proleptic Gregorian, UTC).
#[derive(Clone, Copy, Debug, PartialEq, Eq)]
pub struct CivilDate {
    pub year: i32,
    /// 1 to 12.
    pub month: u8,
    /// 1 to 31.
    pub day: u8,
}

/// The replay-format game version of a date: the digits `YYYYMMDD`, the year
/// taken as `u32` (wrapping for years before 0).
pub open spec fn game_version_of(date: CivilDate) -> int {
    ((date.year as u32) as int * 100 + date.month as int) * 100 + date.day as int
}

/// Whether [`game_version`] stays within `u32` on `date` (true for every year
/// from 0 to 42948).
pub open spec fn game_version_fits(date: CivilDate) -> bool {
    &&& (date.year as u32) as int * 100 <= u32::MAX
    &&& (date.year as u32) as int * 100 + date.month as int <= u32::MAX / 100
    &&& game_version_of(date) <= u32::MAX
}

/// The game version written into a replay for a play on `date`.
pub fn game_version(date: CivilDate) -> (r: u32)
    requires
        game_version_fits(date),
    ensures
        r == game_version_of(date),
{
    let mut version = date.year as u32;
    version *= 100;

    version += date.month as u32;
    version *= 100;

    version += date.day as u32;

    version
}

/// 0001-01-01T00:00:00Z, in nanoseconds relative to the Unix epoch.
pub open spec fn year_one_unix_nanos() -> int {
    -62_135_596_800_000_000_000
}

/// The earliest and latest instants that the `time` crate represents
/// (-9999-01-01T00:00:00Z and 9999-12-31T23:59:59.999999999Z), in Unix
/// nanoseconds.
pub open spec fn valid_unix_nanos(n: int) -> bool {
    -377_705_116_800_000_000_000 <= n <= 253_402_300_799_999_999_999
}

/// Integer division rounding toward zero, as Rust's `/` on signed integers.
pub open spec fn trunc_div(a: int, b: int) -> int {
    if a >= 0 {
        a / b
    } else {
        -((-a) / b)
    }
}

/// The .NET tick count (100 ns since 0001-01-01) of an instant, reduced into
/// `u64` as `as u64` does on an `i128`.
pub open spec fn ticks_u64(unix_nanos: int) -> nat {
    let t = trunc_div(unix_nanos - year_one_unix_nanos(), 100);
    if t >= 0 {
        t as nat
    } else {
        (t + 0x1_0000_0000_0000_0000) as nat
    }
}

/// Appends the tick count of an instant as a little-endian `u64`; returns the
/// number of bytes written.
pub fn encode_datetime(bytes: &mut Vec<u8>, unix_nanos: i128) -> (r: usize)
    requires
        valid_unix_nanos(unix_nanos as int),
    ensures
        final(bytes)@ == old(bytes)@ + le_bytes(ticks_u64(unix_nanos as int), 8),
        r == 8,
{
    let orig_nanos: i128 = -62_135_596_800_000_000_000;
    let diff: i128 = unix_nanos - orig_nanos;
    let long: i128 = if diff >= 0 {
        diff / 100
    } else {
        -((-diff) / 100)
    };
    let wrapped: u64 = if long >= 0 {
        long as u64
    } else {
        (long + 0x1_0000_0000_0000_0000i128) as u64
    };
    encode_long(bytes, wrapped)
}

// ---------------------------------------------------------------------------
// The whole header.

/// What the replay header needs of a score from the osu! API.
#[derive(Clone, Debug)]
pub struct ScoreInfo {
    /// The game mode: 0 osu!, 1 taiko, 2 catch, 3 mania.
    pub mode: u8,
    /// The date on which the play ended.
    pub ended_at_date: CivilDate,
    /// The instant at which the play ended, in Unix nanoseconds.
    pub ended_at_unix_nanos: i128,
    /// The MD5 checksum of the beatmap, if the API sent the beatmap.
    pub map_checksum: Option<String>,
    /// The player's name, if the API sent the user.
    pub username: Option<String>,
    pub count_300: u32,
    pub count_100: u32,
    pub count_50: u32,
    pub count_geki: u32,
    pub count_katu: u32,
    pub count_miss: u32,
    pub score: u32,
    pub max_combo: u32,
    pub perfect: bool,
    /// The bits of the mod combination.
    pub mods: u32,
    pub score_id: u64,
}

/// The text of an optional string, empty when absent.
pub open spec fn opt_text(o: Option<String>) -> Seq<char> {
    match o {
        Some(s) => s@,
        None => Seq::<char>::empty(),
    }
}

/// Whether a score can be written into a header.
pub open spec fn score_encodable(score: ScoreInfo) -> bool {
    &&& game_version_fits(score.ended_at_date)
    &&& valid_unix_nanos(score.ended_at_unix_nanos as int)
}

/// The start of the header: mode, game version, beatmap checksum, player
/// name and the (empty) replay checksum.
pub open spec fn osr_header_head(score: ScoreInfo) -> Seq<u8> {
    seq![score.mode]
        + le_bytes(game_version_of(score.ended_at_date) as nat, 4)
        + osr_string(opt_text(score.map_checksum))
        + osr_string(opt_text(score.username))
        + osr_string(Seq::<char>::empty())
}

/// The middle of the header: hit counts, score, combo, perfect flag, mods.
pub open spec fn osr_header_stats(score: ScoreInfo) -> Seq<u8> {
    le_bytes((score.count_300 as u16) as nat, 2)
        + le_bytes((score.count_100 as u16) as nat, 2)
        + le_bytes((score.count_50 as u16) as nat, 2)
        + le_bytes((score.count_geki as u16) as nat, 2)
        + le_bytes((score.count_katu as u16) as nat, 2)
        + le_bytes((score.count_miss as u16) as nat, 2)
        + le_bytes(score.score as nat, 4)
        + le_bytes((score.max_combo as u16) as nat, 2)
        + seq![if score.perfect { 1u8 } else { 0u8 }]
        + le_bytes(score.mods as nat, 4)
}

/// The end of the header: the (empty) life bar graph, the time stamp and the
/// length of the replay data that follows.
pub open spec fn osr_header_tail(score: ScoreInfo, data_len: nat) -> Seq<u8> {
    osr_string(Seq::<char>::empty())
        + le_bytes(ticks_u64(score.ended_at_unix_nanos as int), 8)
        + le_bytes((data_len as u32) as nat, 4)
}

/// The header that precedes the raw replay data of `data_len` bytes.
pub open spec fn osr_header(score: ScoreInfo, data_len: nat) -> Seq<u8> {
    osr_header_head(score) + osr_header_stats(score) + osr_header_tail(score, data_len)
}

/// Rotates `v` right by `k` places (`slice::rotate_right`): the last `k`
/// elements move to the front, in order.
#[verifier::external_body]
fn rotate_right(v: &mut Vec<u8>, k: usize)
    requires
        k <= old(v)@.len(),
    ensures
        final(v)@ == old(v)@.subrange(old(v)@.len() - k, old(v)@.len() as int) + old(v)@.subrange(
            0,
            old(v)@.len() - k,
        ),
{
    v.rotate_right(k);
}

/// The text of an optional string, empty when absent (`unwrap_or_default`).
fn text_or_empty(o: &Option<String>) -> (r: &str)
    ensures
        r@ == opt_text(*o),
{
    match o {
        Some(s) => s.as_str(),
        None => {
            proof {
                reveal_strlit("");
            }
            ""
        },
    }
}

fn encode_header_head(bytes: &mut Vec<u8>, score: &ScoreInfo)
    requires
        game_version_fits(score.ended_at_date),
    ensures
        final(bytes)@ == old(bytes)@ + osr_header_head(*score),
{
    encode_byte(bytes, score.mode);
    encode_int(bytes, game_version(score.ended_at_date));
    let ghost b1 = bytes@;

    let map_md5 = text_or_empty(&score.map_checksum);
    encode_string(bytes, map_md5);
    let ghost b2 = bytes@;

    let username = text_or_empty(&score.username);
    encode_string(bytes, username);
    let ghost b3 = bytes@;

    let replay_md5 = String::new();
    encode_string(bytes, replay_md5.as_str());
    assert(bytes@ =~= old(bytes)@ + osr_header_head(*score));
}

fn encode_header_stats(bytes: &mut Vec<u8>, score: &ScoreInfo)
    ensures
        final(bytes)@ == old(bytes)@ + osr_header_stats(*score),
{
    encode_short(bytes, score.count_300 as u16);
    encode_short(bytes, score.count_100 as u16);
    encode_short(bytes, score.count_50 as u16);
    encode_short(bytes, score.count_geki as u16);
    encode_short(bytes, score.count_katu as u16);
    encode_short(bytes, score.count_miss as u16);
    let ghost b1 = bytes@;
    assert(b1 =~= old(bytes)@ + le_bytes((score.count_300 as u16) as nat, 2) + le_bytes(
        (score.count_100 as u16) as nat,
        2,
    ) + le_bytes((score.count_50 as u16) as nat, 2) + le_bytes((score.count_geki as u16) as nat, 2)
        + le_bytes((score.count_katu as u16) as nat, 2) + le_bytes(
        (score.count_miss as u16) as nat,
        2,
    ));

    encode_int(bytes, score.score);

    encode_short(bytes, score.max_combo as u16);

    encode_byte(bytes, if score.perfect { 1 } else { 0 });

    encode_int(bytes, score.mods);
    assert(bytes@ =~= old(bytes)@ + osr_header_stats(*score));
}

fn encode_header_tail(bytes: &mut Vec<u8>, score: &ScoreInfo, data_len: usize)
    requires
        valid_unix_nanos(score.ended_at_unix_nanos as int),
    ensures
        final(bytes)@ == old(bytes)@ + osr_header_tail(*score, data_len as nat),
{
    let lifebar = String::new();
    encode_string(bytes, lifebar.as_str());

    encode_datetime(bytes, score.ended_at_unix_nanos);

    encode_int(bytes, data_len as u32);
    assert(bytes@ =~= old(bytes)@ + osr_header_tail(*score, data_len as nat));
}

/// Turns the raw replay data from the osu! API into a full `.osr` file: the
/// header goes in front, the score id at the end.
pub fn extend_replay_bytes(bytes: &mut Vec<u8>, score: &ScoreInfo)
    requires
        score_encodable(*score),
    ensures
        final(bytes)@ == osr_header(*score, old(bytes)@.len()) + old(bytes)@ + le_bytes(
            score.score_id as nat,
            8,
        ),
{
    let initial_len = bytes.len();

    encode_header_head(bytes, score);
    let ghost b1 = bytes@;
    encode_header_stats(bytes, score);
    let ghost b2 = bytes@;
    encode_header_tail(bytes, score, initial_len);

    let bytes_written = bytes.len() - initial_len;
    assert(bytes@ =~= old(bytes)@ + osr_header(*score, old(bytes)@.len()));

    rotate_right(bytes, bytes_written);
    assert(bytes@ =~= osr_header(*score, old(bytes)@.len()) + old(bytes)@);

    encode_long(bytes, score.score_id);
}

} // verus!
