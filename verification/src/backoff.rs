//! Beatmap downloads: the retry schedule used while the site answers with an
//! error page (delays grow geometrically and, once past an optional
//! maximum, stay at that maximum), and the check of a downloaded file.
//!
//! Delays are whole milliseconds. The schedule follows the arithmetic of
//! `std::time::Duration`, which can hold at most [`max_delay_ms`]
//! milliseconds and panics when a multiplication would go past that.

use vstd::arithmetic::power::pow;
use vstd::prelude::*;

verus! {

/// The largest number of whole milliseconds that a `Duration` holds.
pub open spec fn max_delay_ms() -> nat {
    18_446_744_073_709_551_615 * 1000 + 999
}

/// The state of a backoff schedule.
pub struct BackoffView {
    /// The current delay before the factor, in milliseconds.
    pub current: nat,
    pub base: nat,
    pub factor: nat,
    /// The largest delay handed out, in milliseconds.
    pub max_delay: Option<nat>,
}

/// The undelayed product `current * factor`.
pub open spec fn raw_delay(s: BackoffView) -> nat {
    s.current * s.factor
}

/// Whether the maximum cuts the next delay.
pub open spec fn is_capped(s: BackoffView) -> bool {
    match s.max_delay {
        Some(m) => raw_delay(s) > m,
        None => false,
    }
}

/// The next delay of the schedule.
pub open spec fn next_delay(s: BackoffView) -> nat {
    if is_capped(s) {
        s.max_delay.unwrap()
    } else {
        raw_delay(s)
    }
}

/// The state after handing out one delay: unchanged once capped, else the
/// current delay grows by the base.
pub open spec fn next_state(s: BackoffView) -> BackoffView {
    if is_capped(s) {
        s
    } else {
        BackoffView { current: s.current * s.base, ..s }
    }
}

/// Whether handing out the next delay stays within `Duration`.
pub open spec fn next_fits(s: BackoffView) -> bool {
    &&& raw_delay(s) <= max_delay_ms()
    &&& (!is_capped(s) ==> s.current * s.base <= max_delay_ms())
}

/// The first `n` delays of the schedule.
pub open spec fn delays(s: BackoffView, n: nat) -> Seq<nat>
    decreases n,
{
    if n == 0 {
        Seq::<nat>::empty()
    } else {
        seq![next_delay(s)] + delays(next_state(s), (n - 1) as nat)
    }
}

/// The state after `n` delays.
pub open spec fn state_after(s: BackoffView, n: nat) -> BackoffView
    decreases n,
{
    if n == 0 {
        s
    } else {
        state_after(next_state(s), (n - 1) as nat)
    }
}

/// Whether the first `n` delays all stay within `Duration`.
pub open spec fn delays_fit(s: BackoffView, n: nat) -> bool
    decreases n,
{
    if n == 0 {
        true
    } else {
        next_fits(s) && delays_fit(next_state(s), (n - 1) as nat)
    }
}

/// A schedule of delays `base * factor`, `base² * factor`, ... milliseconds,
/// each cut to the maximum delay when one is set.
#[derive(Debug, Clone)]
pub struct ExponentialBackoff {
    current: u128,
    base: u32,
    factor: u32,
    max_delay: Option<u128>,
}

impl View for ExponentialBackoff {
    type V = BackoffView;

    closed spec fn view(&self) -> BackoffView {
        BackoffView {
            current: self.current as nat,
            base: self.base as nat,
            factor: self.factor as nat,
            max_delay: match self.max_delay {
                Some(m) => Some(m as nat),
                None => None,
            },
        }
    }
}

impl ExponentialBackoff {
    /// Whether every delay held is one that a `Duration` holds.
    pub closed spec fn wf(&self) -> bool {
        &&& self.current <= max_delay_ms()
        &&& match self.max_delay {
            Some(m) => m <= max_delay_ms(),
            None => true,
        }
    }

    /// A schedule starting at `base` milliseconds, factor 1, no maximum.
    pub fn new(base: u32) -> (r: Self)
        ensures
            r.wf(),
            r@ == (BackoffView { current: base as nat, base: base as nat, factor: 1, max_delay: None }),
    {
        ExponentialBackoff { current: base as u128, base, factor: 1, max_delay: None }
    }

    /// The same schedule with every delay multiplied by `factor`.
    pub fn factor(self, factor: u32) -> (r: Self)
        requires
            self.wf(),
        ensures
            r.wf(),
            r@ == (BackoffView { factor: factor as nat, ..self@ }),
    {
        let mut s = self;
        s.factor = factor;
        s
    }

    /// The same schedule with no delay above `max_delay` milliseconds.
    pub fn max_delay(self, max_delay: u64) -> (r: Self)
        requires
            self.wf(),
        ensures
            r.wf(),
            r@ == (BackoffView { max_delay: Some(max_delay as nat), ..self@ }),
    {
        let mut s = self;
        s.max_delay = Some(max_delay as u128);
        s
    }

    /// Hands out the next delay, in milliseconds; the schedule never ends.
    pub fn next(&mut self) -> (r: Option<u128>)
        requires
            old(self).wf(),
            next_fits(old(self)@),
        ensures
            final(self).wf(),
            r == Some(next_delay(old(self)@) as u128),
            final(self)@ == next_state(old(self)@),
    {
        let duration: u128 = self.current * (self.factor as u128);
        if let Some(max_delay) = self.max_delay {
            if duration > max_delay {
                return Some(max_delay);
            }
        }
        self.current = self.current * (self.base as u128);
        Some(duration)
    }

    /// The next `n` delays, in milliseconds.
    pub fn take(self, n: usize) -> (r: Vec<u128>)
        requires
            self.wf(),
            delays_fit(self@, n as nat),
        ensures
            r@.len() == n,
            forall|i: int| 0 <= i < n ==> r@[i] as nat == #[trigger] delays(self@, n as nat)[i],
    {
        let mut s = self;
        let mut out: Vec<u128> = Vec::new();
        let mut i: usize = 0;
        while i < n
            invariant
                i <= n,
                s.wf(),
                s@ == state_after(self@, i as nat),
                delays_fit(s@, (n - i) as nat),
                out@.len() == i,
                forall|j: int| 0 <= j < i ==> out@[j] as nat == #[trigger] delays(self@, n as nat)[j],
                forall|j: int|
                    0 <= j < n - i ==> delays(self@, n as nat)[i + j] == #[trigger] delays(
                        s@,
                        (n - i) as nat,
                    )[j],
            decreases n - i,
        {
            let ghost before = s@;
            let d = s.next();
            let d = d.unwrap();
            proof {
                let rest = delays(next_state(before), (n - i - 1) as nat);
                assert(delays(before, (n - i) as nat) =~= seq![next_delay(before)] + rest);
                lemma_state_after_step(self@, i as nat);
                lemma_delays_len(before, (n - i) as nat);
                lemma_delays_len(self@, n as nat);
                assert(delays(self@, n as nat)[i + 0] == delays(before, (n - i) as nat)[0]);
                assert forall|j: int| 0 <= j < n - i - 1 implies delays(self@, n as nat)[i + 1 + j]
                    == #[trigger] rest[j] by {
                    assert(delays(self@, n as nat)[i + (j + 1)] == delays(before, (n - i) as nat)[j + 1]);
                }
            }
            out.push(d);
            i = i + 1;
        }
        out
    }
}

proof fn lemma_state_after_step(s: BackoffView, i: nat)
    ensures
        state_after(s, i + 1) == next_state(state_after(s, i)),
    decreases i,
{
    assert(state_after(s, i + 1) == state_after(next_state(s), i));
    if i > 0 {
        lemma_state_after_step(next_state(s), (i - 1) as nat);
        assert(state_after(s, i) == state_after(next_state(s), (i - 1) as nat));
    }
}

proof fn lemma_delays_len(s: BackoffView, n: nat)
    ensures
        delays(s, n).len() == n,
    decreases n,
{
    if n > 0 {
        lemma_delays_len(next_state(s), (n - 1) as nat);
    }
}


/// `x`, cut to `m`.
pub open spec fn cut(x: int, m: int) -> int {
    if x > m {
        m
    } else {
        x
    }
}

proof fn lemma_pow_ge_one(b: int, e: nat)
    requires
        b >= 1,
    ensures
        pow(b, e) >= 1,
    decreases e,
{
    reveal(pow);
    if e > 0 {
        lemma_pow_ge_one(b, (e - 1) as nat);
        assert(b * pow(b, (e - 1) as nat) >= 1) by (nonlinear_arith)
            requires
                b >= 1,
                pow(b, (e - 1) as nat) >= 1,
        ;
    }
}

proof fn lemma_delays_capped_form(s: BackoffView, n: nat, m: nat)
    requires
        s.max_delay == Some(m),
        s.base >= 1 || s.current == 0,
    ensures
        delays(s, n).len() == n,
        forall|k: int|
            0 <= k < n ==> #[trigger] delays(s, n)[k] == cut(
                s.current * pow(s.base as int, k as nat) * s.factor,
                m as int,
            ),
    decreases n,
{
    lemma_delays_len(s, n);
    if n > 0 {
        reveal(pow);
        let t = next_state(s);
        lemma_delays_capped_form(t, (n - 1) as nat, m);
        assert forall|k: int| 0 <= k < n implies #[trigger] delays(s, n)[k] == cut(
            s.current * pow(s.base as int, k as nat) * s.factor,
            m as int,
        ) by {
            let c = s.current as int;
            let b = s.base as int;
            let f = s.factor as int;
            if k == 0 {
                assert(pow(b, 0) == 1);
                assert(c * 1 * f == c * f) by (nonlinear_arith);
            } else {
                assert(delays(s, n)[k] == delays(t, (n - 1) as nat)[k - 1]);
                let p = pow(b, (k - 1) as nat);
                assert(pow(b, k as nat) == b * p);
                if is_capped(s) {
                    assert(t == s);
                    if b >= 1 {
                        lemma_pow_ge_one(b, (k - 1) as nat);
                        lemma_pow_ge_one(b, k as nat);
                        assert(c * pow(b, k as nat) * f >= c * f) by (nonlinear_arith)
                            requires
                                pow(b, k as nat) >= 1,
                                c >= 0,
                                f >= 0,
                        ;
                        assert(c * p * f >= c * f) by (nonlinear_arith)
                            requires
                                p >= 1,
                                c >= 0,
                                f >= 0,
                        ;
                    } else {
                        assert(c * f == 0);
                    }
                } else {
                    assert(t.current == c * b);
                    assert((c * b) * p * f == c * (b * p) * f) by (nonlinear_arith);
                }
            }
        }
    }
}

proof fn lemma_delays_uncapped_form(s: BackoffView, n: nat)
    requires
        s.max_delay is None,
    ensures
        delays(s, n).len() == n,
        forall|k: int|
            0 <= k < n ==> #[trigger] delays(s, n)[k] == s.current * pow(s.base as int, k as nat)
                * s.factor,
    decreases n,
{
    lemma_delays_len(s, n);
    if n > 0 {
        reveal(pow);
        let t = next_state(s);
        lemma_delays_uncapped_form(t, (n - 1) as nat);
        assert forall|k: int| 0 <= k < n implies #[trigger] delays(s, n)[k] == s.current * pow(
            s.base as int,
            k as nat,
        ) * s.factor by {
            let c = s.current as int;
            let b = s.base as int;
            let f = s.factor as int;
            if k == 0 {
                assert(pow(b, 0) == 1);
                assert(c * 1 * f == c * f) by (nonlinear_arith);
            } else {
                assert(delays(s, n)[k] == delays(t, (n - 1) as nat)[k - 1]);
                let p = pow(b, (k - 1) as nat);
                assert(pow(b, k as nat) == b * p);
                assert((c * b) * p * f == c * (b * p) * f) by (nonlinear_arith);
            }
        }
    }
}

/// The schedule `ExponentialBackoff::new(base).factor(factor).max_delay(max)`
/// hands out as its `k`-th delay (counting from 0) `base^(k+1) · factor`
/// milliseconds, or `max` once that exceeds `max`; without a maximum it hands
/// out `base^(k+1) · factor` throughout.
pub proof fn law_backoff_delays(base: u32, factor: u32, max: Option<u64>, n: nat)
    ensures
        ({
            let s = BackoffView {
                current: base as nat,
                base: base as nat,
                factor: factor as nat,
                max_delay: match max {
                    Some(m) => Some(m as nat),
                    None => None,
                },
            };
            &&& delays(s, n).len() == n
            &&& forall|k: int|
                0 <= k < n ==> #[trigger] delays(s, n)[k] == match max {
                    Some(m) => cut(pow(base as int, (k + 1) as nat) * factor, m as int),
                    None => pow(base as int, (k + 1) as nat) * factor,
                }
        }),
{
    let s = BackoffView {
        current: base as nat,
        base: base as nat,
        factor: factor as nat,
        max_delay: match max {
            Some(m) => Some(m as nat),
            None => None,
        },
    };
    reveal(pow);
    match max {
        Some(m) => lemma_delays_capped_form(s, n, m as nat),
        None => lemma_delays_uncapped_form(s, n),
    }
    assert forall|k: int| 0 <= k < n implies base * pow(base as int, k as nat) == #[trigger] pow(
        base as int,
        (k + 1) as nat,
    ) by {
        assert(pow(base as int, (k + 1) as nat) == base * pow(base as int, k as nat));
    }
}

// ---------------------------------------------------------------------------
// Beatmap downloads.

/// Whether a downloaded beatmap file is usable: at least six bytes, not
/// starting with `<html>` (the error page the site answers with).
pub open spec fn usable_map_content(bytes: Seq<u8>) -> bool {
    bytes.len() >= 6 && bytes.subrange(0, 6) != seq![60u8, 104u8, 116u8, 109u8, 108u8, 62u8]
}

/// Whether a downloaded beatmap file is usable (see [`usable_map_content`]).
pub fn is_usable_map_content(bytes: &[u8]) -> (r: bool)
    ensures
        r == usable_map_content(bytes@),
{
    if bytes.len() < 6 {
        return false;
    }
    let html: [u8; 6] = [60u8, 104u8, 116u8, 109u8, 108u8, 62u8];
    let ghost h = seq![60u8, 104u8, 116u8, 109u8, 108u8, 62u8];
    assert(html@ =~= h);
    let mut same = true;
    for i in 0..6
        invariant
            bytes@.len() >= 6,
            html@ == h,
            same <==> (forall|j: int| 0 <= j < i ==> bytes@[j] == h[j]),
    {
        if bytes[i] != html[i] {
            same = false;
        }
    }
    if same {
        assert(bytes@.subrange(0, 6) =~= h);
    } else {
        proof {
            let j = choose|j: int| 0 <= j < 6 && bytes@[j] != h[j];
            assert(bytes@.subrange(0, 6)[j] != h[j]);
        }
    }
    !same
}

/// The site path of a beatmap file.
pub open spec fn beatmap_url(base: Seq<char>, map_id: u32) -> Seq<char> {
    base + "osu/"@ + crate::text::decimal(map_id as nat)
}

/// The address from which the beatmap `map_id` is downloaded, below the
/// site address `base`.
pub fn beatmap_url_text(base: &str, map_id: u32) -> (r: String)
    ensures
        r@ == beatmap_url(base@, map_id),
{
    let mut out = String::new();
    crate::text::push_str(&mut out, base);
    crate::text::push_str(&mut out, "osu/");
    crate::text::push_decimal(&mut out, map_id as u64);
    assert(out@ =~= beatmap_url(base@, map_id));
    out
}

/// The file name under which the beatmap `map_id` is stored.
pub fn beatmap_file_name(map_id: u32) -> (r: String)
    ensures
        r@ == crate::text::decimal(map_id as nat) + ".osu"@,
{
    let mut out = String::new();
    crate::text::push_decimal(&mut out, map_id as u64);
    crate::text::push_str(&mut out, ".osu");
    assert(out@ =~= crate::text::decimal(map_id as nat) + ".osu"@);
    out
}

// ---------------------------------------------------------------------------
// The retries of a beatmap download.

/// The schedule of the download retries: starting at 2 ms, doubling, times
/// 250, never above 10 seconds.
pub open spec fn map_download_schedule() -> BackoffView {
    BackoffView { current: 2, base: 2, factor: 250, max_delay: Some(10_000) }
}

/// The number of retries after the first fetch.
pub open spec fn map_download_retries() -> nat {
    10
}

/// The delays before the retries, in milliseconds.
pub open spec fn map_download_delays() -> Seq<nat> {
    delays(map_download_schedule(), map_download_retries())
}

/// A beatmap download in progress: how many retries were made.
pub struct MapDownload {
    delays: Vec<u128>,
    retries: usize,
}

impl MapDownload {
    /// The retries made so far.
    pub closed spec fn retries_made(&self) -> nat {
        self.retries as nat
    }

    /// The delays held are those of the schedule, and no more retries were
    /// made than it has.
    pub closed spec fn wf(&self) -> bool {
        &&& self.delays@.len() == map_download_retries()
        &&& forall|i: int| 0 <= i < self.delays@.len() ==> #[trigger] self.delays@[i] as nat
            == map_download_delays()[i]
        &&& self.retries <= map_download_retries()
    }
}

/// What a download does after a fetch.
#[derive(Clone, Copy, Debug, PartialEq, Eq)]
pub enum DownloadStep {
    /// The file is usable.
    Done,
    /// Wait this many milliseconds, then fetch again.
    RetryAfter(u128),
    /// Every retry was used up.
    GiveUp,
}

/// A download before its first fetch.
pub fn map_download() -> (r: MapDownload)
    ensures
        r.wf(),
        r.retries_made() == 0,
{
    let schedule = ExponentialBackoff::new(2).factor(250).max_delay(10_000);
    assert(delays_fit(map_download_schedule(), 10)) by {
        reveal_with_fuel(delays_fit, 11);
    }
    let delays = schedule.take(10);
    MapDownload { delays, retries: 0 }
}

/// The step after a fetch that gave `content`: done when it is usable, else
/// the next retry's delay while retries are left, else giving up.
pub fn after_fetch(download: &mut MapDownload, content: &[u8]) -> (r: DownloadStep)
    requires
        old(download).wf(),
    ensures
        final(download).wf(),
        ({
            let k = old(download).retries_made();
            if usable_map_content(content@) {
                r == DownloadStep::Done && final(download).retries_made() == k
            } else if k < map_download_retries() {
                r == DownloadStep::RetryAfter(map_download_delays()[k as int] as u128)
                    && final(download).retries_made() == k + 1
            } else {
                r == DownloadStep::GiveUp && final(download).retries_made() == k
            }
        }),
{
    if is_usable_map_content(content) {
        return DownloadStep::Done;
    }
    if download.retries < download.delays.len() {
        let d = download.delays[download.retries];
        download.retries = download.retries + 1;
        DownloadStep::RetryAfter(d)
    } else {
        DownloadStep::GiveUp
    }
}

} // verus!
