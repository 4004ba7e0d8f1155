//! The node's view of the chain: how far it has indexed, whether the stream
//! of blocks is still alive and whether it lags behind the chain, and how
//! long to wait before restarting the stream.

use vstd::prelude::*;

use vstd::arithmetic::power2::{lemma2_to64, lemma_pow2_pos, lemma_pow2_unfold, pow2};

use crate::node_types::LatestBlockHeight;

verus! {

/// The network whose blocks are indexed.
#[derive(Clone, Copy, Debug, PartialEq, Eq, Structural)]
pub enum ChainId {
    Mainnet,
    Testnet,
}

/// How the indexer is set up.
#[derive(Clone, Copy, Debug)]
pub struct Options {
    /// The block height to start indexing from.
    pub start_block_height: u64,
    /// Seconds after the latest block's timestamp from which the indexer counts
    /// as behind the chain.
    pub behind_threshold: u64,
    /// Seconds without a new block after which the indexer counts as stalled.
    pub running_threshold: u64,
    pub chain_id: ChainId,
}

/// A point in UTC time: whole seconds since the Unix epoch and nanoseconds
/// past that second.
#[derive(Clone, Copy, Debug, PartialEq, Eq, Structural)]
pub struct UnixTime {
    pub secs: i64,
    pub nanos: u32,
}

/// Whether chrono can represent, as a UTC date and time, the instant that
/// lies `secs` seconds after the Unix epoch: chrono's dates run from
/// -262143-01-01T00:00:00 to 262142-12-31T23:59:59.
pub open spec fn chrono_utc_timestamp_representable(secs: i64) -> bool {
    -8_334_601_228_800 <= secs <= 8_210_266_876_799
}

/// Whether `chrono::Utc.timestamp_opt(secs, 0)` gives `LocalResult::Single`.
/// Its source (`DateTime::from_timestamp`) does exactly when the day
/// `secs.div_euclid(86_400)` after 1970-01-01 lies between chrono's first
/// and last dates, years -262143 and 262142 (`MIN_YEAR`, `MAX_YEAR`).
#[verifier::external_body]
fn utc_timestamp_is_single(secs: i64) -> (single: bool)
    ensures
        single == chrono_utc_timestamp_representable(secs),
{
    matches!(chrono::TimeZone::timestamp_opt(&chrono::Utc, secs, 0), chrono::LocalResult::Single(_))
}

#[verifier::external_type_specification]
#[verifier::external_body]
pub struct ExInstant(std::time::Instant);

#[verifier::external_type_specification]
#[verifier::external_body]
pub struct ExSystemTime(std::time::SystemTime);

/// `std::time::SystemTime::now()`.
#[verifier::external_body]
fn system_time_now() -> std::time::SystemTime {
    std::time::SystemTime::now()
}

/// `t.duration_since(UNIX_EPOCH)` (`std::time::SystemTime::duration_since`),
/// with its error, a time before the epoch, as `None`.
#[verifier::external_body]
fn since_unix_epoch(t: &std::time::SystemTime) -> Option<std::time::Duration> {
    t.duration_since(std::time::UNIX_EPOCH).ok()
}

/// `d.as_secs()` (`std::time::Duration::as_secs`): the whole seconds.
#[verifier::external_body]
fn duration_secs(d: &std::time::Duration) -> u64 {
    d.as_secs()
}

/// `d.subsec_nanos()` (`std::time::Duration::subsec_nanos`): the fraction of
/// a second, which its documentation puts below one billion nanoseconds.
#[verifier::external_body]
fn duration_subsec_nanos(d: &std::time::Duration) -> (n: u32)
    ensures
        n < 1_000_000_000,
{
    d.subsec_nanos()
}

/// `std::time::Instant::now()`.
#[verifier::external_body]
fn monotonic_now() -> std::time::Instant {
    std::time::Instant::now()
}

/// `start.elapsed()` (`std::time::Instant::elapsed`).
#[verifier::external_body]
fn time_since(start: &std::time::Instant) -> std::time::Duration {
    start.elapsed()
}

/// `d.as_nanos()` (`std::time::Duration::as_nanos`): the whole duration in
/// nanoseconds.
#[verifier::external_body]
fn duration_nanos(d: std::time::Duration) -> u128 {
    d.as_nanos()
}

/// Nanoseconds from `timestamp_sec` (seconds since the epoch) to `now`.
pub open spec fn nanos_between(now: UnixTime, timestamp_sec: i64) -> int {
    (now.secs - timestamp_sec) * 1_000_000_000 + now.nanos
}

/// Whether chrono can turn a timeout of `timeout_ms` milliseconds into a
/// `chrono::Duration`; larger ones make it panic.
pub open spec fn timeout_fits(timeout_ms: u64) -> bool {
    timeout_ms <= i64::MAX
}

/// Whether chrono can turn a timeout of `timeout_ms` milliseconds into a
/// `chrono::Duration`.
pub fn timeout_is_representable(timeout_ms: u64) -> (b: bool)
    ensures
        b == timeout_fits(timeout_ms),
{
    timeout_ms <= i64::MAX as u64
}

/// Whether, at time `now`, more than `timeout_ms` milliseconds have passed
/// since `timestamp_sec`; false when chrono cannot represent the timestamp
/// (read as a signed number of seconds).
pub open spec fn elapsed_longer_at(now: UnixTime, timestamp_sec: u64, timeout_ms: u64) -> bool {
    &&& chrono_utc_timestamp_representable(timestamp_sec as i64)
    &&& nanos_between(now, timestamp_sec as i64) > timeout_ms * 1_000_000
}

/// Decides, for the time `now`, whether more than `timeout` milliseconds have
/// passed since `timestamp_sec`. The timeout matters only for a timestamp that
/// chrono can represent.
pub fn elapsed_longer_than_timeout_at(now: UnixTime, timestamp_sec: u64, timeout: u64) -> (r: bool)
    requires
        chrono_utc_timestamp_representable(timestamp_sec as i64) ==> timeout_fits(timeout),
    ensures
        r == elapsed_longer_at(now, timestamp_sec, timeout),
{
    let secs = timestamp_sec as i64;
    if !utc_timestamp_is_single(secs) {
        return false;
    }
    let elapsed: i128 = (now.secs as i128 - secs as i128) * 1_000_000_000 + now.nanos as i128;
    let limit: i128 = timeout as i128 * 1_000_000;
    elapsed > limit
}

/// A reading of the system clock as `chrono::Utc::now` gives one: not before
/// the epoch, with less than a second of nanoseconds, and within chrono's
/// range of dates.
pub open spec fn is_clock_reading(t: UnixTime) -> bool {
    &&& t.secs >= 0
    &&& t.nanos < 1_000_000_000
    &&& chrono_utc_timestamp_representable(t.secs)
}

/// The system clock as `chrono::Utc::now` reads it: the time since the epoch
/// from `SystemTime::now()`, as a UTC date and time. `None` where
/// `chrono::Utc::now` panics: a clock before the epoch, or beyond chrono's
/// range of dates (whose check depends on the whole seconds alone, the
/// fraction staying below a second).
fn utc_now() -> (t: Option<UnixTime>)
    ensures
        t matches Some(u) ==> is_clock_reading(u),
{
    let clock = system_time_now();
    let since = match since_unix_epoch(&clock) {
        Some(d) => d,
        None => {
            return None;
        },
    };
    let secs = duration_secs(&since);
    if secs > i64::MAX as u64 {
        return None;
    }
    let secs = secs as i64;
    if !utc_timestamp_is_single(secs) {
        return None;
    }
    Some(UnixTime { secs, nanos: duration_subsec_nanos(&since) })
}

/// Whether more than `timeout` milliseconds have passed, by the system clock,
/// since `timestamp_sec` (seconds since the epoch): `Some(false)` when chrono
/// cannot represent the timestamp, without reading the clock; otherwise the
/// decision of `elapsed_longer_than_timeout_at` for the time the clock reads,
/// or `None` when the clock cannot be read as a UTC date (before 1970 or past
/// chrono's range).
pub fn is_elapsed_longer_than_timeout(timestamp_sec: u64, timeout: u64) -> (r: Option<bool>)
    requires
        chrono_utc_timestamp_representable(timestamp_sec as i64) ==> timeout_fits(timeout),
    ensures
        !chrono_utc_timestamp_representable(timestamp_sec as i64) ==> r == Some(false),
        r is None ==> chrono_utc_timestamp_representable(timestamp_sec as i64),
        r matches Some(b) ==> (chrono_utc_timestamp_representable(timestamp_sec as i64) ==> exists|
            now: UnixTime,
        | #[trigger] is_clock_reading(now) && b == elapsed_longer_at(now, timestamp_sec, timeout)),
{
    if !utc_timestamp_is_single(timestamp_sec as i64) {
        return Some(false);
    }
    let now = match utc_now() {
        Some(now) => now,
        None => {
            return None;
        },
    };
    let r = elapsed_longer_than_timeout_at(now, timestamp_sec, timeout);
    assert(is_clock_reading(now) && r == elapsed_longer_at(now, timestamp_sec, timeout));
    Some(r)
}

/// What the node knows of its progress through the chain.
pub struct Indexer {
    latest_block_height: LatestBlockHeight,
    last_updated_timestamp: std::time::Instant,
    latest_block_timestamp_nanosec: Option<u64>,
    running_threshold: u64,
    behind_threshold: u64,
}

impl Indexer {
    /// The latest block height seen.
    pub closed spec fn block_height(&self) -> u64 {
        self.latest_block_height.block_height
    }

    /// The worker account the node runs as.
    pub closed spec fn worker(&self) -> Seq<char> {
        self.latest_block_height.account_id@
    }

    /// The timestamp of the latest block seen, in nanoseconds, once one was.
    pub closed spec fn block_timestamp(&self) -> Option<u64> {
        self.latest_block_timestamp_nanosec
    }

    /// Seconds without a new block after which the indexer is stalled.
    pub closed spec fn running_threshold_secs(&self) -> u64 {
        self.running_threshold
    }

    /// Seconds of lag after which the indexer is behind.
    pub closed spec fn behind_threshold_secs(&self) -> u64 {
        self.behind_threshold
    }

    /// The lag threshold in milliseconds, cut to 64 bits as the node does.
    pub open spec fn behind_timeout(&self) -> u64 {
        (self.behind_threshold_secs() * 1000) as u64
    }

    /// A fresh indexer at `latest_block_height`, updated now.
    pub fn new(latest_block_height: LatestBlockHeight, options: &Options) -> (ix: Indexer)
        ensures
            ix.block_height() == latest_block_height.block_height,
            ix.worker() == latest_block_height.account_id@,
            ix.block_timestamp() == None::<u64>,
            ix.running_threshold_secs() == options.running_threshold,
            ix.behind_threshold_secs() == options.behind_threshold,
    {
        Indexer {
            latest_block_height,
            last_updated_timestamp: monotonic_now(),
            latest_block_timestamp_nanosec: None,
            running_threshold: options.running_threshold,
            behind_threshold: options.behind_threshold,
        }
    }

    /// The latest block height seen.
    pub fn latest_block_height(&self) -> (h: u64)
        ensures
            h == self.block_height(),
    {
        self.latest_block_height.block_height
    }

    /// Whether an indexer last updated `elapsed_nanos` nanoseconds ago is
    /// still running: no more than its running threshold has passed.
    pub fn running_after(&self, elapsed_nanos: u128) -> (r: bool)
        ensures
            r == (elapsed_nanos <= self.running_threshold_secs() * 1_000_000_000),
    {
        elapsed_nanos <= self.running_threshold as u128 * 1_000_000_000
    }

    /// Whether the indexer is on track: it saw a block within the running
    /// threshold. Depends on the clock.
    pub fn is_running(&self) -> bool {
        let elapsed = duration_nanos(time_since(&self.last_updated_timestamp));
        self.running_after(elapsed)
    }

    /// The lag threshold in milliseconds.
    pub fn behind_timeout_ms(&self) -> (t: u64)
        ensures
            t == self.behind_timeout(),
    {
        (self.behind_threshold as u128 * 1000) as u64
    }

    /// Whether, at time `now`, the indexer lags behind the chain: it has seen
    /// no block yet, or its latest block is older than the lag threshold.
    pub fn is_behind_at(&self, now: UnixTime) -> (r: bool)
        requires
            self.block_timestamp() is Some ==> timeout_fits(self.behind_timeout()),
        ensures
            r == match self.block_timestamp() {
                None => true,
                Some(ns) => elapsed_longer_at(now, ns / 1_000_000_000, self.behind_timeout()),
            },
    {
        match self.latest_block_timestamp_nanosec {
            Some(ns) => elapsed_longer_than_timeout_at(
                now,
                ns / 1_000_000_000,
                self.behind_timeout_ms(),
            ),
            None => true,
        }
    }

    /// The timestamp of the latest block seen, in nanoseconds, once one was.
    pub fn latest_block_timestamp(&self) -> (t: Option<u64>)
        ensures
            t == self.block_timestamp(),
    {
        self.latest_block_timestamp_nanosec
    }

    /// Whether the indexer lags behind the chain, by the system clock:
    /// `Some(true)` when it has seen no block yet; otherwise whether more than
    /// the lag threshold has passed since the latest block's timestamp, in
    /// whole seconds, as `is_elapsed_longer_than_timeout` decides it (`None`
    /// when the clock cannot be read as a UTC date).
    pub fn is_behind(&self) -> (r: Option<bool>)
        requires
            self.block_timestamp() is Some ==> timeout_fits(self.behind_timeout()),
        ensures
            self.block_timestamp() is None ==> r == Some(true),
            self.block_timestamp() matches Some(ns) ==> {
                let ts = ns / 1_000_000_000;
                &&& !chrono_utc_timestamp_representable(ts as i64) ==> r == Some(false)
                &&& r is None ==> chrono_utc_timestamp_representable(ts as i64)
                &&& r matches Some(b) ==> (chrono_utc_timestamp_representable(ts as i64) ==> exists|
                    now: UnixTime,
                | #[trigger] is_clock_reading(now) && b == elapsed_longer_at(now, ts, self.behind_timeout()))
            },
    {
        match self.latest_block_timestamp_nanosec {
            Some(ns) => is_elapsed_longer_than_timeout(ns / 1_000_000_000, self.behind_timeout_ms()),
            None => Some(true),
        }
    }

    /// Records a new block: its height and timestamp, updated now.
    pub fn update_block_height_and_timestamp(&mut self, block_height: u64, block_timestamp_nanosec: u64)
        ensures
            final(self).block_height() == block_height,
            final(self).block_timestamp() == Some(block_timestamp_nanosec),
            final(self).worker() == old(self).worker(),
            final(self).running_threshold_secs() == old(self).running_threshold_secs(),
            final(self).behind_threshold_secs() == old(self).behind_threshold_secs(),
    {
        self.last_updated_timestamp = monotonic_now();
        self.latest_block_timestamp_nanosec = Some(block_timestamp_nanosec);
        let _ = self.latest_block_height.set(block_height);
    }
}

/// `2^attempt * multiplier` seconds, at most `max`; `None` when the product
/// overflows `u64`, where the node panics.
pub fn backoff_delay(attempt: u32, multiplier: u32, max: u64) -> (r: Option<u64>)
    ensures
        r == backoff_spec(attempt, multiplier, max),
{
    let mut p: u64 = 1;
    let mut k: u32 = 0;
    proof {
        lemma2_to64();
    }
    while k < attempt
        invariant
            k <= attempt,
            p == pow2(k as nat),
        decreases attempt - k,
    {
        proof {
            lemma_pow2_unfold((k + 1) as nat);
        }
        if p > u64::MAX / 2 {
            proof {
                assert forall|j: nat| j >= k + 1 implies pow2(j) > u64::MAX by {
                    lemma_pow2_grows(k as nat + 1, j);
                }
                assert(pow2(attempt as nat) > u64::MAX);
            }
            return None;
        }
        p = p * 2;
        k = k + 1;
    }
    let d = match p.checked_mul(multiplier as u64) {
        Some(d) => d,
        None => {
            return None;
        },
    };
    if d <= max {
        Some(d)
    } else {
        Some(max)
    }
}

/// What happened in the current attempt at streaming blocks.
#[derive(Clone, Copy, Debug, PartialEq, Eq, Structural)]
pub enum AttemptEvent {
    /// The block stream could not be set up.
    BuildFailed,
    /// The block stream was set up and started.
    Started,
    /// The block stream ended; `clean` when it ended without an error.
    Finished { clean: bool },
}

/// What the node does next.
#[derive(Clone, Copy, Debug, PartialEq, Eq, Structural)]
pub enum SupervisorAction {
    /// Wait this many seconds, then go on.
    Wait { secs: u64 },
    /// Stop indexing.
    Stop,
}

/// The back-off of the node's restart loop, in its `attempt`-th attempt:
/// after a failed setup it waits `2^attempt * 10` seconds (at most 3000)
/// before the next attempt; after starting the stream it gives it
/// `2^attempt * 10` seconds (at most 300) to catch up; a stream that ended
/// cleanly stops the node; one that failed is retried after `2^attempt`
/// seconds (at most 1200). `None` where the back-off overflows `u64`.
pub fn supervise(attempt: u32, event: AttemptEvent) -> (r: Option<SupervisorAction>)
    ensures
        r == supervise_spec(attempt, event),
{
    let delay = match event {
        AttemptEvent::BuildFailed => backoff_delay(attempt, 10, 3000),
        AttemptEvent::Started => backoff_delay(attempt, 10, 300),
        AttemptEvent::Finished { clean } => {
            if clean {
                return Some(SupervisorAction::Stop);
            }
            backoff_delay(attempt, 1, 1200)
        },
    };
    match delay {
        Some(d) => Some(SupervisorAction::Wait { secs: d }),
        None => None,
    }
}

/// `supervise`'s answer.
pub open spec fn supervise_spec(attempt: u32, event: AttemptEvent) -> Option<SupervisorAction> {
    let delay = match event {
        AttemptEvent::BuildFailed => backoff_spec(attempt, 10, 3000),
        AttemptEvent::Started => backoff_spec(attempt, 10, 300),
        AttemptEvent::Finished { clean } => backoff_spec(attempt, 1, 1200),
    };
    if event == (AttemptEvent::Finished { clean: true }) {
        Some(SupervisorAction::Stop)
    } else {
        match delay {
            Some(d) => Some(SupervisorAction::Wait { secs: d }),
            None => None,
        }
    }
}

/// The back-off never exceeds its cap, is the uncapped product when that is
/// below the cap, and never shrinks from one attempt to a later one.
pub proof fn lemma_backoff_capped_and_growing(a1: u32, a2: u32, multiplier: u32, max: u64)
    ensures
        backoff_spec(a1, multiplier, max) matches Some(d) ==> d <= max && (d == max || d == pow2(
            a1 as nat,
        ) * multiplier),
        backoff_spec(a1, multiplier, max) matches Some(d) ==> (pow2(a1 as nat) * multiplier <= max
            ==> d == pow2(a1 as nat) * multiplier),
        a1 <= a2 && backoff_spec(a1, multiplier, max) is Some && backoff_spec(a2, multiplier, max) is Some
            ==> backoff_spec(a1, multiplier, max)->Some_0 <= backoff_spec(a2, multiplier, max)->Some_0,
{
    if a1 <= a2 {
        lemma_pow2_grows(a1 as nat, a2 as nat);
        assert(pow2(a1 as nat) * multiplier <= pow2(a2 as nat) * multiplier) by (nonlinear_arith)
            requires
                pow2(a1 as nat) <= pow2(a2 as nat),
        ;
    }
}

/// `2^attempt * factor` seconds, at most `max`.
pub open spec fn capped_wait(attempt: u32, factor: int, max: u64) -> SupervisorAction {
    let v = pow2(attempt as nat) * factor;
    SupervisorAction::Wait { secs: if v <= max { v as u64 } else { max } }
}

/// The restart policy: the node stops only after a stream that ended
/// cleanly. Otherwise, whenever `2^attempt` times the event's factor fits
/// `u64`, it waits that many seconds, capped: factor 10 and cap 3000 after a
/// failed setup, factor 10 and cap 300 after starting a stream, factor 1 and
/// cap 1200 after a stream that failed.
pub proof fn lemma_restart_policy(attempt: u32, event: AttemptEvent)
    ensures
        supervise_spec(attempt, event) == Some(SupervisorAction::Stop) <==> event == (
        AttemptEvent::Finished { clean: true }),
        event == AttemptEvent::BuildFailed && pow2(attempt as nat) * 10 <= u64::MAX ==> supervise_spec(
            attempt,
            event,
        ) == Some(capped_wait(attempt, 10, 3000)),
        event == AttemptEvent::Started && pow2(attempt as nat) * 10 <= u64::MAX ==> supervise_spec(
            attempt,
            event,
        ) == Some(capped_wait(attempt, 10, 300)),
        event == (AttemptEvent::Finished { clean: false }) && pow2(attempt as nat) <= u64::MAX
            ==> supervise_spec(attempt, event) == Some(capped_wait(attempt, 1, 1200)),
{
    lemma_pow2_pos(attempt as nat);
}

/// `backoff_delay`'s answer.
pub open spec fn backoff_spec(attempt: u32, multiplier: u32, max: u64) -> Option<u64> {
    let v = pow2(attempt as nat) * multiplier;
    if pow2(attempt as nat) > u64::MAX || v > u64::MAX {
        None
    } else if v <= max {
        Some(v as u64)
    } else {
        Some(max)
    }
}

proof fn lemma_pow2_grows(i: nat, j: nat)
    requires
        i <= j,
    ensures
        pow2(i) <= pow2(j),
    decreases j - i,
{
    if i < j {
        lemma_pow2_unfold(j);
        lemma_pow2_pos((j - 1) as nat);
        lemma_pow2_grows(i, (j - 1) as nat);
    }
}

} // verus!
