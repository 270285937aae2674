//! The integer side of the system and process statistics: CPU counts as the
//! Lua API and the gauges report them, the counters of one process reading,
//! and the cache that keeps a CPU reading for a short interval.
//!
//! The readings themselves come from the operating system and are handed in
//! as plain values.
use vstd::prelude::*;

verus! {

/// Nanoseconds during which a CPU reading is served from the cache.
pub const CPU_REFRESH_INTERVAL_NANOS: u128 = 200_000_000;

/// A count as reported in a 16-bit field: its value modulo 2^16.
pub open spec fn as_u16_count(count: int) -> int {
    count % 0x1_0000
}

/// Converts a count to `u16` the way a truncating cast does.
fn truncate_count(count: usize) -> (r: u16)
    ensures
        r as int == as_u16_count(count as int),
{
    assert(count as u16 == count % 0x1_0000) by (bit_vector);
    #[verifier::truncate]
    (count as u16)
}

/// Number of logical CPUs, from the number of CPUs the system reports.
pub fn logical_cpus(cpu_count: usize) -> (n: u16)
    ensures
        n as int == as_u16_count(cpu_count as int),
{
    truncate_count(cpu_count)
}

/// Number of physical cores, from the core count the system reports when it
/// can tell one; 0 when it cannot.
pub fn physical_cpus(core_count: Option<usize>) -> (n: u16)
    ensures
        n as int == match core_count {
            Some(c) => as_u16_count(c as int),
            None => 0,
        },
{
    match core_count {
        Some(c) => truncate_count(c),
        None => 0,
    }
}

/// What one reading of the server process gives, in the system's own units.
pub struct ProcessSample {
    /// Resident memory in bytes.
    pub memory_bytes: u64,
    /// Bytes read from disk since the process started.
    pub disk_total_read_bytes: u64,
    /// Bytes written to disk since the process started.
    pub disk_total_written_bytes: u64,
    /// Number of tasks (threads), when the system lists them.
    pub task_count: Option<usize>,
    /// Seconds since the process started.
    pub run_time_secs: u64,
}

/// The integer metrics of the server process.
#[derive(Clone, Copy, Debug, PartialEq, Eq, Structural)]
pub struct ProcessCounters {
    pub memory_bytes: u64,
    pub disk_read_bytes: u64,
    pub disk_write_bytes: u64,
    pub thread_count: u16,
    pub uptime_seconds: u64,
}

/// The counters of a reading; all zero when the process could not be read.
pub fn process_counters(sample: Option<ProcessSample>) -> (c: ProcessCounters)
    ensures
        match sample {
            Some(s) => {
                &&& c.memory_bytes == s.memory_bytes
                &&& c.disk_read_bytes == s.disk_total_read_bytes
                &&& c.disk_write_bytes == s.disk_total_written_bytes
                &&& c.thread_count as int == match s.task_count {
                    Some(t) => as_u16_count(t as int),
                    None => 0,
                }
                &&& c.uptime_seconds == s.run_time_secs
            },
            None => c == ProcessCounters {
                memory_bytes: 0,
                disk_read_bytes: 0,
                disk_write_bytes: 0,
                thread_count: 0,
                uptime_seconds: 0,
            },
        },
{
    match sample {
        Some(s) => {
            let thread_count = match s.task_count {
                Some(t) => truncate_count(t),
                None => 0,
            };
            ProcessCounters {
                memory_bytes: s.memory_bytes,
                disk_read_bytes: s.disk_total_read_bytes,
                disk_write_bytes: s.disk_total_written_bytes,
                thread_count,
                uptime_seconds: s.run_time_secs,
            }
        },
        None => ProcessCounters {
            memory_bytes: 0,
            disk_read_bytes: 0,
            disk_write_bytes: 0,
            thread_count: 0,
            uptime_seconds: 0,
        },
    }
}

/// Time elapsed from `since` to `now` on a monotonic clock, in nanoseconds;
/// zero when `now` lies before `since`.
pub open spec fn elapsed(since: u128, now: u128) -> int {
    if now >= since {
        now - since
    } else {
        0
    }
}

/// Whether a reading taken at `since` is too old to serve at `now`.
pub open spec fn is_stale_at(since: u128, now: u128) -> bool {
    elapsed(since, now) > CPU_REFRESH_INTERVAL_NANOS
}

/// A reading together with the time it was taken (nanoseconds on a monotonic
/// clock).
pub struct RefreshCache<T> {
    value: T,
    taken_at: u128,
}

impl<T> RefreshCache<T> {
    /// The cached reading.
    pub closed spec fn spec_value(&self) -> T {
        self.value
    }

    /// When the cached reading was taken.
    pub closed spec fn spec_taken_at(&self) -> u128 {
        self.taken_at
    }

    /// A cache holding a reading taken at `now`.
    pub fn new(value: T, now: u128) -> (c: Self)
        ensures
            c.spec_value() == value,
            c.spec_taken_at() == now,
    {
        RefreshCache { value, taken_at: now }
    }

    /// Whether the reading must be taken again before it is served at `now`.
    pub fn is_stale(&self, now: u128) -> (r: bool)
        ensures
            r == is_stale_at(self.spec_taken_at(), now),
    {
        let elapsed = if now >= self.taken_at {
            now - self.taken_at
        } else {
            0
        };
        elapsed > CPU_REFRESH_INTERVAL_NANOS
    }

    /// Replaces the reading by one taken at `now`.
    pub fn refresh(&mut self, value: T, now: u128)
        ensures
            final(self).spec_value() == value,
            final(self).spec_taken_at() == now,
    {
        self.value = value;
        self.taken_at = now;
    }

    /// Serves the reading at `now`: when it is stale, `read` takes a new one
    /// and tells when it was taken, and the new one is kept and served;
    /// otherwise the cached reading is served and the cache is unchanged.
    pub fn serve<F: FnOnce() -> (T, u128)>(&mut self, now: u128, read: F) -> (r: T) where T: Copy
        requires
            read.requires(()),
        ensures
            r == final(self).spec_value(),
            (final(self).spec_value(), final(self).spec_taken_at()) == spec_serve(
                old(self).spec_value(),
                old(self).spec_taken_at(),
                now,
                (final(self).spec_value(), final(self).spec_taken_at()),
            ),
            is_stale_at(old(self).spec_taken_at(), now) ==> read.ensures(
                (),
                (final(self).spec_value(), final(self).spec_taken_at()),
            ),
            !is_stale_at(old(self).spec_taken_at(), now) ==> {
                &&& r == old(self).spec_value()
                &&& final(self).spec_value() == old(self).spec_value()
                &&& final(self).spec_taken_at() == old(self).spec_taken_at()
            },
    {
        if self.is_stale(now) {
            let (value, taken_at) = read();
            self.value = value;
            self.taken_at = taken_at;
        }
        self.value
    }

    /// The cached reading.
    pub fn value(&self) -> (v: &T)
        ensures
            *v == self.spec_value(),
    {
        &self.value
    }
}

/// A reading is served unchanged for the whole interval after it was taken,
/// and taken again once the interval has passed.
pub proof fn lemma_fresh_within_interval(taken_at: u128, now: u128)
    requires
        taken_at <= now,
    ensures
        now - taken_at <= CPU_REFRESH_INTERVAL_NANOS ==> !is_stale_at(taken_at, now),
        now - taken_at > CPU_REFRESH_INTERVAL_NANOS ==> is_stale_at(taken_at, now),
{
}

/// The cache after a serve at `now` of a reading taken at `taken_at`, where
/// `fresh` is the reading (and its time) that would be taken if needed.
pub open spec fn spec_serve<T>(value: T, taken_at: u128, now: u128, fresh: (T, u128)) -> (T, u128) {
    if is_stale_at(taken_at, now) {
        fresh
    } else {
        (value, taken_at)
    }
}

/// Calls within the interval after a reading serve that reading: after a
/// serve at `now1`, a serve at any `now2` no later than the interval after the
/// reading it left in the cache returns that same reading and leaves the cache
/// as it is, whatever a new reading would have given.
pub proof fn lemma_serves_agree_within_interval<T>(
    value: T,
    taken_at: u128,
    now1: u128,
    fresh1: (T, u128),
    now2: u128,
    fresh2: (T, u128),
)
    requires
        spec_serve(value, taken_at, now1, fresh1).1 <= now2 <= spec_serve(value, taken_at, now1, fresh1).1
            + CPU_REFRESH_INTERVAL_NANOS,
    ensures
        ({
            let (v1, t1) = spec_serve(value, taken_at, now1, fresh1);
            spec_serve(v1, t1, now2, fresh2) == (v1, t1)
        }),
{
}

/// A clock that seems to run backwards never makes a reading stale.
pub proof fn lemma_never_stale_before_taken(taken_at: u128, now: u128)
    requires
        now <= taken_at,
    ensures
        !is_stale_at(taken_at, now),
{
}

/// A count that fits in 16 bits is reported exactly, and every count is
/// reported as a value below 2^16 that differs from it by a multiple of 2^16.
pub proof fn lemma_counts_reported_exactly_when_they_fit(count: int)
    requires
        count >= 0,
    ensures
        count < 65536 ==> as_u16_count(count) == count,
        0 <= as_u16_count(count) < 65536,
        (count - as_u16_count(count)) % 65536 == 0,
{
}

/// CPU readings are kept for 200 ms: served within 200 ms of being taken, and
/// taken again once more than 200 ms have passed.
pub proof fn lemma_cpu_readings_kept_200_ms(taken_at: u128, now: u128)
    requires
        taken_at <= now,
    ensures
        CPU_REFRESH_INTERVAL_NANOS == 200_000_000,
        is_stale_at(taken_at, now) <==> now - taken_at > 200_000_000,
{
}

} // verus!
