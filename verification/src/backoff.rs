use vstd::prelude::*;
use rand::RngExt;

verus! {

/// The delay before the first reconnect attempt, and the delay that a
/// successful session start restores.
pub const INITIAL_BACKOFF_MS: u64 = 500;

/// The cap on every delay, jitter included.
pub const MAX_BACKOFF_MS: u64 = 30_000;

/// The delay after a failed attempt before jitter: twice the current delay,
/// capped at [`MAX_BACKOFF_MS`].
pub open spec fn backoff_base(current_ms: u64) -> int {
    if 2 * current_ms <= MAX_BACKOFF_MS {
        2 * current_ms
    } else {
        MAX_BACKOFF_MS as int
    }
}

/// The delay before the first reconnect attempt, in milliseconds.
pub fn backoff_initial() -> (ms: u64)
    ensures
        ms == INITIAL_BACKOFF_MS,
{
    INITIAL_BACKOFF_MS
}

/// The delay after a failed attempt, given the jitter that was drawn: the
/// capped double of `current_ms` plus `jitter_ms`, capped again at
/// [`MAX_BACKOFF_MS`].
pub open spec fn next_backoff_spec(current_ms: u64, jitter_ms: u64) -> int {
    if backoff_base(current_ms) + jitter_ms <= MAX_BACKOFF_MS {
        backoff_base(current_ms) + jitter_ms
    } else {
        MAX_BACKOFF_MS as int
    }
}

/// The next delay given the current one and a chosen jitter: the capped
/// double of `current_ms` plus `jitter_ms`, never more than [`MAX_BACKOFF_MS`].
pub fn next_backoff_with_jitter(current_ms: u64, jitter_ms: u64) -> (next_ms: u64)
    ensures
        next_ms == next_backoff_spec(current_ms, jitter_ms),
{
    let doubled: u64 = match current_ms.checked_mul(2) {
        Some(d) => d,
        None => u64::MAX,
    };
    let capped: u64 = if doubled < MAX_BACKOFF_MS { doubled } else { MAX_BACKOFF_MS };
    let jittered: u64 = capped.saturating_add(jitter_ms);
    if jittered < MAX_BACKOFF_MS { jittered } else { MAX_BACKOFF_MS }
}

/// The largest jitter that may be added to the capped double of `current_ms`:
/// a quarter of it, rounded down.
pub fn max_jitter(current_ms: u64) -> (bound: u64)
    ensures
        bound == backoff_base(current_ms) / 4,
{
    let capped: u64 = if current_ms <= MAX_BACKOFF_MS / 2 { current_ms * 2 } else { MAX_BACKOFF_MS };
    capped / 4
}

/// The random generator of a thread (`rand::rngs::ThreadRng`), carried
/// through unopened.
#[verifier::external_type_specification]
#[verifier::external_body]
pub struct ExThreadRng(rand::rngs::ThreadRng);

/// A handle on the random generator of the calling thread (`rand::rng`).
/// Nothing is promised of its state; `rand::rng` panics only when the
/// operating system's random source fails while seeding it.
#[verifier::external_body]
fn thread_rng() -> rand::rngs::ThreadRng {
    rand::rng()
}

/// `rng.random_range(0..=hi)` of `rand::RngExt`: a value drawn from
/// `0..=hi`. The range is never empty, so the call does not panic; which
/// value comes out depends on the generator's state.
#[verifier::external_body]
fn random_up_to(rng: &mut rand::rngs::ThreadRng, hi: u64) -> (r: u64)
    ensures
        r <= hi,
{
    rng.random_range(0..=hi)
}

/// The delay after a failed attempt: the capped double of `current_ms` plus
/// a random jitter of at most a quarter of it, never more than
/// [`MAX_BACKOFF_MS`].
pub fn next_backoff(current_ms: u64) -> (next_ms: u64)
    ensures
        backoff_base(current_ms) <= next_ms,
        next_ms <= backoff_base(current_ms) + backoff_base(current_ms) / 4,
        next_ms <= MAX_BACKOFF_MS,
{
    let bound = max_jitter(current_ms);
    let mut rng = thread_rng();
    let jitter = random_up_to(&mut rng, bound);
    next_backoff_with_jitter(current_ms, jitter)
}

/// Backoff doubles per failed attempt until the doubled delay reaches the
/// 30 s cap, where it stays.
pub proof fn law_backoff_doubles_up_to_cap(current_ms: u64)
    ensures
        2 * current_ms <= MAX_BACKOFF_MS ==> backoff_base(current_ms) == 2 * current_ms,
        2 * current_ms > MAX_BACKOFF_MS ==> backoff_base(current_ms) == MAX_BACKOFF_MS,
        backoff_base(current_ms) <= MAX_BACKOFF_MS,
{
}

/// Starting from any delay that the reconnect loop can hold, the next delay
/// with any jitter is at least the capped double and never more than the
/// 30 s cap; with an admissible jitter (at most a quarter of the capped
/// double) it is also at most the capped double plus that quarter.
pub proof fn law_backoff_stays_in_range(current_ms: u64, jitter_ms: u64)
    requires
        INITIAL_BACKOFF_MS <= current_ms <= MAX_BACKOFF_MS,
    ensures
        INITIAL_BACKOFF_MS <= backoff_base(current_ms) <= next_backoff_spec(current_ms, jitter_ms)
            <= MAX_BACKOFF_MS,
        jitter_ms <= backoff_base(current_ms) / 4 ==> next_backoff_spec(current_ms, jitter_ms)
            <= backoff_base(current_ms) + backoff_base(current_ms) / 4,
{
}

/// The delay before attempt `k + 1` (counting from 0) if every attempt so far
/// failed and the delays only doubled: 500 ms times `2^k`.
pub open spec fn doubled_delay(k: nat) -> nat
    decreases k,
{
    if k == 0 {
        INITIAL_BACKOFF_MS as nat
    } else {
        2 * doubled_delay((k - 1) as nat)
    }
}

/// The delays slept before successive attempts, where each one is what the
/// reconnect loop holds after the previous one ends: the first is the initial
/// delay, and each next one is at least the capped double of the one before
/// and at most the cap.
pub open spec fn failure_delays(delays: Seq<u64>) -> bool {
    &&& delays.len() >= 1
    &&& delays[0] == INITIAL_BACKOFF_MS
    &&& forall|i: int|
        0 <= i < delays.len() - 1 ==> backoff_base(#[trigger] delays[i]) <= delays[i + 1]
            <= MAX_BACKOFF_MS
}

/// Over consecutive failed attempts, the delay before attempt `k + 1` is at
/// least `min(500 ms * 2^k, 30 s)` and never more than 30 s.
pub proof fn law_backoff_grows_over_failures(delays: Seq<u64>, k: int)
    requires
        failure_delays(delays),
        0 <= k < delays.len(),
    ensures
        delays[k] >= (if doubled_delay(k as nat) <= MAX_BACKOFF_MS {
            doubled_delay(k as nat) as int
        } else {
            MAX_BACKOFF_MS as int
        }),
        delays[k] <= MAX_BACKOFF_MS,
    decreases k,
{
    if k > 0 {
        law_backoff_grows_over_failures(delays, k - 1);
        assert(backoff_base(delays[k - 1]) <= delays[(k - 1) + 1] <= MAX_BACKOFF_MS);
        assert(doubled_delay(k as nat) == 2 * doubled_delay((k - 1) as nat));
    }
}

/// The reconnect loop of one connector: it holds the delay to sleep after the
/// session that runs now ends.
///
/// A successful session start restores the initial delay; the end of a
/// session (clean or failed) sleeps the held delay and grows it for the next
/// attempt.
pub struct ReconnectPolicy {
    backoff_ms: u64,
}

impl View for ReconnectPolicy {
    type V = u64;

    /// The delay, in milliseconds, that the end of the current session sleeps.
    closed spec fn view(&self) -> u64 {
        self.backoff_ms
    }
}

impl ReconnectPolicy {
    #[verifier::type_invariant]
    spec fn delay_in_range(self) -> bool {
        INITIAL_BACKOFF_MS <= self.backoff_ms <= MAX_BACKOFF_MS
    }

    /// A reconnect loop before its first attempt: it holds the initial delay.
    pub fn new() -> (policy: Self)
        ensures
            policy@ == INITIAL_BACKOFF_MS,
    {
        ReconnectPolicy { backoff_ms: backoff_initial() }
    }

    /// The delay that the end of the current session will sleep.
    pub fn pending_delay_ms(&self) -> (ms: u64)
        ensures
            ms == self@,
            INITIAL_BACKOFF_MS <= ms <= MAX_BACKOFF_MS,
    {
        proof {
            use_type_invariant(self);
        }
        self.backoff_ms
    }

    /// A session has started successfully: the delay returns to its initial
    /// value.
    pub fn on_session_started(&mut self)
        ensures
            final(self)@ == INITIAL_BACKOFF_MS,
    {
        self.backoff_ms = backoff_initial();
    }

    /// A session has ended, cleanly or with an error: returns the delay to
    /// sleep before the next attempt (the one held), and holds the next one,
    /// the capped double plus a jitter of at most a quarter of it, never more
    /// than the 30 s cap.
    pub fn on_session_ended(&mut self) -> (sleep_ms: u64)
        ensures
            sleep_ms == old(self)@,
            INITIAL_BACKOFF_MS <= sleep_ms <= MAX_BACKOFF_MS,
            backoff_base(old(self)@) <= final(self)@,
            final(self)@ <= backoff_base(old(self)@) + backoff_base(old(self)@) / 4,
            final(self)@ <= MAX_BACKOFF_MS,
    {
        proof {
            use_type_invariant(&*self);
        }
        let sleep_ms = self.backoff_ms;
        let next = next_backoff(sleep_ms);
        self.backoff_ms = next;
        sleep_ms
    }
}

} // verus!
