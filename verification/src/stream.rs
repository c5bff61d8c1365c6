//! The stream supervisor: the reconnect policy of the long-lived
//! subscription. The connection itself is I/O and lives with the caller;
//! this state machine decides when a (re)connect is due, how long to back
//! off, and marks reconnections so discontinuities can be logged. Transient
//! losses never terminate the subscription; only an invalid endpoint
//! refuses to start.

use vstd::prelude::*;

verus! {

/// Floor of the reconnect backoff, in milliseconds.
pub const MIN_BACKOFF_MS: u64 = 1000;

/// Cap of the reconnect backoff, in milliseconds.
pub const MAX_BACKOFF_MS: u64 = 30000;

/// Whether the text is a well-formed absolute URL; the name stands for
/// what `url::Url::parse` accepts.
pub uninterp spec fn is_valid_url(s: Seq<char>) -> bool;

/// Relies on url::Url::parse: whether the text parses as an absolute URL.
/// The result depends on the characters of the text alone.
#[verifier::external_body]
pub(crate) fn parse_url_ok(s: &str) -> (r: bool)
    ensures
        r == is_valid_url(s@),
{
    url::Url::parse(s).is_ok()
}

/// The delay before reconnect attempt `n`: doubling from the floor,
/// saturating at the cap.
pub open spec fn spec_backoff_ms(n: nat) -> u64
    decreases n,
{
    if n <= 1 {
        MIN_BACKOFF_MS
    } else {
        let prev = spec_backoff_ms((n - 1) as nat);
        if prev >= MAX_BACKOFF_MS / 2 {
            MAX_BACKOFF_MS
        } else {
            (2 * prev) as u64
        }
    }
}

/// The backoff never leaves `[MIN_BACKOFF_MS, MAX_BACKOFF_MS]`.
pub proof fn lemma_backoff_bounds(n: nat)
    ensures
        MIN_BACKOFF_MS <= spec_backoff_ms(n) <= MAX_BACKOFF_MS,
    decreases n,
{
    if n > 1 {
        lemma_backoff_bounds((n - 1) as nat);
    }
}

/// The backoff never shrinks from one failure to the next.
pub proof fn lemma_backoff_monotone(n: nat)
    requires
        1 <= n,
    ensures
        spec_backoff_ms(n) <= spec_backoff_ms(n + 1),
    decreases n,
{
    lemma_backoff_bounds(n);
}

/// The delay before reconnect attempt `n`.
pub fn backoff_ms(n: u64) -> (r: u64)
    ensures
        r == spec_backoff_ms(n as nat),
        MIN_BACKOFF_MS <= r <= MAX_BACKOFF_MS,
{
    proof {
        lemma_backoff_bounds(n as nat);
    }
    let mut i: u64 = 1;
    let mut delay: u64 = MIN_BACKOFF_MS;
    while i < n && delay < MAX_BACKOFF_MS / 2
        invariant
            1 <= i,
            i <= n || i == 1,
            delay == spec_backoff_ms(i as nat),
            MIN_BACKOFF_MS <= delay <= MAX_BACKOFF_MS,
        decreases n - i,
    {
        delay = 2 * delay;
        i += 1;
    }
    if i < n {
        proof {
            lemma_backoff_saturated(i as nat, n as nat);
        }
        MAX_BACKOFF_MS
    } else {
        delay
    }
}

/// Once the backoff has reached half the cap, every later attempt waits
/// the full cap.
proof fn lemma_backoff_saturated(i: nat, n: nat)
    requires
        1 <= i < n,
        spec_backoff_ms(i) >= MAX_BACKOFF_MS / 2,
    ensures
        spec_backoff_ms(n) == MAX_BACKOFF_MS,
    decreases n - i,
{
    lemma_backoff_bounds(i);
    if n - i > 1 {
        lemma_backoff_saturated(i, (n - 1) as nat);
    }
}

/// The reconnect state of the subscription. At most one connection is
/// active at a time: a connect is due only while `connected` is false.
pub struct StreamSupervisor {
    pub endpoint: String,
    pub connected: bool,
    /// Failures since the last healthy connection; drives the backoff.
    pub consecutive_failures: u64,
    /// Connections established over the life of the process.
    pub sessions: u64,
    /// Set only by a permanent rejection (bad credentials); transient
    /// losses never set it, so reconnecting is otherwise unbounded.
    pub terminated: bool,
}

impl StreamSupervisor {
    /// Start supervising `endpoint`. Refused exactly when the endpoint is
    /// not a well-formed URL — the one permanent failure; everything later
    /// is retried.
    pub fn new(endpoint: String) -> (r: Option<StreamSupervisor>)
        ensures
            r is Some <==> is_valid_url(endpoint@),
            r matches Some(s) ==> {
                &&& s.endpoint@ == endpoint@
                &&& !s.connected
                &&& s.consecutive_failures == 0
                &&& s.sessions == 0
                &&& !s.terminated
            },
    {
        if parse_url_ok(endpoint.as_str()) {
            Some(
                StreamSupervisor {
                    endpoint,
                    connected: false,
                    consecutive_failures: 0,
                    sessions: 0,
                    terminated: false,
                },
            )
        } else {
            None
        }
    }

    /// Whether a connection attempt is due now.
    pub fn should_connect(&self) -> (r: bool)
        ensures
            r == (!self.connected && !self.terminated),
    {
        !self.connected && !self.terminated
    }

    /// The endpoint rejected the subscription permanently (for instance,
    /// refused credentials): the sequence of events ends; no reconnect.
    pub fn on_permanent_rejection(&mut self)
        ensures
            final(self).endpoint@ == old(self).endpoint@,
            !final(self).connected,
            final(self).terminated,
            final(self).sessions == old(self).sessions,
    {
        self.connected = false;
        self.terminated = true;
    }

    /// A connection came up. Returns whether this is a reconnection after
    /// a discontinuity, so the caller can emit the observable marker.
    pub fn on_connected(&mut self) -> (was_reconnect: bool)
        ensures
            final(self).endpoint@ == old(self).endpoint@,
            final(self).terminated == old(self).terminated,
            final(self).connected,
            final(self).consecutive_failures == 0,
            final(self).sessions == if old(self).sessions == 0xffff_ffff_ffff_ffffu64 {
                old(self).sessions
            } else {
                (old(self).sessions + 1) as u64
            },
            was_reconnect == (old(self).sessions > 0),
    {
        let was_reconnect = self.sessions > 0;
        self.connected = true;
        self.consecutive_failures = 0;
        if self.sessions < 0xffff_ffff_ffff_ffffu64 {
            self.sessions = self.sessions + 1;
        }
        was_reconnect
    }

    /// The connection dropped or an attempt failed: back off before the
    /// next attempt. The subscription itself never terminates on this.
    pub fn on_disconnected(&mut self) -> (delay_ms: u64)
        ensures
            final(self).endpoint@ == old(self).endpoint@,
            final(self).terminated == old(self).terminated,
            !final(self).connected,
            final(self).sessions == old(self).sessions,
            final(self).consecutive_failures == if old(self).consecutive_failures
                == 0xffff_ffff_ffff_ffffu64 {
                old(self).consecutive_failures
            } else {
                (old(self).consecutive_failures + 1) as u64
            },
            delay_ms == spec_backoff_ms(final(self).consecutive_failures as nat),
            MIN_BACKOFF_MS <= delay_ms <= MAX_BACKOFF_MS,
    {
        self.connected = false;
        if self.consecutive_failures < 0xffff_ffff_ffff_ffffu64 {
            self.consecutive_failures = self.consecutive_failures + 1;
        }
        backoff_ms(self.consecutive_failures)
    }
}

} // verus!
