//! Retry pacing for token acquisition: an exponential backoff, and the state of
//! the token held for one remote connector.
use vstd::prelude::*;
use std::time::{Duration, Instant};
use crate::claims::AuthClaims;

pub mod model;

verus! {

/// The largest number of nanoseconds that a `std::time::Duration` holds.
pub const DURATION_MAX_NANOS: u128 = 18446744073709551615999999999u128;

#[verifier::external_type_specification]
#[verifier::external_body]
pub struct ExInstant(Instant);

/// Calls `std::time::Instant::now`. Nothing is stated of the result: it is the clock.
#[verifier::external_body]
fn instant_now() -> Instant {
    Instant::now()
}

/// Calls `Instant::elapsed` on `origin`. Nothing is stated of the result: it depends
/// on the clock.
#[verifier::external_body]
fn instant_elapsed(origin: &Instant) -> Duration {
    origin.elapsed()
}

/// Calls `Duration::as_nanos`. Only the range of a duration is stated: `Duration` has
/// no view here that the count could be stated over.
#[verifier::external_body]
fn duration_nanos(d: &Duration) -> (r: u128)
    ensures
        r <= DURATION_MAX_NANOS,
{
    d.as_nanos()
}

/// `2` to the power `k`.
pub open spec fn pow2(k: nat) -> nat
    decreases k,
{
    if k == 0 {
        1
    } else {
        2 * pow2((k - 1) as nat)
    }
}

pub proof fn lemma_pow2_monotone(a: nat, b: nat)
    requires
        a <= b,
    ensures
        1 <= pow2(a) <= pow2(b),
    decreases b,
{
    if b > 0 {
        if a < b {
            lemma_pow2_monotone(a, (b - 1) as nat);
        } else {
            lemma_pow2_monotone((a - 1) as nat, (b - 1) as nat);
        }
    }
}

proof fn lemma_pow2_31()
    ensures
        pow2(31) == 0x8000_0000,
{
    reveal_with_fuel(pow2, 32);
}

/// The state of an exponential backoff; times are nanoseconds since the backoff was made.
pub struct BackoffModel {
    pub current_attempt: u32,
    pub initial_delay: u128,
    pub max_delay: u128,
    pub next_allowed_attempt_at: u128,
}

/// An exponential backoff: after the `n`-th granted attempt, the next one is granted
/// no earlier than `min(initial_delay * 2^(n-1), max_delay)` later.
pub struct ExpBackoff {
    current_attempt: u32,
    initial_delay: u128,
    max_delay: u128,
    next_allowed_attempt_at: u128,
    origin: Instant,
}

impl View for ExpBackoff {
    type V = BackoffModel;

    closed spec fn view(&self) -> BackoffModel {
        BackoffModel {
            current_attempt: self.current_attempt,
            initial_delay: self.initial_delay,
            max_delay: self.max_delay,
            next_allowed_attempt_at: self.next_allowed_attempt_at,
        }
    }
}

/// The pause after the `n`-th granted attempt (`n >= 1`).
pub open spec fn backoff_delay(m: BackoffModel, n: nat) -> int {
    let d = m.initial_delay * pow2((n - 1) as nat);
    if d <= m.max_delay {
        d
    } else {
        m.max_delay as int
    }
}

/// A further attempt can be granted without the delay overflowing a duration.
pub open spec fn can_advance(m: BackoffModel) -> bool {
    &&& m.current_attempt < 32
    &&& m.initial_delay * pow2(m.current_attempt as nat) <= DURATION_MAX_NANOS
}

/// The answer to an attempt at time `now`, and the state after it.
pub open spec fn retry_step(m: BackoffModel, now: u128) -> (bool, BackoffModel) {
    if now < m.next_allowed_attempt_at {
        (false, m)
    } else {
        (
            true,
            BackoffModel {
                current_attempt: (m.current_attempt + 1) as u32,
                next_allowed_attempt_at: (now + backoff_delay(m, (m.current_attempt + 1) as nat)) as u128,
                ..m
            },
        )
    }
}

/// The pause after the first granted attempt is the initial delay, capped at the
/// maximum; from one granted attempt to the next the pause never shrinks, and it never
/// exceeds the maximum.
pub proof fn backoff_delay_grows_to_max(m: BackoffModel, a: nat, b: nat)
    requires
        1 <= a <= b,
    ensures
        backoff_delay(m, 1) == (if m.initial_delay <= m.max_delay { m.initial_delay as int } else { m.max_delay as int }),
        backoff_delay(m, a) <= backoff_delay(m, b),
        backoff_delay(m, b) <= m.max_delay,
{
    lemma_pow2_monotone((a - 1) as nat, (b - 1) as nat);
    let pa = pow2((a - 1) as nat);
    let pb = pow2((b - 1) as nat);
    let i = m.initial_delay as int;
    assert(i * pa <= i * pb) by (nonlinear_arith)
        requires
            0 <= i,
            pa <= pb,
    ;
    assert(pow2(0) == 1);
    assert(i * pow2(0) == i);
}

/// A fresh backoff grants the first attempt whenever it comes.
pub proof fn backoff_grants_first_attempt(initial_delay: u128, max_delay: u128, now: u128)
    ensures
        retry_step(
            BackoffModel { current_attempt: 0, initial_delay, max_delay, next_allowed_attempt_at: 0 },
            now,
        ).0,
{
}

/// An attempt before the window opens is refused and changes nothing. After an attempt
/// granted at `now`, the window reopens exactly one pause later, the pause being that
/// of the attempt's rank: every attempt before then is refused, and one at that time
/// or later is granted.
pub proof fn backoff_paces_attempts(m: BackoffModel, now: u128, later: u128)
    requires
        now <= DURATION_MAX_NANOS,
        m.max_delay <= DURATION_MAX_NANOS,
    ensures
        now < m.next_allowed_attempt_at ==> retry_step(m, now) == (false, m),
        now >= m.next_allowed_attempt_at ==> {
            let m2 = retry_step(m, now).1;
            &&& retry_step(m, now).0
            &&& m2.current_attempt == m.current_attempt + 1 || m.current_attempt == u32::MAX
            &&& m2.next_allowed_attempt_at == now + backoff_delay(m, (m.current_attempt + 1) as nat)
            &&& m2.next_allowed_attempt_at <= now + m.max_delay
            &&& (later < m2.next_allowed_attempt_at ==> retry_step(m2, later) == (false, m2))
            &&& (later >= m2.next_allowed_attempt_at ==> retry_step(m2, later).0)
        },
{
    if now >= m.next_allowed_attempt_at {
        let k = m.current_attempt as nat;
        let i = m.initial_delay as int;
        let p = pow2(k);
        assert(i * p >= 0) by (nonlinear_arith)
            requires
                i >= 0,
                p >= 0,
        ;
        assert(((m.current_attempt + 1) as nat - 1) as nat == k);
    }
}

impl ExpBackoff {
    /// The instant from which the backoff counts time.
    pub closed spec fn origin(&self) -> Instant {
        self.origin
    }

    /// A backoff that grants the first attempt at once; delays in nanoseconds.
    pub fn new(initial_delay: u128, max_delay: u128) -> (r: ExpBackoff)
        requires
            initial_delay <= DURATION_MAX_NANOS,
            max_delay <= DURATION_MAX_NANOS,
        ensures
            r@ == (BackoffModel {
                current_attempt: 0,
                initial_delay,
                max_delay,
                next_allowed_attempt_at: 0,
            }),
    {
        ExpBackoff {
            current_attempt: 0,
            initial_delay,
            max_delay,
            next_allowed_attempt_at: 0,
            origin: instant_now(),
        }
    }

    /// Whether an attempt at `now` (nanoseconds since the backoff was made) is granted;
    /// a granted attempt opens the next window.
    pub fn should_retry_at(&mut self, now: u128) -> (r: bool)
        requires
            now <= DURATION_MAX_NANOS,
            old(self)@.max_delay <= DURATION_MAX_NANOS,
            now >= old(self)@.next_allowed_attempt_at ==> can_advance(old(self)@),
        ensures
            (r, final(self)@) == retry_step(old(self)@, now),
            final(self).origin() == old(self).origin(),
    {
        if now < self.next_allowed_attempt_at {
            return false;
        }
        self.current_attempt = self.current_attempt + 1;
        self.calculate_next_window(now);
        true
    }

    /// Whether an attempt now is granted; a granted attempt opens the next window.
    pub fn should_retry(&mut self) -> (r: bool)
        requires
            old(self)@.max_delay <= DURATION_MAX_NANOS,
            old(self)@.next_allowed_attempt_at <= DURATION_MAX_NANOS ==> can_advance(old(self)@),
        ensures
            exists|now: u128| now <= DURATION_MAX_NANOS && (r, final(self)@) == retry_step(old(self)@, now),
            final(self).origin() == old(self).origin(),
    {
        let elapsed = instant_elapsed(&self.origin);
        let now = duration_nanos(&elapsed);
        self.should_retry_at(now)
    }

    /// Opens the window that follows a granted attempt made at `last_attempt_time`.
    fn calculate_next_window(&mut self, last_attempt_time: u128)
        requires
            last_attempt_time <= DURATION_MAX_NANOS,
            old(self)@.max_delay <= DURATION_MAX_NANOS,
            1 <= old(self).current_attempt <= 32,
            old(self)@.initial_delay * pow2((old(self).current_attempt - 1) as nat) <= DURATION_MAX_NANOS,
        ensures
            final(self).origin == old(self).origin,
            final(self)@ == (BackoffModel {
                next_allowed_attempt_at: (last_attempt_time + backoff_delay(
                    old(self)@,
                    old(self).current_attempt as nat,
                )) as u128,
                ..old(self)@
            }),
    {
        let exponent = self.current_attempt - 1;
        let mut multiplier: u32 = 1;
        let mut k: u32 = 0;
        proof {
            lemma_pow2_monotone(exponent as nat, 31);
            lemma_pow2_31();
        }
        while k < exponent
            invariant
                k <= exponent,
                exponent <= 31,
                multiplier == pow2(k as nat),
                pow2(exponent as nat) <= 0x8000_0000,
            decreases exponent - k,
        {
            proof {
                lemma_pow2_monotone((k + 1) as nat, exponent as nat);
            }
            multiplier = multiplier * 2;
            k = k + 1;
        }
        let initial = self.initial_delay;
        proof {
            assert(initial * (multiplier as int) <= DURATION_MAX_NANOS);
        }
        let scaled: u128 = initial * (multiplier as u128);
        let delay = if scaled <= self.max_delay {
            scaled
        } else {
            self.max_delay
        };
        self.next_allowed_attempt_at = last_attempt_time + delay;
    }
}

/// The token held for one remote connector.
pub enum TokenState {
    /// A token and its claims.
    Fetched((String, AuthClaims)),
    /// No token yet; attempts to fetch one are paced.
    Fetching(ExpBackoff),
}

impl Default for TokenState {
    /// No token yet; attempts paced from one second up to one minute.
    fn default() -> (r: TokenState)
        ensures
            r matches TokenState::Fetching(b) && b@ == (BackoffModel {
                current_attempt: 0,
                initial_delay: 1_000_000_000,
                max_delay: 60_000_000_000,
                next_allowed_attempt_at: 0,
            }),
    {
        TokenState::Fetching(ExpBackoff::new(1_000_000_000, 60_000_000_000))
    }
}

/// What to do when a token is wanted.
#[derive(Debug, PartialEq, Eq)]
pub enum TokenAction {
    /// Use this cached token.
    UseCached(String),
    /// Refuse: attempts come too fast.
    TooManyRequests,
    /// Fetch a new token.
    Fetch,
}

/// Decides how to obtain a token from `state`; `token_expired` tells whether the
/// claims of a held token have expired. An expired token is dropped and a fetch starts
/// with a fresh backoff.
pub fn next_token_action(state: &mut TokenState, token_expired: bool) -> (r: TokenAction)
    requires
        *old(state) matches TokenState::Fetching(b) ==> b@.max_delay <= DURATION_MAX_NANOS && (b@.next_allowed_attempt_at
            <= DURATION_MAX_NANOS ==> can_advance(b@)),
    ensures
        match *old(state) {
            TokenState::Fetched((token, claims)) => if !token_expired {
                r == TokenAction::UseCached(token) && *final(state) == *old(state)
            } else {
                &&& r == TokenAction::Fetch
                &&& *final(state) matches TokenState::Fetching(b) && b@ == (BackoffModel {
                    current_attempt: 0,
                    initial_delay: 1_000_000_000,
                    max_delay: 60_000_000_000,
                    next_allowed_attempt_at: 0,
                })
            },
            TokenState::Fetching(b) => {
                &&& r == TokenAction::Fetch || r == TokenAction::TooManyRequests
                &&& *final(state) matches TokenState::Fetching(b2) && b2.origin() == b.origin() && exists|now: u128|
                    (r == TokenAction::Fetch, b2@) == retry_step(b@, now)
            },
        },
{
    match state {
        TokenState::Fetched((token, _)) => {
            if !token_expired {
                return TokenAction::UseCached(token.clone());
            }
        },
        TokenState::Fetching(backoff) => {
            if !backoff.should_retry() {
                return TokenAction::TooManyRequests;
            }
            return TokenAction::Fetch;
        },
    }
    *state = TokenState::default();
    TokenAction::Fetch
}

// ---------------------------------------------------------------------------
// Addresses of the wallet service
// ---------------------------------------------------------------------------

/// The byte of an ASCII letter or digit.
pub open spec fn is_ascii_alphanumeric(b: nat) -> bool {
    (48 <= b && b <= 57) || (65 <= b && b <= 90) || (97 <= b && b <= 122)
}

/// The upper-case hexadecimal digit of `d`, below sixteen.
pub open spec fn hex_digit(d: nat) -> char {
    if d < 10 {
        (48 + d) as char
    } else {
        (55 + d) as char
    }
}

/// The bytes of the UTF-8 encoding of a character.
pub open spec fn utf8_bytes(c: char) -> Seq<nat> {
    let v = c as nat;
    if v < 0x80 {
        seq![v]
    } else if v < 0x800 {
        seq![0xC0 + v / 64, 0x80 + v % 64]
    } else if v < 0x10000 {
        seq![0xE0 + v / 4096, 0x80 + (v / 64) % 64, 0x80 + v % 64]
    } else {
        seq![0xF0 + v / 262144, 0x80 + (v / 4096) % 64, 0x80 + (v / 64) % 64, 0x80 + v % 64]
    }
}

/// One byte percent-encoded: an ASCII letter or digit as itself, any other byte as `%`
/// and two upper-case hexadecimal digits.
pub open spec fn percent_encoded_byte(b: nat) -> Seq<char> {
    if is_ascii_alphanumeric(b) {
        seq![b as char]
    } else {
        seq!['%', hex_digit(b / 16), hex_digit(b % 16)]
    }
}

/// Some bytes percent-encoded one by one.
pub open spec fn percent_encoded_bytes(bs: Seq<nat>) -> Seq<char>
    decreases bs.len(),
{
    if bs.len() == 0 {
        Seq::empty()
    } else {
        percent_encoded_byte(bs[0]) + percent_encoded_bytes(bs.subrange(1, bs.len() as int))
    }
}

/// The UTF-8 bytes of a text percent-encoded, every byte but those of ASCII letters
/// and digits being encoded.
pub open spec fn percent_encoded(s: Seq<char>) -> Seq<char>
    decreases s.len(),
{
    if s.len() == 0 {
        Seq::empty()
    } else {
        percent_encoded_bytes(utf8_bytes(s[0])) + percent_encoded(s.subrange(1, s.len() as int))
    }
}

/// Calls `percent_encoding::utf8_percent_encode(s, NON_ALPHANUMERIC)` and writes the
/// result out. Claimed: every UTF-8 byte of `s` but those of ASCII letters and digits
/// becomes `%` and two upper-case hexadecimal digits, the others are kept.
#[verifier::external_body]
fn percent_encode(s: &str) -> (r: String)
    ensures
        r@ == percent_encoded(s@),
{
    percent_encoding::utf8_percent_encode(s, percent_encoding::NON_ALPHANUMERIC).to_string()
}

/// The address at which the wallet `wallet_id` of the wallet service at `wallet_url`
/// publishes the document of `did`.
pub fn wallet_did_url(wallet_url: &str, wallet_id: &str, did: &str) -> (r: String)
    ensures
        r@ == wallet_url@ + "/wallet/"@ + wallet_id@ + "/dids/"@ + percent_encoded(did@),
{
    let encoded = percent_encode(did);
    let head = crate::text::concat3(wallet_url, "/wallet/", wallet_id);
    let r = crate::text::concat3(head.as_str(), "/dids/", encoded.as_str());
    proof {
        assert(r@ =~= wallet_url@ + "/wallet/"@ + wallet_id@ + "/dids/"@ + percent_encoded(did@));
    }
    r
}

// ---------------------------------------------------------------------------
// Polling for the outcome of a presentation
// ---------------------------------------------------------------------------

/// The pause between two polls of a session's status, in milliseconds.
pub const POLL_INTERVAL_MS: u64 = 3000;

/// How long a session's status is polled at most, in milliseconds.
pub const POLL_LIMIT_MS: u64 = 10000;

/// Why polling for a token ended without one.
#[derive(Debug, PartialEq, Eq)]
pub enum PollFailure {
    /// The holder's authentication failed.
    AuthenticationFailed,
    /// No final status came within the time limit.
    TimedOut,
}

/// What to do next while polling for a token.
#[derive(Debug, PartialEq, Eq)]
pub enum PollAction {
    /// The token was issued.
    Done(String),
    /// Stop without a token.
    Stop(PollFailure),
    /// Poll again after this many milliseconds.
    Wait(u64),
}

/// The next step of polling: `elapsed_before` is the time spent when the poll was made,
/// `reply` the status it brought (none where it failed), `elapsed_after` the time spent
/// once it came back. Polling stops once the time limit has passed, and ends with the
/// token or a failure once the status is final; otherwise it waits for the poll
/// interval, or for what is left of the time limit where that is shorter.
pub fn next_poll_action(elapsed_before: u64, reply: Option<model::Status>, elapsed_after: u64) -> (r: PollAction)
    ensures
        elapsed_before >= POLL_LIMIT_MS ==> r == PollAction::Stop(PollFailure::TimedOut),
        elapsed_before < POLL_LIMIT_MS ==> match reply {
            Some(model::Status::Success { access_token }) => r == PollAction::Done(access_token),
            Some(model::Status::Failed) => r == PollAction::Stop(PollFailure::AuthenticationFailed),
            _ => r == PollAction::Wait(
                if elapsed_after >= POLL_LIMIT_MS {
                    0
                } else if POLL_LIMIT_MS - elapsed_after < POLL_INTERVAL_MS {
                    (POLL_LIMIT_MS - elapsed_after) as u64
                } else {
                    POLL_INTERVAL_MS
                },
            ),
        },
{
    if elapsed_before >= POLL_LIMIT_MS {
        return PollAction::Stop(PollFailure::TimedOut);
    }
    match reply {
        Some(model::Status::Success { access_token }) => PollAction::Done(access_token),
        Some(model::Status::Failed) => PollAction::Stop(PollFailure::AuthenticationFailed),
        _ => {
            let remaining = if elapsed_after >= POLL_LIMIT_MS {
                0
            } else {
                POLL_LIMIT_MS - elapsed_after
            };
            PollAction::Wait(
                if remaining < POLL_INTERVAL_MS {
                    remaining
                } else {
                    POLL_INTERVAL_MS
                },
            )
        },
    }
}

} // verus!
