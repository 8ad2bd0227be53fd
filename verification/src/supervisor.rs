//! The connection supervisor of one remote service.
//!
//! A supervisor owns the client handle of its service: absent at first,
//! established by the first successful connection attempt, and from then on
//! only ever replaced by a newer handle, never taken away. It also holds the
//! retry policy: after a failed attempt, wait a fixed delay and try again,
//! without limit.
//!
//! The supervisor neither dials nor sleeps. Whoever drives it makes one
//! connection attempt, reports the outcome with [`Supervisor::record`], and
//! does what the returned [`Directive`] says.

use vstd::prelude::*;

verus! {

/// Seconds to wait after a failed connection attempt before the next one.
pub const RETRY_DELAY_SECS: u64 = 2;

/// The endpoint of a service whose configuration names none.
pub open spec fn default_endpoint() -> Seq<char> {
    "http://127.0.0.1:3088"@
}

/// The endpoint to dial: the configured one, or the local default.
pub open spec fn resolved_endpoint(configured: Option<Seq<char>>) -> Seq<char> {
    match configured {
        Some(endpoint) => endpoint,
        None => default_endpoint(),
    }
}

/// Resolves the endpoint of a service from its optional configuration.
pub fn resolve_endpoint(configured: Option<String>) -> (endpoint: String)
    ensures
        endpoint@ == resolved_endpoint(
            match configured {
                Some(text) => Some(text@),
                None => None,
            },
        ),
{
    match configured {
        Some(text) => text,
        None => "http://127.0.0.1:3088".to_owned(),
    }
}

/// The outcome of one connection attempt.
pub enum Attempt<H> {
    /// The service answered; this is the handle to it.
    Connected(H),
    /// The service could not be reached.
    Failed,
}

/// What the driver of a supervisor does next.
#[derive(Clone, Copy, Debug, PartialEq, Eq, Structural)]
pub enum Directive {
    /// The handle is published: stop.
    Finish,
    /// Wait this many seconds, then make another attempt.
    RetryAfter { secs: u64 },
}

/// The state of a supervisor, as contracts see it: the published handle,
/// if any, and the number of failed attempts recorded so far (the count
/// stops at `u64::MAX`).
pub struct SupervisorState<H> {
    pub handle: Option<H>,
    pub failures: int,
}

impl<H> SupervisorState<H> {
    /// The state before any attempt: no handle, no failures.
    pub open spec fn fresh() -> Self {
        SupervisorState { handle: None, failures: 0 }
    }

    /// Whether a handle has been published.
    pub open spec fn established(self) -> bool {
        self.handle is Some
    }

    /// The state that follows `self` once `attempt` is recorded. A
    /// connection installs its handle in place of whatever was there; a
    /// failure leaves the handle alone and is counted.
    pub open spec fn after(self, attempt: Attempt<H>) -> Self {
        match attempt {
            Attempt::Connected(handle) => SupervisorState {
                handle: Some(handle),
                failures: self.failures,
            },
            Attempt::Failed => SupervisorState {
                handle: self.handle,
                failures: if self.failures < u64::MAX {
                    self.failures + 1
                } else {
                    self.failures
                },
            },
        }
    }

    /// The state after recording `attempts` in order.
    pub open spec fn after_all(self, attempts: Seq<Attempt<H>>) -> Self
        decreases attempts.len(),
    {
        if attempts.len() == 0 {
            self
        } else {
            self.after(attempts.first()).after_all(attempts.drop_first())
        }
    }
}

/// The directive that answers `attempt`. It depends on the attempt alone:
/// no count of failures ever ends the retrying.
pub open spec fn directive_for<H>(attempt: Attempt<H>) -> Directive {
    match attempt {
        Attempt::Connected(_) => Directive::Finish,
        Attempt::Failed => Directive::RetryAfter { secs: RETRY_DELAY_SECS },
    }
}

/// The directives given while recording `attempts` in order.
pub open spec fn directives_for<H>(attempts: Seq<Attempt<H>>) -> Seq<Directive> {
    Seq::new(attempts.len(), |i: int| directive_for(attempts[i]))
}

/// The supervisor of one service. Only [`Supervisor::record`] changes it.
pub struct Supervisor<H> {
    handle: Option<H>,
    failures: u64,
}

impl<H> View for Supervisor<H> {
    type V = SupervisorState<H>;

    closed spec fn view(&self) -> SupervisorState<H> {
        SupervisorState { handle: self.handle, failures: self.failures as int }
    }
}

impl<H> Supervisor<H> {
    /// A supervisor with no handle yet.
    pub fn new() -> (fresh: Self)
        ensures
            fresh@ == SupervisorState::<H>::fresh(),
    {
        Supervisor { handle: None, failures: 0 }
    }

    /// Records the outcome of one connection attempt and says what to do
    /// next.
    pub fn record(&mut self, attempt: Attempt<H>) -> (next: Directive)
        ensures
            final(self)@ == old(self)@.after(attempt),
            next == directive_for(attempt),
            attempt is Failed ==> final(self)@.handle == old(self)@.handle,
            old(self)@.established() ==> final(self)@.established(),
    {
        match attempt {
            Attempt::Connected(handle) => {
                self.handle = Some(handle);
                Directive::Finish
            },
            Attempt::Failed => {
                if self.failures < u64::MAX {
                    self.failures = self.failures + 1;
                }
                Directive::RetryAfter { secs: RETRY_DELAY_SECS }
            },
        }
    }

    /// Whether a handle has been published.
    pub fn is_established(&self) -> (yes: bool)
        ensures
            yes == self@.established(),
    {
        self.handle.is_some()
    }

    /// The published handle, if there is one.
    pub fn handle(&self) -> (current: Option<&H>)
        ensures
            current is Some == self@.established(),
            current matches Some(handle) ==> self@.handle == Some(*handle),
    {
        self.handle.as_ref()
    }

    /// The published handle. There must be one: a reader that asks before
    /// any connection has succeeded has no handle to get.
    pub fn current_handle(&self) -> (handle: &H)
        requires
            self@.established(),
        ensures
            self@.handle == Some(*handle),
    {
        self.handle.as_ref().unwrap()
    }

    /// The number of failed attempts recorded so far.
    pub fn failed_attempts(&self) -> (count: u64)
        ensures
            count == self@.failures,
    {
        self.failures
    }
}

/// `count` failed attempts in a row.
pub open spec fn failures_in_a_row<H>(count: nat) -> Seq<Attempt<H>> {
    Seq::new(count, |i: int| Attempt::Failed)
}

/// Failed attempts alone never publish or remove a handle.
pub proof fn lemma_failures_keep_handle<H>(start: SupervisorState<H>, count: nat)
    ensures
        start.after_all(failures_in_a_row::<H>(count)).handle == start.handle,
    decreases count,
{
    let attempts = failures_in_a_row::<H>(count);
    if count > 0 {
        assert(attempts.first() == Attempt::<H>::Failed);
        assert(attempts.drop_first() =~= failures_in_a_row::<H>((count - 1) as nat));
        lemma_failures_keep_handle(start.after(Attempt::Failed), (count - 1) as nat);
    }
}

/// Each failed attempt is counted once, until the count reaches
/// `u64::MAX`, where it stays.
pub proof fn lemma_failures_are_counted<H>(start: SupervisorState<H>, count: nat)
    requires
        0 <= start.failures <= u64::MAX,
    ensures
        start.after_all(failures_in_a_row::<H>(count)).failures == if start.failures + count
            <= u64::MAX {
            start.failures + count
        } else {
            u64::MAX as int
        },
    decreases count,
{
    let attempts = failures_in_a_row::<H>(count);
    if count > 0 {
        assert(attempts.first() == Attempt::<H>::Failed);
        assert(attempts.drop_first() =~= failures_in_a_row::<H>((count - 1) as nat));
        lemma_failures_are_counted(start.after(Attempt::Failed), (count - 1) as nat);
    }
}

/// Recording attempts one after another is recording the first part, then
/// the rest.
pub proof fn lemma_after_all_concat<H>(
    start: SupervisorState<H>,
    first: Seq<Attempt<H>>,
    rest: Seq<Attempt<H>>,
)
    ensures
        start.after_all(first + rest) == start.after_all(first).after_all(rest),
    decreases first.len(),
{
    if first.len() == 0 {
        assert(first + rest =~= rest);
    } else {
        assert((first + rest).first() == first.first());
        assert((first + rest).drop_first() =~= first.drop_first() + rest);
        lemma_after_all_concat(start.after(first.first()), first.drop_first(), rest);
    }
}

/// Against a service that fails `count` times and then answers, a fresh
/// supervisor is told to retry after the fixed delay exactly `count` times
/// and to finish only on the answer; it ends established on the answering
/// handle, with `count` failures on record.
pub proof fn lemma_retries_until_connected<H>(count: nat, handle: H)
    requires
        count <= u64::MAX,
    ensures
        ({
            let attempts = failures_in_a_row::<H>(count).push(Attempt::Connected(handle));
            let directives = directives_for(attempts);
            let end = SupervisorState::<H>::fresh().after_all(attempts);
            &&& directives.len() == count + 1
            &&& forall|i: int|
                0 <= i < count ==> #[trigger] directives[i] == (Directive::RetryAfter {
                    secs: RETRY_DELAY_SECS,
                })
            &&& directives[count as int] == Directive::Finish
            &&& end.handle == Some(handle)
            &&& end.failures == count
        }),
{
    let failed = failures_in_a_row::<H>(count);
    let last = seq![Attempt::Connected(handle)];
    let attempts = failed.push(Attempt::Connected(handle));
    let start = SupervisorState::<H>::fresh();
    assert(attempts =~= failed + last);
    lemma_after_all_concat(start, failed, last);
    lemma_failures_are_counted(start, count);
    let mid = start.after_all(failed);
    assert(last.first() == Attempt::Connected(handle));
    assert(last.drop_first().len() == 0);
    assert(mid.after_all(last) == mid.after(Attempt::Connected(handle)).after_all(
        last.drop_first(),
    ));
}

/// However long a service stays unreachable, the supervisor is never told
/// to finish: every directive is a retry after no less than two seconds,
/// and a supervisor without a handle stays without one.
pub proof fn lemma_unreachable_never_finishes<H>(start: SupervisorState<H>, count: nat)
    ensures
        ({
            let directives = directives_for(failures_in_a_row::<H>(count));
            &&& directives.len() == count
            &&& forall|i: int|
                0 <= i < count ==> (#[trigger] directives[i] matches Directive::RetryAfter {
                    secs,
                } && secs >= 2)
        }),
        start.after_all(failures_in_a_row::<H>(count)).established() == start.established(),
{
    lemma_failures_keep_handle(start, count);
}

/// A published handle is only ever replaced: whatever attempts follow, an
/// established supervisor stays established.
pub proof fn lemma_established_stays<H>(start: SupervisorState<H>, attempts: Seq<Attempt<H>>)
    requires
        start.established(),
    ensures
        start.after_all(attempts).established(),
    decreases attempts.len(),
{
    if attempts.len() > 0 {
        lemma_established_stays(start.after(attempts.first()), attempts.drop_first());
    }
}

} // verus!
