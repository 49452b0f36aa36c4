//! The pagination session: cursor advancement, record accounting, retry
//! policy and stop conditions for one run against a paginated remote
//! listing.
//!
//! A [`FetchSession`] is a state machine fed one remote outcome at a time:
//! [`FetchSession::apply_page`] consumes a successfully fetched page and
//! [`FetchSession::apply_error`] classifies a failed call. The embedding
//! program owns the actual loop — throttle, perform the remote call, feed
//! the outcome back, emit the page's records — while every decision is
//! taken here. [`run_scripted`] drives one fresh session over a
//! predetermined sequence of outcomes, which is how the loop behaves
//! against any remote whose answers are that sequence.
//!
//! A session is not restartable: once `stop_reason` leaves `NotStopped`
//! it never changes again, and a new run needs a fresh session.

use crate::page::CursorPos;
use crate::page::FetchError;
use crate::page::Page;
use crate::page::Record;
use crate::page::StopReason;
use vstd::prelude::*;

verus! {

/// How many times one page request is retried on transient network
/// failures before the failure is terminal.
pub const MAX_NETWORK_RETRIES: u64 = 3;

/// Backoff before the first network retry, in ticks; doubled on each
/// further retry of the same request.
pub const NETWORK_BACKOFF_BASE_TICKS: u64 = 1000;

/// Extended backoff before the single retry allowed after the server
/// refused for quota reasons, in ticks.
pub const RATE_LIMIT_BACKOFF_TICKS: u64 = 60000;

/// Largest page size the remote listing accepts; requests are capped here.
pub const REMOTE_MAX_PAGE_SIZE: u32 = 200;

/// What the caller should do after a failed remote call.
#[derive(Clone, Copy, PartialEq, Eq, Structural, Debug)]
pub enum ErrorDecision {
    /// Wait this many ticks, then request the same page again.
    RetryAfter(u64),
    /// The failure is terminal; the session has stopped.
    Fatal,
}

/// One scripted outcome of a remote page request: what a remote answered
/// to one call. A sequence of these stands for a remote's whole behaviour
/// during a run.
#[derive(Clone, PartialEq, Eq, Debug)]
pub enum PageOutcome {
    Success(Page),
    Failure(FetchError),
}

/// State of one fetch run. Owned by the run; destroyed with it.
#[derive(Clone, Copy, PartialEq, Eq, Structural, Debug)]
pub struct FetchSession {
    /// Where the next page request resumes; advanced only to the cursor
    /// the last page announced, never fabricated locally.
    pub cursor: CursorPos,
    /// Records consumed so far, summed over the pages applied.
    pub records_fetched: u64,
    /// Pages successfully applied so far.
    pub pages_fetched: u64,
    /// Why the run stopped; `NotStopped` while it is still going.
    pub stop_reason: StopReason,
    /// Network retries still allowed for the current page request.
    pub net_retries_left: u64,
    /// Whether the single rate-limit retry of the current page request
    /// has been spent.
    pub rl_retry_used: bool,
    /// Advisory record bound: once `records_fetched` meets it, the run
    /// stops at the end of the page. Non-positive: stop after one page.
    pub max_amount: i64,
    /// Records requested per page, at most [`REMOTE_MAX_PAGE_SIZE`].
    pub page_size: u32,
}

/// Backoff before the network retry numbered `attempt` (zero-based):
/// exponential from [`NETWORK_BACKOFF_BASE_TICKS`].
pub open spec fn network_backoff_ticks(attempt: u64) -> u64 {
    if attempt == 0 {
        NETWORK_BACKOFF_BASE_TICKS
    } else if attempt == 1 {
        (2 * NETWORK_BACKOFF_BASE_TICKS) as u64
    } else {
        (4 * NETWORK_BACKOFF_BASE_TICKS) as u64
    }
}

impl FetchSession {
    /// Well-formedness: the retry budget never exceeds its bound and the
    /// page size respects the remote's cap.
    pub open spec fn wf(self) -> bool {
        &&& self.net_retries_left <= MAX_NETWORK_RETRIES
        &&& self.page_size <= REMOTE_MAX_PAGE_SIZE
    }

    /// A fresh session: at the start of the listing, nothing fetched,
    /// full retry budget, running.
    pub open spec fn spec_new(max_amount: i64, page_size: u32) -> FetchSession {
        FetchSession {
            cursor: CursorPos::Start,
            records_fetched: 0,
            pages_fetched: 0,
            stop_reason: StopReason::NotStopped,
            net_retries_left: MAX_NETWORK_RETRIES,
            rl_retry_used: false,
            max_amount: max_amount,
            page_size: if page_size <= REMOTE_MAX_PAGE_SIZE {
                page_size
            } else {
                REMOTE_MAX_PAGE_SIZE
            },
        }
    }

    /// The session after consuming one successful page: counts grow by
    /// the whole page, the cursor advances to exactly what the page
    /// announced, the per-request retry budget resets, and the stop
    /// conditions are evaluated — terminal cursor first, then the record
    /// bound (a non-positive bound is met by any page).
    pub open spec fn spec_apply_page(self, page: Page) -> FetchSession {
        let grown = self.records_fetched as int + page.records@.len() as int;
        FetchSession {
            cursor: match page.next_cursor {
                Some(c) => CursorPos::Resume(c),
                None => CursorPos::End,
            },
            records_fetched: grown as u64,
            pages_fetched: (self.pages_fetched + 1) as u64,
            stop_reason: if page.next_cursor is None {
                StopReason::NoMorePages
            } else if self.max_amount <= 0 || grown >= self.max_amount as int {
                StopReason::MaxRecordsReached
            } else {
                StopReason::NotStopped
            },
            net_retries_left: MAX_NETWORK_RETRIES,
            rl_retry_used: false,
            ..self
        }
    }

    /// The session after a failed remote call, with the caller's next
    /// step: transient network failures are retried while budget remains,
    /// a server-side quota refusal is retried once after an extended
    /// backoff and then terminal as `QuotaExhausted`, and credential or
    /// payload failures are terminal at once as `RemoteError`.
    pub open spec fn spec_apply_error(self, err: FetchError) -> (FetchSession, ErrorDecision) {
        match err {
            FetchError::NetworkError => {
                if self.net_retries_left > 0 {
                    (
                        FetchSession {
                            net_retries_left: (self.net_retries_left - 1) as u64,
                            ..self
                        },
                        ErrorDecision::RetryAfter(
                            network_backoff_ticks(
                                (MAX_NETWORK_RETRIES - self.net_retries_left) as u64,
                            ),
                        ),
                    )
                } else {
                    (
                        FetchSession { stop_reason: StopReason::RemoteError, ..self },
                        ErrorDecision::Fatal,
                    )
                }
            }
            FetchError::RateLimitError => {
                if !self.rl_retry_used {
                    (
                        FetchSession { rl_retry_used: true, ..self },
                        ErrorDecision::RetryAfter(RATE_LIMIT_BACKOFF_TICKS),
                    )
                } else {
                    (
                        FetchSession { stop_reason: StopReason::QuotaExhausted, ..self },
                        ErrorDecision::Fatal,
                    )
                }
            }
            FetchError::AuthError => (
                FetchSession { stop_reason: StopReason::RemoteError, ..self },
                ErrorDecision::Fatal,
            ),
            FetchError::DecodeError => (
                FetchSession { stop_reason: StopReason::RemoteError, ..self },
                ErrorDecision::Fatal,
            ),
        }
    }

    /// A fresh session for up to `max_amount` records (non-positive: one
    /// page), requesting `page_size` records per page, capped at the
    /// remote's maximum.
    pub fn new(max_amount: i64, page_size: u32) -> (s: FetchSession)
        ensures
            s == FetchSession::spec_new(max_amount, page_size),
            s.wf(),
    {
        FetchSession {
            cursor: CursorPos::Start,
            records_fetched: 0,
            pages_fetched: 0,
            stop_reason: StopReason::NotStopped,
            net_retries_left: MAX_NETWORK_RETRIES,
            rl_retry_used: false,
            max_amount,
            page_size: if page_size <= REMOTE_MAX_PAGE_SIZE {
                page_size
            } else {
                REMOTE_MAX_PAGE_SIZE
            },
        }
    }

    /// Whether another page should be requested.
    pub fn should_continue(&self) -> (c: bool)
        ensures
            c == (self.stop_reason is NotStopped),
    {
        self.stop_reason == StopReason::NotStopped
    }

    /// Consume one successfully fetched page: append its whole record
    /// count, advance the cursor to what the page announced, reset the
    /// retry budget, and evaluate the stop conditions.
    pub fn apply_page(&mut self, page: &Page)
        requires
            old(self).wf(),
            old(self).stop_reason is NotStopped,
            old(self).records_fetched + page.records@.len() <= u64::MAX,
            old(self).pages_fetched < u64::MAX,
        ensures
            *final(self) == old(self).spec_apply_page(*page),
            final(self).wf(),
            final(self).records_fetched == old(self).records_fetched + page.records@.len(),
            final(self).pages_fetched == old(self).pages_fetched + 1,
    {
        self.records_fetched = self.records_fetched + (page.records.len() as u64);
        self.pages_fetched = self.pages_fetched + 1;
        self.net_retries_left = MAX_NETWORK_RETRIES;
        self.rl_retry_used = false;
        match page.next_cursor {
            Some(c) => {
                self.cursor = CursorPos::Resume(c);
                let bound_met = self.max_amount <= 0 || self.records_fetched >= (
                self.max_amount as u64);
                self.stop_reason = if bound_met {
                    StopReason::MaxRecordsReached
                } else {
                    StopReason::NotStopped
                };
            }
            None => {
                self.cursor = CursorPos::End;
                self.stop_reason = StopReason::NoMorePages;
            }
        }
    }

    /// Classify one failed remote call and decide the caller's next step.
    pub fn apply_error(&mut self, err: FetchError) -> (d: ErrorDecision)
        requires
            old(self).stop_reason is NotStopped,
            old(self).wf(),
        ensures
            ((*final(self), d) == old(self).spec_apply_error(err)),
            final(self).wf(),
    {
        match err {
            FetchError::NetworkError => {
                if self.net_retries_left > 0 {
                    let attempt = MAX_NETWORK_RETRIES - self.net_retries_left;
                    self.net_retries_left = self.net_retries_left - 1;
                    ErrorDecision::RetryAfter(network_backoff(attempt))
                } else {
                    self.stop_reason = StopReason::RemoteError;
                    ErrorDecision::Fatal
                }
            }
            FetchError::RateLimitError => {
                if !self.rl_retry_used {
                    self.rl_retry_used = true;
                    ErrorDecision::RetryAfter(RATE_LIMIT_BACKOFF_TICKS)
                } else {
                    self.stop_reason = StopReason::QuotaExhausted;
                    ErrorDecision::Fatal
                }
            }
            FetchError::AuthError => {
                self.stop_reason = StopReason::RemoteError;
                ErrorDecision::Fatal
            }
            FetchError::DecodeError => {
                self.stop_reason = StopReason::RemoteError;
                ErrorDecision::Fatal
            }
        }
    }
}

/// Backoff schedule for network retries.
fn network_backoff(attempt: u64) -> (t: u64)
    ensures
        t == network_backoff_ticks(attempt),
{
    if attempt == 0 {
        NETWORK_BACKOFF_BASE_TICKS
    } else if attempt == 1 {
        2 * NETWORK_BACKOFF_BASE_TICKS
    } else {
        4 * NETWORK_BACKOFF_BASE_TICKS
    }
}

/// The record count carried by one scripted outcome.
pub open spec fn outcome_records(o: PageOutcome) -> int {
    match o {
        PageOutcome::Success(p) => p.records@.len() as int,
        PageOutcome::Failure(_) => 0,
    }
}

/// Records carried by a whole script, counting every page whether or not
/// a run would consume it.
pub open spec fn total_records(script: Seq<PageOutcome>) -> int
    decreases script.len(),
{
    if script.len() == 0 {
        0
    } else {
        outcome_records(script[0]) + total_records(script.skip(1))
    }
}

pub proof fn lemma_total_records_nonneg(script: Seq<PageOutcome>)
    ensures
        total_records(script) >= 0,
    decreases script.len(),
{
    if script.len() > 0 {
        lemma_total_records_nonneg(script.skip(1));
    }
}

/// A session driven over a script from state `s` with the records in
/// `acc` already yielded: the state when the run ends and everything
/// yielded, in order. The run ends when the session stops or the script
/// is exhausted; each consumed page yields its whole record batch.
pub open spec fn spec_run_from(s: FetchSession, acc: Seq<Record>, script: Seq<PageOutcome>) -> (
    FetchSession,
    Seq<Record>,
)
    decreases script.len(),
{
    if !(s.stop_reason is NotStopped) || script.len() == 0 {
        (s, acc)
    } else {
        match script[0] {
            PageOutcome::Success(page) => spec_run_from(
                s.spec_apply_page(page),
                acc + page.records@,
                script.skip(1),
            ),
            PageOutcome::Failure(err) => spec_run_from(
                s.spec_apply_error(err).0,
                acc,
                script.skip(1),
            ),
        }
    }
}

/// One whole run of a fresh session over a script.
pub open spec fn spec_run(script: Seq<PageOutcome>, max_amount: i64, page_size: u32) -> (
    FetchSession,
    Seq<Record>,
) {
    spec_run_from(FetchSession::spec_new(max_amount, page_size), Seq::<Record>::empty(), script)
}

/// Result of driving one session over a scripted remote.
pub struct RunOutcome {
    /// Every record yielded, in order of arrival.
    pub records: Vec<Record>,
    /// The session state when the run ended.
    pub session: FetchSession,
}

/// Drive one fresh fetch session against a scripted remote: the i-th
/// remote call is answered by `script[i]`. Deterministic, so it both
/// tests the session against any remote behaviour and documents exactly
/// what the live loop in the embedding program does with those answers.
pub fn run_scripted(script: Vec<PageOutcome>, max_amount: i64, page_size: u32) -> (r: RunOutcome)
    requires
        total_records(script@) <= u64::MAX,
    ensures
        ((r.session, r.records@) == spec_run(script@, max_amount, page_size)),
        r.session.records_fetched == r.records@.len(),
{
    let ghost whole = spec_run(script@, max_amount, page_size);
    let mut session = FetchSession::new(max_amount, page_size);
    let mut records: Vec<Record> = Vec::new();
    let mut rest = script;
    // a vector's exec length is a usize: this call is what bounds the
    // script length, and with it `pages_fetched`, within u64
    let _ = rest.len();
    proof {
        lemma_total_records_nonneg(rest@);
    }
    while session.stop_reason == StopReason::NotStopped && rest.len() > 0
        invariant
            session.wf(),
            session.records_fetched == records@.len(),
            session.records_fetched + total_records(rest@) <= u64::MAX,
            session.pages_fetched + rest@.len() <= u64::MAX,
            spec_run_from(session, records@, rest@) == whole,
        decreases rest.len(),
    {
        let ghost prev_rest = rest@;
        let outcome = rest.remove(0);
        proof {
            assert(prev_rest.remove(0) =~= prev_rest.skip(1));
            lemma_total_records_nonneg(rest@);
        }
        match outcome {
            PageOutcome::Success(mut page) => {
                session.apply_page(&page);
                records.append(&mut page.records);
            }
            PageOutcome::Failure(err) => {
                let _ = session.apply_error(err);
            }
        }
    }
    RunOutcome { records, session }
}

/// A terminal stop reason is final: a run from a stopped session consumes
/// nothing and yields nothing further.
pub proof fn lemma_stopped_run_is_inert(s: FetchSession, acc: Seq<Record>, script: Seq<
    PageOutcome,
>)
    requires
        !(s.stop_reason is NotStopped),
    ensures
        spec_run_from(s, acc, script) == (s, acc),
{
}

/// No record is lost or double-counted: however a run ends, the session's
/// record count grows by exactly the number of records yielded — the sum
/// of the record counts of the pages consumed.
pub proof fn lemma_no_loss_no_duplication(s: FetchSession, acc: Seq<Record>, script: Seq<
    PageOutcome,
>)
    requires
        s.records_fetched == acc.len(),
        s.records_fetched + total_records(script) <= u64::MAX,
    ensures
        spec_run_from(s, acc, script).0.records_fetched == spec_run_from(s, acc, script).1.len(),
    decreases script.len(),
{
    lemma_total_records_nonneg(script);
    if s.stop_reason is NotStopped && script.len() > 0 {
        lemma_total_records_nonneg(script.skip(1));
        match script[0] {
            PageOutcome::Success(page) => {
                lemma_no_loss_no_duplication(
                    s.spec_apply_page(page),
                    acc + page.records@,
                    script.skip(1),
                );
            }
            PageOutcome::Failure(err) => {
                lemma_no_loss_no_duplication(s.spec_apply_error(err).0, acc, script.skip(1));
            }
        }
    }
}

/// The record count of a whole run equals the number of records yielded.
pub proof fn lemma_run_counts_records(script: Seq<PageOutcome>, max_amount: i64, page_size: u32)
    requires
        total_records(script) <= u64::MAX,
    ensures
        spec_run(script, max_amount, page_size).0.records_fetched == spec_run(
            script,
            max_amount,
            page_size,
        ).1.len(),
{
    lemma_no_loss_no_duplication(
        FetchSession::spec_new(max_amount, page_size),
        Seq::<Record>::empty(),
        script,
    );
}

/// Re-running with a fresh session against the same scripted remote and
/// the same bounds ends in the same state and yields the identical record
/// sequence, in the same order.
pub proof fn lemma_rerun_is_identical(
    r1: (FetchSession, Seq<Record>),
    r2: (FetchSession, Seq<Record>),
    script: Seq<PageOutcome>,
    max_amount: i64,
    page_size: u32,
)
    requires
        r1 == spec_run(script, max_amount, page_size),
        r2 == spec_run(script, max_amount, page_size),
    ensures
        r1 == r2,
{
}

/// A terminal cursor on the very first page: exactly one page is fetched,
/// the run stops with `NoMorePages`, and whatever that page contained is
/// yielded.
pub proof fn lemma_terminal_first_page(
    script: Seq<PageOutcome>,
    max_amount: i64,
    page_size: u32,
    page: Page,
)
    requires
        script.len() >= 1,
        script[0] == PageOutcome::Success(page),
        page.next_cursor is None,
    ensures
        spec_run(script, max_amount, page_size).0.pages_fetched == 1,
        spec_run(script, max_amount, page_size).0.stop_reason is NoMorePages,
        spec_run(script, max_amount, page_size).1 == page.records@,
{
    let s0 = FetchSession::spec_new(max_amount, page_size);
    let s1 = s0.spec_apply_page(page);
    lemma_stopped_run_is_inert(s1, Seq::<Record>::empty() + page.records@, script.skip(1));
    assert(Seq::<Record>::empty() + page.records@ =~= page.records@);
}

/// A non-positive record bound still fetches exactly one page, and the
/// run terminates without a remote failure.
pub proof fn lemma_nonpositive_bound_fetches_one_page(
    script: Seq<PageOutcome>,
    max_amount: i64,
    page_size: u32,
    page: Page,
)
    requires
        max_amount <= 0,
        script.len() >= 1,
        script[0] == PageOutcome::Success(page),
    ensures
        spec_run(script, max_amount, page_size).0.pages_fetched == 1,
        spec_run(script, max_amount, page_size).0.stop_reason is NoMorePages || spec_run(
            script,
            max_amount,
            page_size,
        ).0.stop_reason is MaxRecordsReached,
        spec_run(script, max_amount, page_size).1 == page.records@,
{
    let s0 = FetchSession::spec_new(max_amount, page_size);
    let s1 = s0.spec_apply_page(page);
    lemma_stopped_run_is_inert(s1, Seq::<Record>::empty() + page.records@, script.skip(1));
    assert(Seq::<Record>::empty() + page.records@ =~= page.records@);
}

} // verus!
