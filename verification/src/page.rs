//! Plain data carried between the remote listing API and the fetch session.
//!
//! A remote call answers with one [`Page`]: an ordered batch of [`Record`]s
//! and the continuation [`Cursor`] for the next batch, or `None` when the
//! listing is exhausted. Failures are classified as a [`FetchError`].

use vstd::prelude::*;

verus! {

/// Opaque continuation token handed out by the remote side. The session
/// stores and replays it; it never constructs or inspects one.
#[derive(Clone, Copy, PartialEq, Eq, Structural, Debug)]
pub struct Cursor {
    pub token: i64,
}

/// Where the next page request resumes.
#[derive(Clone, Copy, PartialEq, Eq, Structural, Debug)]
pub enum CursorPos {
    /// No page consumed yet: start from the beginning of the listing.
    Start,
    /// Resume after the last consumed page, at the cursor it announced.
    Resume(Cursor),
    /// The last consumed page announced no further pages.
    End,
}

/// One followed-account entity, as decoded from a page. The creation time
/// is carried as seconds of a fixed epoch.
#[derive(Clone, PartialEq, Eq, Debug)]
pub struct Record {
    pub id: u64,
    pub username: String,
    pub name: String,
    pub description: Option<String>,
    pub created_at: i64,
}

/// The result of one successful remote call: an ordered batch of records
/// plus the cursor where the listing continues (`None`: no further pages).
#[derive(Clone, PartialEq, Eq, Debug)]
pub struct Page {
    pub records: Vec<Record>,
    pub next_cursor: Option<Cursor>,
}

/// Failure classes of one remote page request.
#[derive(Clone, Copy, PartialEq, Eq, Structural, Debug)]
pub enum FetchError {
    /// Invalid or expired credentials: fatal, never retried.
    AuthError,
    /// The server refused for quota reasons despite local throttling:
    /// retried once after an extended backoff, then terminal.
    RateLimitError,
    /// Transient transport failure: retried a bounded number of times.
    NetworkError,
    /// Malformed page payload: fatal, never retried.
    DecodeError,
}

/// Why a fetch session stopped. All variants but `NotStopped` are terminal:
/// no further page is requested once one is set.
#[derive(Clone, Copy, PartialEq, Eq, Structural, Debug)]
pub enum StopReason {
    /// The session is still running.
    NotStopped,
    /// The server kept refusing for quota reasons even after the one
    /// extended-backoff retry.
    QuotaExhausted,
    /// At least `max_amount` records have been fetched.
    MaxRecordsReached,
    /// The last page announced a terminal cursor.
    NoMorePages,
    /// A fatal remote failure: bad credentials, a malformed payload, or
    /// transport failures outlasting the retry budget.
    RemoteError,
}

} // verus!
