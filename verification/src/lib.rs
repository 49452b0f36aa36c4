//! Verified core of a rate-limited, cursor-paginated record fetcher.
//!
//! The crate models the two components with nontrivial control flow when
//! following a paginated remote listing under a request quota:
//!
//! * [`throttler`] — a token-bucket rate limiter deciding when the next
//!   remote request may go out;
//! * [`fetcher`] — the pagination session: cursor advancement, record
//!   accounting, retry policy and stop conditions.
//!
//! Network transport, credential handling and line-oriented output sit
//! outside this crate; they hand pages in and take records out as plain
//! values of the types in [`page`].

pub mod fetcher;
pub mod page;
pub mod throttler;

pub use fetcher::run_scripted;
pub use fetcher::ErrorDecision;
pub use fetcher::FetchSession;
pub use fetcher::PageOutcome;
pub use fetcher::RunOutcome;
pub use page::Cursor;
pub use page::CursorPos;
pub use page::FetchError;
pub use page::Page;
pub use page::Record;
pub use page::StopReason;
pub use throttler::Throttler;
