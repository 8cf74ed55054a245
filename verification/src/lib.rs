//! A resilient request-execution engine for an authenticated
//! chat-completion endpoint: credential-mode selection, request URL
//! composition, failure classification with server wait hints, and an
//! exponential-backoff retry loop with a hard budget. Every decision the
//! dispatcher makes is specified and verified; the surrounding I/O hands
//! it plain values and performs what it is told to.

pub mod credentials;
pub mod dispatch;
pub mod endpoint;
pub mod errors;
pub mod hint;
pub mod retry;
pub mod usage;
