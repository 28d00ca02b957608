//! Checks a set of HTTP endpoints with a pool of workers and reports the
//! outcome of each as JSON.
//!
//! The library holds the decisions of a run: the queue that hands URLs out to
//! workers and gathers their records (`dispatch`), the retry policy of one URL
//! (`retry`), the JSON report and the console line of a record (`record`,
//! `json`), and the defaults of the configuration (`config`). Threads, the
//! clock and the HTTP client stay with the caller.

pub mod config;
pub mod dispatch;
pub mod json;
pub mod record;
pub mod retry;
