//! The probing engine of a web content discovery tool: candidate URLs are
//! built from a word list and a target, planned as probes, retried with a
//! linear backoff, classified by status code and throttled under CPU pressure.
//! Every rule is stated as a contract and proved.

pub mod config;
pub mod dispatch;
pub mod error;
pub mod headers;
pub mod identity;
pub mod mode;
pub mod probe_url;
pub mod report;
pub mod retry;
pub mod status;
pub mod text;
pub mod throttle;
pub mod wordlist;
