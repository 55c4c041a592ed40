//! Decision core of a bot that cancels stale or failing CI builds.
//!
//! Each run lists the builds of a branch on three CI services (Travis,
//! AppVeyor and Azure Pipelines) for every tracked repository, cancels the
//! builds that a newer build of the branch has superseded, and cancels the
//! latest build early when one of its jobs has already failed.
//!
//! The library holds the services' reply records, the selection policy, the
//! construction of every HTTP request, and the state machine of a run bounded
//! by a deadline. Performing requests, decoding JSON and watching the clock
//! are left to the caller, which feeds each decoded reply to
//! [`run::next_calls`].
pub mod appveyor;
pub mod azure;
pub mod call;
pub mod config;
pub mod policy;
pub mod request;
pub mod run;
pub mod text;
pub mod travis;

pub use text::{append_url, extract};
