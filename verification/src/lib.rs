//! A fetch-render-convert pipeline: for every URL discovered on a site, the
//! page is rendered to HTML (by a plain network request or by a headless
//! browser), converted to markdown, and emitted, with per-URL failures
//! isolated and counted rather than aborting the run.
//!
//! The library holds the verified logic: mode selection, the markdown
//! conversion step, per-page outcome handling, the batch coordinator, the
//! bounded channel and throughput accounting of the streaming coordinator,
//! and the dynamic renderer's session state machine. Network and browser
//! I/O and link discovery live outside, handing the library plain values.

pub mod channel;
pub mod convert;
pub mod counter;
pub mod errors;
pub mod mode;
pub mod pipeline;
pub mod render;
pub mod stream;
