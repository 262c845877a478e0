//! Distills an audio recording into a summary and delivers it.
//!
//! A run uploads the recording to object storage, has a speech-to-text job
//! transcribe it, asks a text-generation model for a summary, and writes the
//! summary to a file or sends it to the selected notification channels. This
//! library holds the decisions of such a run and nothing that touches the
//! network, the disk or the terminal: each stage says what is to be done and
//! takes what came of it.
//!
//! - [`pipeline`]: the run as a sequence of stages that only moves forward.
//! - [`region`], [`bucket`], [`upload`]: where the recording goes.
//! - [`job`]: the speech-to-text job, from submission to transcript.
//! - [`summarize`]: the request for a summary and the reading of the answer.
//! - [`channels`], [`dispatch`], [`payload`]: the channels of a platform, the
//!   delivery to the selected ones with its per-channel results, and the
//!   request bodies.
//! - [`output`]: the files a summary is written to.
//! - [`settings`]: what a run needs from its configuration.
//! - [`progress`]: the progress indicator that is closed exactly once.
//! - [`json`], [`text`]: JSON documents and text helpers.

pub mod bucket;
pub mod channels;
pub mod dispatch;
pub mod job;
pub mod json;
pub mod output;
pub mod payload;
pub mod pipeline;
pub mod progress;
pub mod region;
pub mod settings;
pub mod summarize;
pub mod text;
pub mod upload;
