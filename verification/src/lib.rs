//! Sentiment classification of short texts with memoized results.
//!
//! A request names a sentence. The sentence is trimmed and looked up in a
//! cache; on a miss a generation model is asked for a label, and a label
//! that it gives is kept in the cache. The library holds every decision of
//! that pipeline: `pipeline::step` takes the state of a request and what the
//! cache or the model answered, and says what to do next. The cache and the
//! model themselves belong to whoever drives it. `serving` holds a model of
//! them and what holds of every request that is served against it.

pub mod classifier;
pub mod error;
pub mod pipeline;
pub mod prompt;
pub mod sentiment;
pub mod serving;
pub mod text;
pub mod wire;

pub use error::{DecodeError, Failure};
pub use pipeline::{step, Action, Event, Reply, State};
pub use sentiment::{ParseError, Sentiment};
pub use wire::{SentimentAnalysisRequest, SentimentAnalysisResponse};
