//! Finds the syndication feed address of a video channel: validates channel
//! addresses, picks the feed link out of a page's link elements, schedules a
//! batch of lookups under a concurrency ceiling and gathers the outcomes in
//! input order.

pub mod address;
pub mod batch;
pub mod error;
pub mod extract;
pub mod output;
pub mod report;
pub mod text;

pub use address::YoutubeUrl;
pub use batch::{Batch, ItemOutcome, MAX_CONCURRENT_REQUESTS};
pub use error::AppError;
pub use extract::{HTMLParser, LinkAttrs};
pub use output::Output;
