//! A status line assembled from independent producers: each producer owns a
//! slot, an aggregator coalesces bursts of updates into single renders, and a
//! sink turns the full slot vector into one line of text.

pub mod aggregator;
pub mod block;
pub mod rounds;

pub use aggregator::{Action, Aggregator, Event, Phase};
pub use block::{BlockID, MessagePasser, UpdaterConfig, Updater, WriteUpdater, XRootUpdater};
