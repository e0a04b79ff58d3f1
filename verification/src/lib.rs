//! A control layer over an embedded, column-family-organised, log-structured key-value
//! engine.
//!
//! The engine itself is never touched from here. The crate decides what has to be asked of
//! the engine and of the file system, and in which order; a driver performs each request and
//! hands back what happened. Three components are provided:
//!
//! * [`tuning`]: the configuration used for bulk loading,
//! * [`compaction`]: the manual compaction of column families, run to quiescence and
//!   followed by the removal of empty log segments,
//! * [`meta`]: the lookup of one value of the `meta` column family.
//!
//! Beside them stand [`runs`], which states what holds of every compaction run, [`wal`],
//! which tells the log segments from the other files of a database, [`progress`], which
//! times and words the reports on a wait, and [`error`], the failures.
pub mod compaction;
pub mod error;
pub mod meta;
pub mod progress;
pub mod runs;
pub mod text;
pub mod tuning;
pub mod wal;

pub use compaction::{force_compaction, force_compaction_cf};
pub use error::Error;
pub use meta::fetch_meta;
pub use tuning::tune_options;
