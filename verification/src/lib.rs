//! Concurrency-safety core of an incremental source-analysis engine.
//!
//! An [`AnalysisHost`] owns the facts of the current generation. Readers take
//! [`Analysis`] snapshots and query them; an edit first raises the generation's
//! cancellation flag, then waits until every snapshot has been released, and only
//! then changes the facts and opens the next generation.

pub mod analysis;
pub mod base_db;
pub mod boundary;
pub mod cancel;
pub mod host;
pub mod laws;
pub mod ledger;

pub use crate::base_db::AppData;
pub use crate::base_db::AppType;
pub use crate::base_db::Change;
pub use crate::base_db::Edit;
pub use crate::base_db::Facts;
pub use crate::base_db::FileId;
pub use crate::base_db::LineIndex;
pub use crate::base_db::ModuleIndex;
pub use crate::base_db::ModuleName;
pub use crate::base_db::ProjectData;
pub use crate::base_db::ProjectId;
pub use crate::base_db::RootDatabase;
pub use crate::base_db::SourceRootId;
pub use crate::boundary::boundary;
pub use crate::boundary::Evaluation;
pub use crate::cancel::Cancellable;
pub use crate::cancel::CancellationFlag;
pub use crate::cancel::Cancelled;
pub use crate::cancel::Phase;
pub use crate::host::Analysis;
pub use crate::host::AnalysisHost;
pub use crate::host::EditOutcome;
pub use crate::host::HostView;
pub use crate::host::SnapshotView;
pub use crate::ledger::Ledger;
