//! The operation journal: a durable record of multi-step operations in
//! flight, and the engine that finishes or skips what an interrupted run left
//! behind.

pub mod action;
pub mod entry;
pub mod laws;
pub mod log;
pub mod plan;
pub mod policy;
pub mod recovery;
pub mod storage;

pub use action::{JournalAction, JournalActionView};
pub use entry::{EntryId, JournalEntry, JournalEntryView};
pub use log::{Journal, JournalError, JournalErrorView};
pub use plan::{install_journal_actions, paths_equal_case_insensitive, remove_journal_actions};
pub use policy::{determine_recovery_policy, recovery_policy_for, RecoveryPolicy};
pub use recovery::{recover_entry, recover_incomplete_operations, ActionRecoveryResult, AttemptView};
pub use storage::{
    journal_path,
    load_journal,
    save_failure,
    save_plan,
    JournalFile,
    SavePlan,
    SaveStage,
};
