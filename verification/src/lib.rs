//! Scope-bound cleanup of files and directories.
//!
//! A unit of work registers the paths it creates in an [`AutoCleanup`] list.
//! When the work is over the list is torn down: every registered path is
//! removed, the most recent registration first, and a removal that fails is
//! passed over in silence.
//!
//! This crate holds the list and the order of its teardown. It never touches
//! the file system: [`AutoCleanup::into_teardown`] hands the pending removals
//! to the caller, in the order in which they are to be attempted, and the
//! caller carries them out.

pub mod item;
pub mod list;
pub mod teardown;

pub use item::Item;
pub use list::AutoCleanup;
