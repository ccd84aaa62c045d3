//! The change-tracking core of a directory browser.
//!
//! A watch backend reports what happens in the directory on show as raw,
//! platform-dependent notifications. [`classifier`] normalises them into
//! [`change::Change`] records, pairing renames that arrive in two halves.
//! [`watcher`] runs the backend, carries the records to the consumer and
//! switches the watch from one directory to another, all or nothing.
//! [`reconciler`] applies the records to the cached listing, and
//! [`explorer`] holds that listing together with the rest of the
//! consumer's state. [`file_list`], [`widgets`] and [`icon_manager`] hold
//! the decisions of the list, of its labels and of the path bar.
pub mod change;
pub mod classifier;
mod disk;
pub mod explorer;
pub mod file_list;
pub mod icon_manager;
pub mod reconciler;
pub mod watcher;
pub mod widgets;
