//! The cross-session message history: an append-only log addressed by a
//! log identifier and an entry offset. The edge persists it line by line;
//! the rules over it are pure.

use crate::models::HistoryEntry;
use crate::strutil::spec_starts_with;
use crate::strutil::starts_with_prefix;
use vstd::prelude::*;

verus! {

/// The in-memory image of the history log.
#[derive(Debug)]
pub struct HistoryStore {
    /// Stable identifier of the backing log file.
    log_id: u64,
    /// The logged entries, in append order.
    entries: Vec<String>,
}

/// A credential-shaped text that must never be logged: one that begins
/// with the API-key prefix.
pub open spec fn spec_is_sensitive(text: Seq<char>) -> bool {
    spec_starts_with(text, "sk-"@)
}

impl HistoryStore {
    /// The identifier of the backing log.
    pub closed spec fn spec_log_id(&self) -> u64 {
        self.log_id
    }

    /// The logged entries.
    pub closed spec fn spec_entries(&self) -> Seq<String> {
        self.entries@
    }

    /// Opens the history image for a log file with the given identifier
    /// and already-persisted entries.
    pub fn new(log_id: u64, entries: Vec<String>) -> (r: Self)
        ensures
            r.spec_log_id() == log_id,
            r.spec_entries() == entries@,
    {
        HistoryStore { log_id, entries }
    }

    pub fn log_id(&self) -> (r: u64)
        ensures
            r == self.spec_log_id(),
    {
        self.log_id
    }

    pub fn entry_count(&self) -> (r: usize)
        ensures
            r == self.spec_entries().len(),
    {
        self.entries.len()
    }

    /// Appends a message unless it looks like a credential; true when the
    /// message was logged.
    pub fn append(&mut self, text: String) -> (r: bool)
        ensures
            final(self).spec_log_id() == old(self).spec_log_id(),
            spec_is_sensitive(text@) ==> !r && final(self).spec_entries() == old(
                self,
            ).spec_entries(),
            !spec_is_sensitive(text@) ==> r && final(self).spec_entries() == old(
                self,
            ).spec_entries().push(text),
    {
        if starts_with_prefix(text.as_str(), "sk-") {
            return false;
        }
        self.entries.push(text);
        true
    }

    /// Reads one entry by log identifier and offset: `None` when the log
    /// was rotated (the identifier no longer matches) or the offset is out
    /// of range.
    pub fn lookup(&self, log_id: u64, offset: usize) -> (r: Option<HistoryEntry>)
        ensures
            log_id != self.spec_log_id() ==> r is None,
            log_id == self.spec_log_id() && offset >= self.spec_entries().len() ==> r is None,
            log_id == self.spec_log_id() && offset < self.spec_entries().len() ==> (r matches Some(
                e,
            ) && e.text@ == self.spec_entries()[offset as int]@ && e.log_id == log_id && e.offset
                == offset),
    {
        if log_id != self.log_id {
            return None;
        }
        if offset >= self.entries.len() {
            return None;
        }
        Some(HistoryEntry { text: self.entries[offset].clone(), log_id, offset })
    }
}

} // verus!
