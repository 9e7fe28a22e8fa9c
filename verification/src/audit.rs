//! An audit sink in memory.

use crate::error::Error;
use crate::events::AuditRecord;
use vstd::prelude::*;

verus! {

/// A sink that keeps every record, in order.
#[derive(Debug)]
pub struct MemoryAuditSink {
    kept: Vec<AuditRecord>,
}

impl MemoryAuditSink {
    /// The records so far.
    pub closed spec fn log(self) -> Seq<AuditRecord> {
        self.kept@
    }

    /// An empty sink.
    #[must_use]
    pub fn new() -> (r: MemoryAuditSink)
        ensures
            r.log().len() == 0,
    {
        MemoryAuditSink { kept: Vec::new() }
    }

    /// Every record, in order.
    #[must_use]
    pub fn records(&self) -> (r: &Vec<AuditRecord>)
        ensures
            r@ == self.log(),
    {
        &self.kept
    }

    /// The number of records.
    #[must_use]
    pub fn len(&self) -> (r: usize)
        ensures
            r == self.log().len(),
    {
        self.kept.len()
    }

    /// Whether there are no records.
    #[must_use]
    pub fn is_empty(&self) -> (r: bool)
        ensures
            r == (self.log().len() == 0),
    {
        self.kept.len() == 0
    }

    /// Appends a record; nothing that was recorded changes.
    pub fn record(&mut self, record: AuditRecord) -> (r: Result<(), Error>)
        ensures
            r is Ok,
            final(self).log() == old(self).log().push(record),
    {
        self.kept.push(record);
        Ok(())
    }
}

} // verus!
