//! Values exchanged with the invoker, the subsystem that runs service code.
use vstd::prelude::*;

use crate::journal::RawEntry;

verus! {

/// What is known of a journal when an invocation is handed to the invoker.
#[derive(Clone, Copy, Debug, PartialEq, Eq, Structural)]
pub struct JournalMetadata {
    pub length: u32,
}

/// Journal handed to the invoker with an invocation: none, so that the invoker reads
/// it from storage, or the entries the caller already holds.
#[derive(Clone, Debug, PartialEq, Eq)]
pub enum InvokeInputJournal {
    NoCachedJournal,
    CachedJournal(JournalMetadata, Vec<RawEntry>),
}

impl Default for InvokeInputJournal {
    fn default() -> (r: InvokeInputJournal)
        ensures
            r is NoCachedJournal,
    {
        InvokeInputJournal::NoCachedJournal
    }
}

/// The invoker has stopped and takes no more requests.
#[derive(Clone, Copy, Debug, PartialEq, Eq, Structural)]
pub struct ServiceNotRunning;

impl ServiceNotRunning {
    pub fn message(&self) -> (r: &'static str)
        ensures
            r@ == "invoker is not running"@,
    {
        "invoker is not running"
    }
}

} // verus!
