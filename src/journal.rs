//! Journal entries as the invoker hands them over, and their decoded form.
use vstd::prelude::*;

use crate::ids::{EntryIndex, ServiceId, ServiceInvocationId};

verus! {

/// Revision counter of a journal; it grows with every appended entry and stored completion.
pub type JournalRevision = u32;

/// Type tag in the header of a raw journal entry.
#[derive(Clone, Copy, Debug, PartialEq, Eq, Structural)]
pub enum EntryType {
    PollInputStream,
    OutputStream,
    GetState,
    SetState,
    ClearState,
    Sleep,
    Invoke,
    BackgroundInvoke,
    Awakeable,
    CompleteAwakeable,
    Custom(u16),
}

/// An encoded journal entry together with its type tag.
#[derive(Clone, Debug, PartialEq, Eq)]
pub struct RawEntry {
    pub ty: EntryType,
    pub payload: Vec<u8>,
}

/// A request to invoke a method of another service entity.
#[derive(Clone, Debug, PartialEq, Eq)]
pub struct InvokeRequest {
    pub service_id: ServiceId,
    pub method_name: String,
    pub parameter: Vec<u8>,
}

/// Result carried by a completion or a response.
#[derive(Clone, Debug, PartialEq, Eq)]
pub enum CompletionResult {
    Success(Vec<u8>),
    Failure(u32, String),
}

/// Mathematical value of a [`CompletionResult`].
pub enum CompletionResultView {
    Success(Seq<u8>),
    Failure(u32, Seq<char>),
}

impl View for CompletionResult {
    type V = CompletionResultView;

    open spec fn view(&self) -> CompletionResultView {
        match *self {
            CompletionResult::Success(value) => CompletionResultView::Success(value@),
            CompletionResult::Failure(code, message) => CompletionResultView::Failure(code, message@),
        }
    }
}

/// A result addressed to one entry of a journal.
#[derive(Clone, Debug, PartialEq, Eq)]
pub struct Completion {
    pub entry_index: EntryIndex,
    pub result: CompletionResult,
}

/// Mathematical value of a [`Completion`].
pub struct CompletionView {
    pub entry_index: EntryIndex,
    pub result: CompletionResultView,
}

impl View for Completion {
    type V = CompletionView;

    open spec fn view(&self) -> CompletionView {
        CompletionView { entry_index: self.entry_index, result: self.result@ }
    }
}

/// Entry that completes an awakeable of another invocation.
#[derive(Clone, Debug, PartialEq, Eq)]
pub struct CompleteAwakeableEntry {
    pub target: ServiceInvocationId,
    pub entry_index: EntryIndex,
    pub result: CompletionResult,
}

/// The decoded content of the journal entries whose type the state machine looks into.
#[derive(Clone, Debug, PartialEq, Eq)]
pub enum Entry {
    Invoke(InvokeRequest),
    BackgroundInvoke(InvokeRequest),
    CompleteAwakeable(CompleteAwakeableEntry),
    SetState { key: Vec<u8>, value: Vec<u8> },
    ClearState { key: Vec<u8> },
    Sleep { wake_up_time: u64 },
    /// Any other entry; its content does not matter to the state machine.
    Other(EntryType),
}

impl Entry {
    /// The entry is of the kind that `ty` announces.
    pub open spec fn has_type(&self, ty: EntryType) -> bool {
        match *self {
            Entry::Invoke(_) => ty == EntryType::Invoke,
            Entry::BackgroundInvoke(_) => ty == EntryType::BackgroundInvoke,
            Entry::CompleteAwakeable(_) => ty == EntryType::CompleteAwakeable,
            Entry::SetState { .. } => ty == EntryType::SetState,
            Entry::ClearState { .. } => ty == EntryType::ClearState,
            Entry::Sleep { .. } => ty == EntryType::Sleep,
            Entry::Other(t) => t == ty,
        }
    }
}

/// Decoder of raw journal entries.
///
/// Decoding is a function of the entry: `decoded` names its outcome, and a decoded
/// entry is of the kind that the raw entry's tag announces.
pub trait RawEntryCodec {
    type Error;

    spec fn decoded(raw: RawEntry) -> Result<Entry, Self::Error>;

    fn deserialize(raw: &RawEntry) -> (r: Result<Entry, Self::Error>)
        ensures
            r == Self::decoded(*raw),
            r matches Ok(e) ==> e.has_type(raw.ty),
    ;
}

} // verus!
