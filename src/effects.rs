//! The append-only buffer of state mutations that the state machine emits.
use vstd::prelude::*;

use crate::ids::{
    EntryIndex, ServiceId, ServiceIdView, ServiceInvocationId, ServiceInvocationIdView,
};
use crate::journal::{Completion, CompletionResult, CompletionResultView, CompletionView, InvokeRequest, RawEntry};

verus! {

/// An invocation of a service method, as it waits in an inbox or starts running.
#[derive(Clone, Debug, PartialEq, Eq)]
pub struct ServiceInvocation {
    pub id: ServiceInvocationId,
    pub method_name: String,
    pub argument: Vec<u8>,
    /// Journal entry of the caller that awaits the response, if any.
    pub response_target: Option<(ServiceInvocationId, EntryIndex)>,
}

/// A message that leaves the partition through its outbox.
#[derive(Clone, Debug, PartialEq, Eq)]
pub enum OutboxMessage {
    /// A call of another service; the response goes to `response_target`, if any.
    Invocation { request: InvokeRequest, response_target: Option<(ServiceInvocationId, EntryIndex)> },
    /// A result; `target` is the journal entry it completes, where the machine knows it.
    Response { target: Option<(ServiceInvocationId, EntryIndex)>, result: CompletionResult },
}

/// Mathematical value of an [`OutboxMessage`].
pub enum OutboxMessageView {
    Invocation { request: InvokeRequest, response_target: Option<(ServiceInvocationIdView, EntryIndex)> },
    Response { target: Option<(ServiceInvocationIdView, EntryIndex)>, result: CompletionResultView },
}

pub open spec fn target_view(t: Option<(ServiceInvocationId, EntryIndex)>) -> Option<(ServiceInvocationIdView, EntryIndex)> {
    match t {
        Some((id, index)) => Some((id@, index)),
        None => None,
    }
}

impl View for OutboxMessage {
    type V = OutboxMessageView;

    open spec fn view(&self) -> OutboxMessageView {
        match *self {
            OutboxMessage::Invocation { request, response_target } =>
                OutboxMessageView::Invocation { request, response_target: target_view(response_target) },
            OutboxMessage::Response { target, result } =>
                OutboxMessageView::Response { target: target_view(target), result: result@ },
        }
    }
}

/// One mutation of durable state, or one message to send.
#[derive(Clone, Debug, PartialEq, Eq)]
pub enum Effect {
    InvokeService(ServiceInvocation),
    EnqueueIntoInbox { seq_number: u64, service_invocation: ServiceInvocation },
    PopInbox { service_id: ServiceId, seq_number: u64 },
    SetState { service_id: ServiceId, key: Vec<u8>, value: Vec<u8> },
    ClearState { service_id: ServiceId, key: Vec<u8> },
    StoreAndForwardCompletion { id: ServiceInvocationId, completion: Completion },
    StoreCompletion { id: ServiceInvocationId, completion: Completion },
    AppendJournalEntry { id: ServiceInvocationId, entry_index: EntryIndex, entry: RawEntry },
    AppendAwakeableEntry { id: ServiceInvocationId, entry_index: EntryIndex, entry: RawEntry },
    RegisterTimer { wake_up_time: u64, id: ServiceInvocationId, entry_index: EntryIndex },
    DeleteTimer { wake_up_time: u64, service_id: ServiceId, entry_index: EntryIndex },
    ResumeService(ServiceInvocationId),
    SuspendService(ServiceInvocationId),
    DropJournal(ServiceId),
    FreeService(ServiceId),
    EnqueueIntoOutbox { seq_number: u64, message: OutboxMessage },
    TruncateOutbox(u64),
}

/// Mathematical value of an [`Effect`]: identifiers by their views.
pub enum EffectView {
    InvokeService(ServiceInvocation),
    EnqueueIntoInbox { seq_number: u64, service_invocation: ServiceInvocation },
    PopInbox { service_id: ServiceIdView, seq_number: u64 },
    SetState { service_id: ServiceIdView, key: Vec<u8>, value: Vec<u8> },
    ClearState { service_id: ServiceIdView, key: Vec<u8> },
    StoreAndForwardCompletion { id: ServiceInvocationIdView, completion: CompletionView },
    StoreCompletion { id: ServiceInvocationIdView, completion: CompletionView },
    AppendJournalEntry { id: ServiceInvocationIdView, entry_index: EntryIndex, entry: RawEntry },
    AppendAwakeableEntry { id: ServiceInvocationIdView, entry_index: EntryIndex, entry: RawEntry },
    RegisterTimer { wake_up_time: u64, id: ServiceInvocationIdView, entry_index: EntryIndex },
    DeleteTimer { wake_up_time: u64, service_id: ServiceIdView, entry_index: EntryIndex },
    ResumeService(ServiceInvocationIdView),
    SuspendService(ServiceInvocationIdView),
    DropJournal(ServiceIdView),
    FreeService(ServiceIdView),
    EnqueueIntoOutbox { seq_number: u64, message: OutboxMessageView },
    TruncateOutbox(u64),
}

impl View for Effect {
    type V = EffectView;

    open spec fn view(&self) -> EffectView {
        match *self {
            Effect::InvokeService(si) => EffectView::InvokeService(si),
            Effect::EnqueueIntoInbox { seq_number, service_invocation } =>
                EffectView::EnqueueIntoInbox { seq_number, service_invocation },
            Effect::PopInbox { service_id, seq_number } =>
                EffectView::PopInbox { service_id: service_id@, seq_number },
            Effect::SetState { service_id, key, value } =>
                EffectView::SetState { service_id: service_id@, key, value },
            Effect::ClearState { service_id, key } =>
                EffectView::ClearState { service_id: service_id@, key },
            Effect::StoreAndForwardCompletion { id, completion } =>
                EffectView::StoreAndForwardCompletion { id: id@, completion: completion@ },
            Effect::StoreCompletion { id, completion } =>
                EffectView::StoreCompletion { id: id@, completion: completion@ },
            Effect::AppendJournalEntry { id, entry_index, entry } =>
                EffectView::AppendJournalEntry { id: id@, entry_index, entry },
            Effect::AppendAwakeableEntry { id, entry_index, entry } =>
                EffectView::AppendAwakeableEntry { id: id@, entry_index, entry },
            Effect::RegisterTimer { wake_up_time, id, entry_index } =>
                EffectView::RegisterTimer { wake_up_time, id: id@, entry_index },
            Effect::DeleteTimer { wake_up_time, service_id, entry_index } =>
                EffectView::DeleteTimer { wake_up_time, service_id: service_id@, entry_index },
            Effect::ResumeService(id) => EffectView::ResumeService(id@),
            Effect::SuspendService(id) => EffectView::SuspendService(id@),
            Effect::DropJournal(service_id) => EffectView::DropJournal(service_id@),
            Effect::FreeService(service_id) => EffectView::FreeService(service_id@),
            Effect::EnqueueIntoOutbox { seq_number, message } =>
                EffectView::EnqueueIntoOutbox { seq_number, message: message@ },
            Effect::TruncateOutbox(index) => EffectView::TruncateOutbox(index),
        }
    }
}

/// Reusable batch of effects: the state machine appends, the applier reads and clears.
#[derive(Debug, Default)]
pub struct Effects {
    effects: Vec<Effect>,
}

impl View for Effects {
    type V = Seq<EffectView>;

    closed spec fn view(&self) -> Seq<EffectView> {
        self.effects@.map_values(|e: Effect| e@)
    }
}

impl Effects {
    pub fn new() -> (r: Effects)
        ensures
            r@ == Seq::<EffectView>::empty(),
    {
        let r = Effects { effects: Vec::new() };
        assert(r@ =~= Seq::<EffectView>::empty());
        r
    }

    /// Empties the buffer and keeps its capacity.
    pub fn clear(&mut self)
        ensures
            final(self)@ == Seq::<EffectView>::empty(),
    {
        self.effects.clear();
        assert(self@ =~= Seq::<EffectView>::empty());
    }

    pub fn len(&self) -> (r: usize)
        ensures
            r == self@.len(),
    {
        self.effects.len()
    }

    pub fn is_empty(&self) -> (r: bool)
        ensures
            r == (self@.len() == 0),
    {
        self.effects.len() == 0
    }

    /// The effect at position `i`.
    pub fn get(&self, i: usize) -> (r: &Effect)
        requires
            i < self@.len(),
        ensures
            r@ == self@[i as int],
    {
        &self.effects[i]
    }

    /// The effects in the order in which they were emitted.
    pub fn as_slice(&self) -> (r: &[Effect])
        ensures
            r@.map_values(|e: Effect| e@) == self@,
    {
        self.effects.as_slice()
    }

    fn push(&mut self, effect: Effect)
        ensures
            final(self)@ == old(self)@.push(effect@),
    {
        self.effects.push(effect);
        assert(self@ =~= old(self)@.push(effect@));
    }

    pub fn invoke_service(&mut self, service_invocation: ServiceInvocation)
        ensures
            final(self)@ == old(self)@.push(EffectView::InvokeService(service_invocation)),
    {
        self.push(Effect::InvokeService(service_invocation));
    }

    pub fn enqueue_into_inbox(&mut self, seq_number: u64, service_invocation: ServiceInvocation)
        ensures
            final(self)@ == old(self)@.push(EffectView::EnqueueIntoInbox { seq_number, service_invocation }),
    {
        self.push(Effect::EnqueueIntoInbox { seq_number, service_invocation });
    }

    pub fn pop_inbox(&mut self, service_id: ServiceId, seq_number: u64)
        ensures
            final(self)@ == old(self)@.push(EffectView::PopInbox { service_id: service_id@, seq_number }),
    {
        self.push(Effect::PopInbox { service_id, seq_number });
    }

    pub fn set_state(&mut self, service_id: ServiceId, key: Vec<u8>, value: Vec<u8>)
        ensures
            final(self)@ == old(self)@.push(EffectView::SetState { service_id: service_id@, key, value }),
    {
        self.push(Effect::SetState { service_id, key, value });
    }

    pub fn clear_state(&mut self, service_id: ServiceId, key: Vec<u8>)
        ensures
            final(self)@ == old(self)@.push(EffectView::ClearState { service_id: service_id@, key }),
    {
        self.push(Effect::ClearState { service_id, key });
    }

    pub fn store_and_forward_completion(&mut self, id: ServiceInvocationId, completion: Completion)
        ensures
            final(self)@ == old(self)@.push(EffectView::StoreAndForwardCompletion { id: id@, completion: completion@ }),
    {
        self.push(Effect::StoreAndForwardCompletion { id, completion });
    }

    pub fn store_completion(&mut self, id: ServiceInvocationId, completion: Completion)
        ensures
            final(self)@ == old(self)@.push(EffectView::StoreCompletion { id: id@, completion: completion@ }),
    {
        self.push(Effect::StoreCompletion { id, completion });
    }

    pub fn append_journal_entry(&mut self, id: ServiceInvocationId, entry_index: EntryIndex, entry: RawEntry)
        ensures
            final(self)@ == old(self)@.push(EffectView::AppendJournalEntry { id: id@, entry_index, entry }),
    {
        self.push(Effect::AppendJournalEntry { id, entry_index, entry });
    }

    pub fn append_awakeable_entry(&mut self, id: ServiceInvocationId, entry_index: EntryIndex, entry: RawEntry)
        ensures
            final(self)@ == old(self)@.push(EffectView::AppendAwakeableEntry { id: id@, entry_index, entry }),
    {
        self.push(Effect::AppendAwakeableEntry { id, entry_index, entry });
    }

    pub fn register_timer(&mut self, wake_up_time: u64, id: ServiceInvocationId, entry_index: EntryIndex)
        ensures
            final(self)@ == old(self)@.push(EffectView::RegisterTimer { wake_up_time, id: id@, entry_index }),
    {
        self.push(Effect::RegisterTimer { wake_up_time, id, entry_index });
    }

    pub fn delete_timer(&mut self, wake_up_time: u64, service_id: ServiceId, entry_index: EntryIndex)
        ensures
            final(self)@ == old(self)@.push(EffectView::DeleteTimer { wake_up_time, service_id: service_id@, entry_index }),
    {
        self.push(Effect::DeleteTimer { wake_up_time, service_id, entry_index });
    }

    pub fn resume_service(&mut self, id: ServiceInvocationId)
        ensures
            final(self)@ == old(self)@.push(EffectView::ResumeService(id@)),
    {
        self.push(Effect::ResumeService(id));
    }

    pub fn suspend_service(&mut self, id: ServiceInvocationId)
        ensures
            final(self)@ == old(self)@.push(EffectView::SuspendService(id@)),
    {
        self.push(Effect::SuspendService(id));
    }

    pub fn drop_journal(&mut self, service_id: ServiceId)
        ensures
            final(self)@ == old(self)@.push(EffectView::DropJournal(service_id@)),
    {
        self.push(Effect::DropJournal(service_id));
    }

    pub fn free_service(&mut self, service_id: ServiceId)
        ensures
            final(self)@ == old(self)@.push(EffectView::FreeService(service_id@)),
    {
        self.push(Effect::FreeService(service_id));
    }

    pub fn enqueue_into_outbox(&mut self, seq_number: u64, message: OutboxMessage)
        ensures
            final(self)@ == old(self)@.push(EffectView::EnqueueIntoOutbox { seq_number, message: message@ }),
    {
        self.push(Effect::EnqueueIntoOutbox { seq_number, message });
    }

    pub fn truncate_outbox(&mut self, index: u64)
        ensures
            final(self)@ == old(self)@.push(EffectView::TruncateOutbox(index)),
    {
        self.push(Effect::TruncateOutbox(index));
    }
}

} // verus!
