//! The deterministic invocation state machine of one partition.
use vstd::prelude::*;

use core::marker::PhantomData;

use crate::effects::{EffectView, Effects, OutboxMessage, OutboxMessageView, ServiceInvocation};
use crate::ids::{
    EntryIndex, InvocationId, ServiceId, ServiceInvocationId,
    ServiceInvocationIdView,
};
use crate::journal::{
    Completion, CompletionResult, CompletionResultView, CompletionView, Entry, EntryType,
    JournalRevision, RawEntry, RawEntryCodec,
};

verus! {

/// Status code of the response of an invocation that the invoker reported as failed.
pub const INVOKER_FAILURE_CODE: u32 = 502;

/// Whether, and which, invocation currently holds a service entity.
#[derive(Clone, Copy, Debug, PartialEq, Eq, Structural)]
pub enum InvocationStatus {
    Invoked(InvocationId),
    Suspended(InvocationId),
    Free,
}

/// Revision and length of the journal of a service entity.
#[derive(Clone, Copy, Debug, PartialEq, Eq, Structural)]
pub struct JournalStatus {
    pub revision: JournalRevision,
    pub length: u32,
}

/// Read-only access to the durable state of a partition.
///
/// A reader answers as a function of the service asked about: the spec functions
/// name those answers.
pub trait StateReader {
    type Error;

    spec fn invocation_status(&self, service_id: ServiceId) -> Result<InvocationStatus, Self::Error>;

    spec fn inbox_front(&self, service_id: ServiceId) -> Result<Option<(u64, ServiceInvocation)>, Self::Error>;

    spec fn journal_status(&self, service_id: ServiceId) -> Result<JournalStatus, Self::Error>;

    fn get_invocation_status(&self, service_id: &ServiceId) -> (r: Result<InvocationStatus, Self::Error>)
        ensures
            r == self.invocation_status(*service_id),
    ;

    fn peek_inbox(&self, service_id: &ServiceId) -> (r: Result<Option<(u64, ServiceInvocation)>, Self::Error>)
        ensures
            r == self.inbox_front(*service_id),
    ;

    fn get_journal_status(&self, service_id: &ServiceId) -> (r: Result<JournalStatus, Self::Error>)
        ensures
            r == self.journal_status(*service_id),
    ;
}

/// A response from outside for an entry that awaits a completion.
#[derive(Clone, Debug, PartialEq, Eq)]
pub struct Response {
    pub id: ServiceInvocationId,
    pub entry_index: EntryIndex,
    pub result: CompletionResult,
}

/// What the invoker reports of a running invocation.
#[derive(Clone, Debug, PartialEq, Eq)]
pub enum InvokerKind {
    JournalEntry { entry_index: EntryIndex, entry: RawEntry },
    Suspended { journal_revision: JournalRevision },
    End,
    Failed { error: String },
}

/// An output of the invoker for one invocation.
#[derive(Clone, Debug, PartialEq, Eq)]
pub struct OutputEffect {
    pub service_invocation_id: ServiceInvocationId,
    pub kind: InvokerKind,
}

/// Input of the state machine.
#[derive(Clone, Debug, PartialEq, Eq)]
pub enum Command {
    Invoker(OutputEffect),
    Timer { service_invocation_id: ServiceInvocationId, entry_index: EntryIndex, timestamp: u64 },
    OutboxTruncation(u64),
    Invocation(ServiceInvocation),
    Response(Response),
}

/// Failure of [`StateMachine::on_apply`]: the state reader failed, or a journal entry
/// could not be decoded.
#[derive(Debug)]
pub enum Error<S, C> {
    State(S),
    Codec(C),
}

impl<S, C> Error<S, C> {
    pub fn message(&self) -> (r: &'static str)
        ensures
            self is State ==> r@ == "failed to read from state reader"@,
            self is Codec ==> r@ == "failed to deserialize state"@,
    {
        match self {
            Error::State(_) => "failed to read from state reader",
            Error::Codec(_) => "failed to deserialize state",
        }
    }
}

/// What one command does: its result, the effects it emits in order, and the sequence
/// numbers afterwards.
pub struct Transition<E> {
    pub result: Result<(), E>,
    pub emitted: Seq<EffectView>,
    pub inbox_seq_number: u64,
    pub outbox_seq_number: u64,
}

/// Effects of routing a completion to an entity whose status is `status`.
pub open spec fn completion_routing(
    status: InvocationStatus,
    id: ServiceInvocationIdView,
    completion: CompletionView,
) -> Seq<EffectView> {
    match status {
        InvocationStatus::Invoked(current) => if current == id.invocation_id {
            seq![EffectView::StoreAndForwardCompletion { id, completion }]
        } else {
            Seq::empty()
        },
        InvocationStatus::Suspended(current) => if current == id.invocation_id {
            seq![EffectView::ResumeService(id), EffectView::StoreCompletion { id, completion }]
        } else {
            Seq::empty()
        },
        InvocationStatus::Free => Seq::empty(),
    }
}

/// Outcome of completion handling: the effects, or the reader's error.
pub open spec fn completion_outcome<S: StateReader>(
    state: S,
    id: ServiceInvocationId,
    completion: CompletionView,
) -> Result<Seq<EffectView>, S::Error> {
    match state.invocation_status(id.service_id) {
        Ok(status) => Ok(completion_routing(status, id@, completion)),
        Err(e) => Err(e),
    }
}

/// The outbox message that answers a finished invocation.
pub open spec fn invocation_response(result: CompletionResultView) -> OutboxMessageView {
    OutboxMessageView::Response { target: None, result }
}

/// Result and effects of finishing the invocation `id` with `result`.
pub open spec fn completion_of_invocation<S: StateReader>(
    state: S,
    id: ServiceInvocationId,
    result: CompletionResultView,
    outbox_seq_number: u64,
) -> (Result<(), S::Error>, Seq<EffectView>) {
    let dropped = seq![EffectView::DropJournal(id.service_id@)];
    let response = EffectView::EnqueueIntoOutbox {
        seq_number: outbox_seq_number,
        message: invocation_response(result),
    };
    match state.inbox_front(id.service_id) {
        Err(e) => (Err(e), dropped),
        Ok(Some((seq_number, next))) => (
            Ok(()),
            dropped + seq![
                EffectView::PopInbox { service_id: id.service_id@, seq_number },
                EffectView::InvokeService(next),
                response,
            ],
        ),
        Ok(None) => (Ok(()), dropped + seq![EffectView::FreeService(id.service_id@), response]),
    }
}

/// Effects that a decoded journal entry has before it is appended, and whether it
/// sends an outbox message.
pub open spec fn entry_side_effects(
    id: ServiceInvocationIdView,
    entry_index: EntryIndex,
    entry: Entry,
    outbox_seq_number: u64,
) -> (Seq<EffectView>, bool) {
    match entry {
        Entry::Invoke(request) => (seq![EffectView::EnqueueIntoOutbox {
            seq_number: outbox_seq_number,
            message: OutboxMessageView::Invocation { request, response_target: Some((id, entry_index)) },
        }], true),
        Entry::BackgroundInvoke(request) => (seq![EffectView::EnqueueIntoOutbox {
            seq_number: outbox_seq_number,
            message: OutboxMessageView::Invocation { request, response_target: None },
        }], true),
        Entry::CompleteAwakeable(awakeable) => (seq![EffectView::EnqueueIntoOutbox {
            seq_number: outbox_seq_number,
            message: OutboxMessageView::Response {
                target: Some((awakeable.target@, awakeable.entry_index)),
                result: awakeable.result@,
            },
        }], true),
        Entry::SetState { key, value } =>
            (seq![EffectView::SetState { service_id: id.service_id, key, value }], false),
        Entry::ClearState { key } =>
            (seq![EffectView::ClearState { service_id: id.service_id, key }], false),
        Entry::Sleep { wake_up_time } =>
            (seq![EffectView::RegisterTimer { wake_up_time, id, entry_index }], false),
        Entry::Other(_) => (Seq::empty(), false),
    }
}

/// The entry types whose content is decoded before the entry is appended.
pub open spec fn is_decoded_type(ty: EntryType) -> bool {
    ty == EntryType::Invoke || ty == EntryType::BackgroundInvoke
        || ty == EntryType::CompleteAwakeable || ty == EntryType::SetState
        || ty == EntryType::ClearState || ty == EntryType::Sleep
}

/// What a new journal entry of invocation `id` does.
pub open spec fn journal_entry_transition<C: RawEntryCodec, SE>(
    id: ServiceInvocationIdView,
    entry_index: EntryIndex,
    entry: RawEntry,
    inbox: u64,
    outbox: u64,
) -> Transition<Error<SE, C::Error>> {
    let append = EffectView::AppendJournalEntry { id, entry_index, entry };
    if entry.ty == EntryType::Awakeable {
        Transition {
            result: Ok(()),
            emitted: seq![EffectView::AppendAwakeableEntry { id, entry_index, entry }],
            inbox_seq_number: inbox,
            outbox_seq_number: outbox,
        }
    } else if is_decoded_type(entry.ty) {
        match C::decoded(entry) {
            Err(e) => Transition {
                result: Err(Error::Codec(e)),
                emitted: Seq::empty(),
                inbox_seq_number: inbox,
                outbox_seq_number: outbox,
            },
            Ok(decoded) => {
                let (before, sends) = entry_side_effects(id, entry_index, decoded, outbox);
                Transition {
                    result: Ok(()),
                    emitted: before.push(append),
                    inbox_seq_number: inbox,
                    outbox_seq_number: if sends { (outbox + 1) as u64 } else { outbox },
                }
            },
        }
    } else {
        Transition {
            result: Ok(()),
            emitted: seq![append],
            inbox_seq_number: inbox,
            outbox_seq_number: outbox,
        }
    }
}

/// A transition that emits `emitted` and then fails or succeeds as `result` says.
pub open spec fn state_transition<SE, CE>(
    result: Result<(), SE>,
    emitted: Seq<EffectView>,
    inbox: u64,
    outbox: u64,
) -> Transition<Error<SE, CE>> {
    Transition {
        result: match result {
            Ok(()) => Ok(()),
            Err(e) => Err(Error::State(e)),
        },
        emitted,
        inbox_seq_number: inbox,
        outbox_seq_number: outbox,
    }
}

/// Finishing invocation `id` with `result`.
pub open spec fn end_transition<S: StateReader, C: RawEntryCodec>(
    state: S,
    id: ServiceInvocationId,
    result: CompletionResultView,
    inbox: u64,
    outbox: u64,
) -> Transition<Error<S::Error, C::Error>> {
    let (r, emitted) = completion_of_invocation(state, id, result, outbox);
    state_transition(r, emitted, inbox, if r is Ok { (outbox + 1) as u64 } else { outbox })
}

/// Routing `completion` to invocation `id`, after the effects `before`.
pub open spec fn routed_transition<S: StateReader, C: RawEntryCodec>(
    state: S,
    id: ServiceInvocationId,
    completion: CompletionView,
    before: Seq<EffectView>,
    inbox: u64,
    outbox: u64,
) -> Transition<Error<S::Error, C::Error>> {
    match completion_outcome(state, id, completion) {
        Ok(routed) => state_transition(Ok(()), before + routed, inbox, outbox),
        Err(e) => state_transition(Err(e), before, inbox, outbox),
    }
}

/// What an invoker output for invocation `id` does, once the status has been read.
pub open spec fn invoker_transition<S: StateReader, C: RawEntryCodec>(
    state: S,
    id: ServiceInvocationId,
    kind: InvokerKind,
    inbox: u64,
    outbox: u64,
) -> Transition<Error<S::Error, C::Error>> {
    match kind {
        InvokerKind::JournalEntry { entry_index, entry } => match state.journal_status(id.service_id) {
            Err(e) => state_transition(Err(e), Seq::empty(), inbox, outbox),
            Ok(_) => journal_entry_transition::<C, S::Error>(id@, entry_index, entry, inbox, outbox),
        },
        InvokerKind::Suspended { journal_revision } => match state.journal_status(id.service_id) {
            Err(e) => state_transition(Err(e), Seq::empty(), inbox, outbox),
            Ok(journal) => state_transition(
                Ok(()),
                if journal.revision > journal_revision {
                    seq![EffectView::ResumeService(id@)]
                } else {
                    seq![EffectView::SuspendService(id@)]
                },
                inbox,
                outbox,
            ),
        },
        InvokerKind::End => end_transition::<S, C>(
            state, id, CompletionResultView::Success(Seq::empty()), inbox, outbox),
        InvokerKind::Failed { error } => end_transition::<S, C>(
            state, id, CompletionResultView::Failure(INVOKER_FAILURE_CODE, error@), inbox, outbox),
    }
}

/// What `command` does on a machine with the given sequence numbers, reading `state`.
pub open spec fn apply_transition<S: StateReader, C: RawEntryCodec>(
    inbox: u64,
    outbox: u64,
    command: Command,
    state: S,
) -> Transition<Error<S::Error, C::Error>> {
    match command {
        Command::Invocation(si) => match state.invocation_status(si.id.service_id) {
            Err(e) => state_transition(Err(e), Seq::empty(), inbox, outbox),
            Ok(InvocationStatus::Free) =>
                state_transition(Ok(()), seq![EffectView::InvokeService(si)], inbox, outbox),
            Ok(_) => state_transition(
                Ok(()),
                seq![EffectView::EnqueueIntoInbox { seq_number: inbox, service_invocation: si }],
                (inbox + 1) as u64,
                outbox,
            ),
        },
        Command::Response(response) => routed_transition::<S, C>(
            state,
            response.id,
            CompletionView { entry_index: response.entry_index, result: response.result@ },
            Seq::empty(),
            inbox,
            outbox,
        ),
        Command::Invoker(output) => match state.invocation_status(output.service_invocation_id.service_id) {
            Err(e) => state_transition(Err(e), Seq::empty(), inbox, outbox),
            Ok(_) => invoker_transition::<S, C>(state, output.service_invocation_id, output.kind, inbox, outbox),
        },
        Command::OutboxTruncation(index) =>
            state_transition(Ok(()), seq![EffectView::TruncateOutbox(index)], inbox, outbox),
        Command::Timer { service_invocation_id, entry_index, timestamp } => routed_transition::<S, C>(
            state,
            service_invocation_id,
            CompletionView { entry_index, result: CompletionResultView::Success(Seq::empty()) },
            seq![EffectView::DeleteTimer {
                wake_up_time: timestamp,
                service_id: service_invocation_id.service_id@,
                entry_index,
            }],
            inbox,
            outbox,
        ),
    }
}

/// The preconditions that the invoker owes: it reports only on the invocation that
/// holds the entity, and it hands over journal entries in sequence.
pub open spec fn invoker_consistent<S: StateReader>(command: Command, state: S) -> bool {
    match command {
        Command::Invoker(output) => {
            let id = output.service_invocation_id;
            &&& (match state.invocation_status(id.service_id) {
                Ok(status) => status == InvocationStatus::Invoked(id.invocation_id),
                Err(_) => true,
            })
            &&& (match output.kind {
                InvokerKind::JournalEntry { entry_index, .. } => match state.journal_status(id.service_id) {
                    Ok(journal) => entry_index as int == journal.length as int + 1,
                    Err(_) => true,
                },
                _ => true,
            })
        },
        _ => true,
    }
}

/// The state machine of one partition: it owns the inbox and outbox sequence numbers
/// and turns commands into effects.
#[derive(Debug, Default)]
pub struct StateMachine<Codec> {
    inbox_seq_number: u64,
    outbox_seq_number: u64,
    _codec: PhantomData<Codec>,
}

impl<Codec: RawEntryCodec> StateMachine<Codec> {
    /// Sequence number that the next inbox entry gets.
    pub closed spec fn inbox_seq(&self) -> u64 {
        self.inbox_seq_number
    }

    /// Sequence number that the next outbox message gets.
    pub closed spec fn outbox_seq(&self) -> u64 {
        self.outbox_seq_number
    }

    /// A machine that resumes from the sequence numbers read back from storage.
    pub fn new(inbox_seq_number: u64, outbox_seq_number: u64) -> (r: Self)
        ensures
            r.inbox_seq() == inbox_seq_number,
            r.outbox_seq() == outbox_seq_number,
    {
        StateMachine { inbox_seq_number, outbox_seq_number, _codec: PhantomData }
    }

    pub fn inbox_seq_number(&self) -> (r: u64)
        ensures
            r == self.inbox_seq(),
    {
        self.inbox_seq_number
    }

    pub fn outbox_seq_number(&self) -> (r: u64)
        ensures
            r == self.outbox_seq(),
    {
        self.outbox_seq_number
    }

    /// Applies `command`, appending its effects to `effects`, which the caller reuses
    /// across commands.
    pub fn on_apply<State: StateReader>(
        &mut self,
        command: Command,
        effects: &mut Effects,
        state: &State,
    ) -> (r: Result<(), Error<State::Error, Codec::Error>>)
        requires
            old(self).inbox_seq() < u64::MAX,
            old(self).outbox_seq() < u64::MAX,
            invoker_consistent(command, *state),
        ensures
            ({
                let t = apply_transition::<State, Codec>(
                    old(self).inbox_seq(), old(self).outbox_seq(), command, *state);
                &&& r == t.result
                &&& final(effects)@ == old(effects)@ + t.emitted
                &&& final(self).inbox_seq() == t.inbox_seq_number
                &&& final(self).outbox_seq() == t.outbox_seq_number
            }),
            final(self).inbox_seq() >= old(self).inbox_seq(),
            final(self).outbox_seq() >= old(self).outbox_seq(),
    {
        match command {
            Command::Invocation(service_invocation) => {
                let status = match state.get_invocation_status(&service_invocation.id.service_id) {
                    Ok(status) => status,
                    Err(e) => {
                        assert(effects@ =~= old(effects)@ + Seq::empty());
                        return Err(Error::State(e));
                    },
                };
                if status == InvocationStatus::Free {
                    effects.invoke_service(service_invocation);
                } else {
                    effects.enqueue_into_inbox(self.inbox_seq_number, service_invocation);
                    self.inbox_seq_number = self.inbox_seq_number + 1;
                }
                Ok(())
            },
            Command::Response(Response { id, entry_index, result }) => {
                let completion = Completion { entry_index, result };
                let ghost before = effects@;
                match Self::handle_completion(id, completion, state, effects) {
                    Ok(()) => Ok(()),
                    Err(e) => {
                        assert(effects@ =~= before + Seq::empty());
                        Err(Error::State(e))
                    },
                }
            },
            Command::Invoker(OutputEffect { service_invocation_id, kind }) => {
                match state.get_invocation_status(&service_invocation_id.service_id) {
                    Ok(_) => {},
                    Err(e) => {
                        assert(effects@ =~= old(effects)@ + Seq::empty());
                        return Err(Error::State(e));
                    },
                }
                self.on_invoker_output(service_invocation_id, kind, effects, state)
            },
            Command::OutboxTruncation(index) => {
                effects.truncate_outbox(index);
                Ok(())
            },
            Command::Timer { service_invocation_id, entry_index, timestamp } => {
                effects.delete_timer(timestamp, service_invocation_id.service_id.duplicate(), entry_index);
                let completion = Completion { entry_index, result: CompletionResult::Success(Vec::new()) };
                let ghost before = effects@;
                match Self::handle_completion(service_invocation_id, completion, state, effects) {
                    Ok(()) => Ok(()),
                    Err(e) => {
                        assert(effects@ =~= before + Seq::empty());
                        Err(Error::State(e))
                    },
                }
            },
        }
    }

    fn on_invoker_output<State: StateReader>(
        &mut self,
        service_invocation_id: ServiceInvocationId,
        kind: InvokerKind,
        effects: &mut Effects,
        state: &State,
    ) -> (r: Result<(), Error<State::Error, Codec::Error>>)
        requires
            old(self).inbox_seq() < u64::MAX,
            old(self).outbox_seq() < u64::MAX,
            (match kind {
                InvokerKind::JournalEntry { entry_index, .. } => match state.journal_status(service_invocation_id.service_id) {
                    Ok(journal) => entry_index as int == journal.length as int + 1,
                    Err(_) => true,
                },
                _ => true,
            }),
        ensures
            ({
                let t = invoker_transition::<State, Codec>(
                    *state, service_invocation_id, kind, old(self).inbox_seq(), old(self).outbox_seq());
                &&& r == t.result
                &&& final(effects)@ == old(effects)@ + t.emitted
                &&& final(self).inbox_seq() == t.inbox_seq_number
                &&& final(self).outbox_seq() == t.outbox_seq_number
            }),
    {
        match kind {
            InvokerKind::JournalEntry { entry_index, entry } => {
                match state.get_journal_status(&service_invocation_id.service_id) {
                    Ok(_) => {},
                    Err(e) => {
                        assert(effects@ =~= old(effects)@ + Seq::empty());
                        return Err(Error::State(e));
                    },
                }
                self.on_journal_entry(service_invocation_id, entry_index, entry, effects)
            },
            InvokerKind::Suspended { journal_revision } => {
                let actual = match state.get_journal_status(&service_invocation_id.service_id) {
                    Ok(journal) => journal.revision,
                    Err(e) => {
                        assert(effects@ =~= old(effects)@ + Seq::empty());
                        return Err(Error::State(e));
                    },
                };
                if actual > journal_revision {
                    effects.resume_service(service_invocation_id);
                } else {
                    effects.suspend_service(service_invocation_id);
                }
                Ok(())
            },
            InvokerKind::End => {
                match self.complete_invocation(
                    service_invocation_id,
                    CompletionResult::Success(Vec::new()),
                    state,
                    effects,
                ) {
                    Ok(()) => Ok(()),
                    Err(e) => Err(Error::State(e)),
                }
            },
            InvokerKind::Failed { error } => {
                match self.complete_invocation(
                    service_invocation_id,
                    CompletionResult::Failure(INVOKER_FAILURE_CODE, error),
                    state,
                    effects,
                ) {
                    Ok(()) => Ok(()),
                    Err(e) => Err(Error::State(e)),
                }
            },
        }
    }

    fn on_journal_entry<SE>(
        &mut self,
        service_invocation_id: ServiceInvocationId,
        entry_index: EntryIndex,
        entry: RawEntry,
        effects: &mut Effects,
    ) -> (r: Result<(), Error<SE, Codec::Error>>)
        requires
            old(self).outbox_seq() < u64::MAX,
        ensures
            ({
                let t = journal_entry_transition::<Codec, SE>(
                    service_invocation_id@, entry_index, entry, old(self).inbox_seq(), old(self).outbox_seq());
                &&& r == t.result
                &&& final(effects)@ == old(effects)@ + t.emitted
                &&& final(self).inbox_seq() == t.inbox_seq_number
                &&& final(self).outbox_seq() == t.outbox_seq_number
            }),
    {
        let ghost id = service_invocation_id@;
        match entry.ty {
            EntryType::Awakeable => {
                effects.append_awakeable_entry(service_invocation_id, entry_index, entry);
                assert(effects@ =~= old(effects)@ + seq![EffectView::AppendAwakeableEntry { id, entry_index, entry }]);
                return Ok(());
            },
            EntryType::Invoke | EntryType::BackgroundInvoke | EntryType::CompleteAwakeable
            | EntryType::SetState | EntryType::ClearState | EntryType::Sleep => {
                let decoded = match Codec::deserialize(&entry) {
                    Ok(decoded) => decoded,
                    Err(e) => {
                        assert(effects@ =~= old(effects)@ + Seq::empty());
                        return Err(Error::Codec(e));
                    },
                };
                let ghost before = entry_side_effects(id, entry_index, decoded, old(self).outbox_seq()).0;
                match decoded {
                    Entry::Invoke(request) => {
                        let target = service_invocation_id.duplicate();
                        self.send_message(
                            OutboxMessage::Invocation { request, response_target: Some((target, entry_index)) },
                            effects,
                        );
                    },
                    Entry::BackgroundInvoke(request) => {
                        self.send_message(OutboxMessage::Invocation { request, response_target: None }, effects);
                    },
                    Entry::CompleteAwakeable(awakeable) => {
                        self.send_message(
                            OutboxMessage::Response {
                                target: Some((awakeable.target, awakeable.entry_index)),
                                result: awakeable.result,
                            },
                            effects,
                        );
                    },
                    Entry::SetState { key, value } => {
                        effects.set_state(service_invocation_id.service_id.duplicate(), key, value);
                    },
                    Entry::ClearState { key } => {
                        effects.clear_state(service_invocation_id.service_id.duplicate(), key);
                    },
                    Entry::Sleep { wake_up_time } => {
                        effects.register_timer(wake_up_time, service_invocation_id.duplicate(), entry_index);
                    },
                    Entry::Other(_) => {},
                }
                effects.append_journal_entry(service_invocation_id, entry_index, entry);
                assert(effects@ =~= old(effects)@ + before.push(EffectView::AppendJournalEntry { id, entry_index, entry }));
            },
            EntryType::GetState | EntryType::PollInputStream | EntryType::OutputStream | EntryType::Custom(_) => {
                effects.append_journal_entry(service_invocation_id, entry_index, entry);
                assert(effects@ =~= old(effects)@ + seq![EffectView::AppendJournalEntry { id, entry_index, entry }]);
            },
        }
        Ok(())
    }

    /// Routes `completion` to the invocation `service_invocation_id`, or drops it when
    /// that invocation no longer holds the entity.
    fn handle_completion<State: StateReader>(
        service_invocation_id: ServiceInvocationId,
        completion: Completion,
        state: &State,
        effects: &mut Effects,
    ) -> (r: Result<(), State::Error>)
        ensures
            match completion_outcome(*state, service_invocation_id, completion@) {
                Ok(routed) => r is Ok && final(effects)@ == old(effects)@ + routed,
                Err(e) => r == Err::<(), State::Error>(e) && final(effects)@ == old(effects)@,
            },
    {
        let ghost id = service_invocation_id@;
        let ghost c = completion@;
        let status = match state.get_invocation_status(&service_invocation_id.service_id) {
            Ok(status) => status,
            Err(e) => return Err(e),
        };
        match status {
            InvocationStatus::Invoked(current) => {
                if current == service_invocation_id.invocation_id {
                    effects.store_and_forward_completion(service_invocation_id, completion);
                }
            },
            InvocationStatus::Suspended(current) => {
                if current == service_invocation_id.invocation_id {
                    effects.resume_service(service_invocation_id.duplicate());
                    effects.store_completion(service_invocation_id, completion);
                }
            },
            InvocationStatus::Free => {},
        }
        assert(effects@ =~= old(effects)@ + completion_routing(status, id, c));
        Ok(())
    }

    /// Ends the invocation `service_invocation_id`: drops its journal, hands the entity
    /// to the next invocation of its inbox or frees it, and sends the response.
    fn complete_invocation<State: StateReader>(
        &mut self,
        service_invocation_id: ServiceInvocationId,
        completion_result: CompletionResult,
        state: &State,
        effects: &mut Effects,
    ) -> (r: Result<(), State::Error>)
        requires
            old(self).outbox_seq() < u64::MAX,
        ensures
            ({
                let (result, emitted) = completion_of_invocation(
                    *state, service_invocation_id, completion_result@, old(self).outbox_seq());
                &&& r == result
                &&& final(effects)@ == old(effects)@ + emitted
                &&& final(self).inbox_seq() == old(self).inbox_seq()
                &&& final(self).outbox_seq() == if r is Ok {
                    (old(self).outbox_seq() + 1) as u64
                } else {
                    old(self).outbox_seq()
                }
            }),
    {
        let ghost id = service_invocation_id;
        let ghost result_view = completion_result@;
        let service_id = service_invocation_id.service_id;
        effects.drop_journal(service_id.duplicate());
        let front = match state.peek_inbox(&service_id) {
            Ok(front) => front,
            Err(e) => {
                assert(effects@ =~= old(effects)@ + seq![EffectView::DropJournal(id.service_id@)]);
                return Err(e);
            },
        };
        match front {
            Some((seq_number, next)) => {
                effects.pop_inbox(service_id, seq_number);
                effects.invoke_service(next);
            },
            None => {
                effects.free_service(service_id);
            },
        }
        self.send_message(OutboxMessage::Response { target: None, result: completion_result }, effects);
        assert(effects@ =~= old(effects)@ + completion_of_invocation(*state, id, result_view, old(self).outbox_seq()).1);
        Ok(())
    }

    /// Enqueues `message` into the outbox under the next outbox sequence number.
    pub fn send_message(&mut self, message: OutboxMessage, effects: &mut Effects)
        requires
            old(self).outbox_seq() < u64::MAX,
        ensures
            final(effects)@ == old(effects)@.push(EffectView::EnqueueIntoOutbox {
                seq_number: old(self).outbox_seq(),
                message: message@,
            }),
            final(self).outbox_seq() == old(self).outbox_seq() + 1,
            final(self).inbox_seq() == old(self).inbox_seq(),
    {
        effects.enqueue_into_outbox(self.outbox_seq_number, message);
        self.outbox_seq_number = self.outbox_seq_number + 1;
    }
}

} // verus!
