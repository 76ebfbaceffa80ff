use restate_partition::effects::{Effect, Effects, OutboxMessage, ServiceInvocation};
use restate_partition::ids::{InvocationId, ServiceId, ServiceInvocationId};
use restate_partition::journal::{
    CompleteAwakeableEntry, Completion, CompletionResult, Entry, EntryType, InvokeRequest,
    RawEntry, RawEntryCodec,
};
use restate_partition::state_machine::{
    Command, Error, InvocationStatus, InvokerKind, JournalStatus, OutputEffect, Response,
    StateMachine, StateReader, INVOKER_FAILURE_CODE,
};

#[derive(Debug, Clone, PartialEq)]
struct ReadFailure;

#[derive(Default)]
struct MemState {
    statuses: Vec<(ServiceId, InvocationStatus)>,
    inboxes: Vec<(ServiceId, u64, ServiceInvocation)>,
    journals: Vec<(ServiceId, JournalStatus)>,
    failing: bool,
}

impl MemState {
    fn with_status(mut self, sid: ServiceId, status: InvocationStatus) -> Self {
        self.statuses.push((sid, status));
        self
    }

    fn with_journal(mut self, sid: ServiceId, revision: u32, length: u32) -> Self {
        self.journals.push((sid, JournalStatus { revision, length }));
        self
    }

    fn with_inbox(mut self, sid: ServiceId, seq: u64, si: ServiceInvocation) -> Self {
        self.inboxes.push((sid, seq, si));
        self
    }
}

impl StateReader for MemState {
    type Error = ReadFailure;

    fn invocation_status(&self, service_id: ServiceId) -> Result<InvocationStatus, ReadFailure> {
        self.get_invocation_status(&service_id)
    }

    fn inbox_front(&self, service_id: ServiceId) -> Result<Option<(u64, ServiceInvocation)>, ReadFailure> {
        self.peek_inbox(&service_id)
    }

    fn journal_status(&self, service_id: ServiceId) -> Result<JournalStatus, ReadFailure> {
        self.get_journal_status(&service_id)
    }

    fn get_invocation_status(&self, service_id: &ServiceId) -> Result<InvocationStatus, ReadFailure> {
        if self.failing {
            return Err(ReadFailure);
        }
        Ok(self
            .statuses
            .iter()
            .find(|(s, _)| s == service_id)
            .map(|(_, st)| *st)
            .unwrap_or(InvocationStatus::Free))
    }

    fn peek_inbox(&self, service_id: &ServiceId) -> Result<Option<(u64, ServiceInvocation)>, ReadFailure> {
        Ok(self
            .inboxes
            .iter()
            .find(|(s, _, _)| s == service_id)
            .map(|(_, seq, si)| (*seq, si.clone())))
    }

    fn get_journal_status(&self, service_id: &ServiceId) -> Result<JournalStatus, ReadFailure> {
        Ok(self
            .journals
            .iter()
            .find(|(s, _)| s == service_id)
            .map(|(_, j)| *j)
            .unwrap_or(JournalStatus { revision: 0, length: 0 }))
    }
}

/// Decodes test entries: the payload is the content, `[0xFF]` does not decode.
struct TestCodec;

fn callee() -> ServiceId {
    ServiceId::new("callee".to_string(), b"b".to_vec())
}

impl RawEntryCodec for TestCodec {
    type Error = String;

    fn decoded(raw: RawEntry) -> Result<Entry, String> {
        Self::deserialize(&raw)
    }

    fn deserialize(raw: &RawEntry) -> Result<Entry, String> {
        if raw.payload == vec![0xFF] {
            return Err("undecodable".to_string());
        }
        let p = raw.payload.clone();
        Ok(match raw.ty {
            EntryType::Invoke => Entry::Invoke(InvokeRequest {
                service_id: callee(),
                method_name: "run".to_string(),
                parameter: p,
            }),
            EntryType::BackgroundInvoke => Entry::BackgroundInvoke(InvokeRequest {
                service_id: callee(),
                method_name: "fire".to_string(),
                parameter: p,
            }),
            EntryType::CompleteAwakeable => Entry::CompleteAwakeable(CompleteAwakeableEntry {
                target: ServiceInvocationId::new(callee(), InvocationId(9)),
                entry_index: 2,
                result: CompletionResult::Success(p),
            }),
            EntryType::SetState => Entry::SetState { key: p.clone(), value: vec![p[0] + 1] },
            EntryType::ClearState => Entry::ClearState { key: p },
            EntryType::Sleep => Entry::Sleep { wake_up_time: p[0] as u64 * 1000 },
            other => Entry::Other(other),
        })
    }
}

type Machine = StateMachine<TestCodec>;

const I1: InvocationId = InvocationId(1);
const I2: InvocationId = InvocationId(2);

fn s1() -> ServiceId {
    ServiceId::new("greeter".to_string(), b"a".to_vec())
}

fn sid(inv: InvocationId) -> ServiceInvocationId {
    ServiceInvocationId::new(s1(), inv)
}

fn invocation(inv: InvocationId) -> ServiceInvocation {
    ServiceInvocation {
        id: sid(inv),
        method_name: "greet".to_string(),
        argument: b"hi".to_vec(),
        response_target: None,
    }
}

fn invoker(inv: InvocationId, kind: InvokerKind) -> Command {
    Command::Invoker(OutputEffect { service_invocation_id: sid(inv), kind })
}

fn entry(ty: EntryType, payload: &[u8]) -> RawEntry {
    RawEntry { ty, payload: payload.to_vec() }
}

fn run(machine: &mut Machine, command: Command, state: &MemState) -> (Result<(), Error<ReadFailure, String>>, Vec<Effect>) {
    let mut effects = Effects::new();
    let r = machine.on_apply(command, &mut effects, state);
    (r, effects.as_slice().to_vec())
}

fn empty_success_response(seq: u64) -> Effect {
    Effect::EnqueueIntoOutbox {
        seq_number: seq,
        message: OutboxMessage::Response { target: None, result: CompletionResult::Success(vec![]) },
    }
}

#[test]
fn new_invocation_on_free_entity_is_invoked() {
    let mut m = Machine::new(0, 0);
    let state = MemState::default();
    let (r, effects) = run(&mut m, Command::Invocation(invocation(I1)), &state);
    assert!(r.is_ok());
    assert_eq!(effects, vec![Effect::InvokeService(invocation(I1))]);
    assert_eq!(m.inbox_seq_number(), 0);
    assert_eq!(m.outbox_seq_number(), 0);
}

#[test]
fn new_invocation_on_busy_entity_is_enqueued() {
    let mut m = Machine::new(7, 0);
    let state = MemState::default().with_status(s1(), InvocationStatus::Invoked(I1));
    let (r, effects) = run(&mut m, Command::Invocation(invocation(I2)), &state);
    assert!(r.is_ok());
    assert_eq!(
        effects,
        vec![Effect::EnqueueIntoInbox { seq_number: 7, service_invocation: invocation(I2) }]
    );
    assert_eq!(m.inbox_seq_number(), 8);
    assert_eq!(m.outbox_seq_number(), 0);
}

#[test]
fn new_invocation_on_suspended_entity_is_enqueued() {
    let mut m = Machine::new(3, 0);
    let state = MemState::default().with_status(s1(), InvocationStatus::Suspended(I1));
    let (_, effects) = run(&mut m, Command::Invocation(invocation(I2)), &state);
    assert_eq!(
        effects,
        vec![Effect::EnqueueIntoInbox { seq_number: 3, service_invocation: invocation(I2) }]
    );
    assert_eq!(m.inbox_seq_number(), 4);
}

#[test]
fn invoke_entry_sends_invocation_with_response_target() {
    let mut m = Machine::new(0, 11);
    let state = MemState::default()
        .with_status(s1(), InvocationStatus::Invoked(I1))
        .with_journal(s1(), 3, 4);
    let raw = entry(EntryType::Invoke, b"req");
    let (r, effects) = run(
        &mut m,
        invoker(I1, InvokerKind::JournalEntry { entry_index: 5, entry: raw.clone() }),
        &state,
    );
    assert!(r.is_ok());
    let request = InvokeRequest { service_id: callee(), method_name: "run".to_string(), parameter: b"req".to_vec() };
    assert_eq!(
        effects,
        vec![
            Effect::EnqueueIntoOutbox {
                seq_number: 11,
                message: OutboxMessage::Invocation { request, response_target: Some((sid(I1), 5)) },
            },
            Effect::AppendJournalEntry { id: sid(I1), entry_index: 5, entry: raw },
        ]
    );
    assert_eq!(m.outbox_seq_number(), 12);
}

#[test]
fn background_invoke_entry_has_no_response_target() {
    let mut m = Machine::new(0, 2);
    let state = MemState::default().with_status(s1(), InvocationStatus::Invoked(I1));
    let raw = entry(EntryType::BackgroundInvoke, b"x");
    let (_, effects) = run(&mut m, invoker(I1, InvokerKind::JournalEntry { entry_index: 1, entry: raw.clone() }), &state);
    let request = InvokeRequest { service_id: callee(), method_name: "fire".to_string(), parameter: b"x".to_vec() };
    assert_eq!(
        effects,
        vec![
            Effect::EnqueueIntoOutbox {
                seq_number: 2,
                message: OutboxMessage::Invocation { request, response_target: None },
            },
            Effect::AppendJournalEntry { id: sid(I1), entry_index: 1, entry: raw },
        ]
    );
    assert_eq!(m.outbox_seq_number(), 3);
}

#[test]
fn complete_awakeable_entry_sends_response_to_originator() {
    let mut m = Machine::new(0, 5);
    let state = MemState::default().with_status(s1(), InvocationStatus::Invoked(I1));
    let raw = entry(EntryType::CompleteAwakeable, b"ok");
    let (_, effects) = run(&mut m, invoker(I1, InvokerKind::JournalEntry { entry_index: 1, entry: raw.clone() }), &state);
    assert_eq!(
        effects,
        vec![
            Effect::EnqueueIntoOutbox {
                seq_number: 5,
                message: OutboxMessage::Response {
                    target: Some((ServiceInvocationId::new(callee(), InvocationId(9)), 2)),
                    result: CompletionResult::Success(b"ok".to_vec()),
                },
            },
            Effect::AppendJournalEntry { id: sid(I1), entry_index: 1, entry: raw },
        ]
    );
}

#[test]
fn state_entries_set_and_clear_state() {
    let mut m = Machine::new(0, 0);
    let state = MemState::default().with_status(s1(), InvocationStatus::Invoked(I1)).with_journal(s1(), 0, 1);
    let set = entry(EntryType::SetState, &[4]);
    let (_, effects) = run(&mut m, invoker(I1, InvokerKind::JournalEntry { entry_index: 2, entry: set.clone() }), &state);
    assert_eq!(
        effects,
        vec![
            Effect::SetState { service_id: s1(), key: vec![4], value: vec![5] },
            Effect::AppendJournalEntry { id: sid(I1), entry_index: 2, entry: set },
        ]
    );
    let clear = entry(EntryType::ClearState, &[4]);
    let (_, effects) = run(&mut m, invoker(I1, InvokerKind::JournalEntry { entry_index: 2, entry: clear.clone() }), &state);
    assert_eq!(
        effects,
        vec![
            Effect::ClearState { service_id: s1(), key: vec![4] },
            Effect::AppendJournalEntry { id: sid(I1), entry_index: 2, entry: clear },
        ]
    );
    assert_eq!(m.outbox_seq_number(), 0);
}

#[test]
fn sleep_entry_registers_timer() {
    let mut m = Machine::new(0, 0);
    let state = MemState::default().with_status(s1(), InvocationStatus::Invoked(I1));
    let raw = entry(EntryType::Sleep, &[3]);
    let (_, effects) = run(&mut m, invoker(I1, InvokerKind::JournalEntry { entry_index: 1, entry: raw.clone() }), &state);
    assert_eq!(
        effects,
        vec![
            Effect::RegisterTimer { wake_up_time: 3000, id: sid(I1), entry_index: 1 },
            Effect::AppendJournalEntry { id: sid(I1), entry_index: 1, entry: raw },
        ]
    );
}

#[test]
fn plain_entries_are_only_appended() {
    for ty in [EntryType::GetState, EntryType::PollInputStream, EntryType::OutputStream, EntryType::Custom(7)] {
        let mut m = Machine::new(0, 0);
        let state = MemState::default().with_status(s1(), InvocationStatus::Invoked(I1));
        // Not decoded, so even an undecodable payload is appended.
        let raw = entry(ty, &[0xFF]);
        let (r, effects) = run(&mut m, invoker(I1, InvokerKind::JournalEntry { entry_index: 1, entry: raw.clone() }), &state);
        assert!(r.is_ok());
        assert_eq!(effects, vec![Effect::AppendJournalEntry { id: sid(I1), entry_index: 1, entry: raw }]);
    }
}

#[test]
fn awakeable_entry_is_appended_as_awakeable_only() {
    let mut m = Machine::new(0, 0);
    let state = MemState::default().with_status(s1(), InvocationStatus::Invoked(I1));
    let raw = entry(EntryType::Awakeable, b"");
    let (r, effects) = run(&mut m, invoker(I1, InvokerKind::JournalEntry { entry_index: 1, entry: raw.clone() }), &state);
    assert!(r.is_ok());
    assert_eq!(effects, vec![Effect::AppendAwakeableEntry { id: sid(I1), entry_index: 1, entry: raw }]);
}

#[test]
fn undecodable_entry_fails_with_codec_error() {
    let mut m = Machine::new(0, 4);
    let state = MemState::default().with_status(s1(), InvocationStatus::Invoked(I1));
    let raw = entry(EntryType::Invoke, &[0xFF]);
    let (r, effects) = run(&mut m, invoker(I1, InvokerKind::JournalEntry { entry_index: 1, entry: raw }), &state);
    assert!(matches!(r, Err(Error::Codec(ref e)) if e == "undecodable"));
    assert_eq!(r.unwrap_err().message(), "failed to deserialize state");
    assert!(effects.is_empty());
    assert_eq!(m.outbox_seq_number(), 4);
}

#[test]
fn suspension_with_newer_revision_resumes() {
    let mut m = Machine::new(0, 0);
    let state = MemState::default().with_status(s1(), InvocationStatus::Invoked(I1)).with_journal(s1(), 42, 3);
    let (_, effects) = run(&mut m, invoker(I1, InvokerKind::Suspended { journal_revision: 41 }), &state);
    assert_eq!(effects, vec![Effect::ResumeService(sid(I1))]);
}

#[test]
fn suspension_with_same_revision_suspends() {
    let mut m = Machine::new(0, 0);
    let state = MemState::default().with_status(s1(), InvocationStatus::Invoked(I1)).with_journal(s1(), 42, 3);
    let (_, effects) = run(&mut m, invoker(I1, InvokerKind::Suspended { journal_revision: 42 }), &state);
    assert_eq!(effects, vec![Effect::SuspendService(sid(I1))]);
}

#[test]
fn completion_for_stale_invocation_is_dropped() {
    let mut m = Machine::new(0, 0);
    let state = MemState::default().with_status(s1(), InvocationStatus::Invoked(I2));
    let response = Response { id: sid(I1), entry_index: 3, result: CompletionResult::Success(b"v".to_vec()) };
    let (r, effects) = run(&mut m, Command::Response(response), &state);
    assert!(r.is_ok());
    assert_eq!(effects, vec![]);
}

#[test]
fn completion_for_free_entity_is_dropped() {
    let mut m = Machine::new(0, 0);
    let state = MemState::default();
    let response = Response { id: sid(I1), entry_index: 3, result: CompletionResult::Success(vec![]) };
    let (_, effects) = run(&mut m, Command::Response(response), &state);
    assert_eq!(effects, vec![]);
}

#[test]
fn completion_for_invoked_entity_is_stored_and_forwarded() {
    let mut m = Machine::new(0, 0);
    let state = MemState::default().with_status(s1(), InvocationStatus::Invoked(I1));
    let result = CompletionResult::Failure(404, "missing".to_string());
    let response = Response { id: sid(I1), entry_index: 3, result: result.clone() };
    let (_, effects) = run(&mut m, Command::Response(response), &state);
    assert_eq!(
        effects,
        vec![Effect::StoreAndForwardCompletion { id: sid(I1), completion: Completion { entry_index: 3, result } }]
    );
}

#[test]
fn completion_for_suspended_entity_resumes_before_storing() {
    let mut m = Machine::new(0, 0);
    let state = MemState::default().with_status(s1(), InvocationStatus::Suspended(I1));
    let result = CompletionResult::Success(b"v".to_vec());
    let response = Response { id: sid(I1), entry_index: 3, result: result.clone() };
    let (_, effects) = run(&mut m, Command::Response(response), &state);
    assert_eq!(
        effects,
        vec![
            Effect::ResumeService(sid(I1)),
            Effect::StoreCompletion { id: sid(I1), completion: Completion { entry_index: 3, result } },
        ]
    );
}

#[test]
fn end_with_waiting_invocation_starts_it() {
    let mut m = Machine::new(0, 20);
    let next = invocation(I2);
    let state = MemState::default()
        .with_status(s1(), InvocationStatus::Invoked(I1))
        .with_inbox(s1(), 3, next.clone());
    let (r, effects) = run(&mut m, invoker(I1, InvokerKind::End), &state);
    assert!(r.is_ok());
    assert_eq!(
        effects,
        vec![
            Effect::DropJournal(s1()),
            Effect::PopInbox { service_id: s1(), seq_number: 3 },
            Effect::InvokeService(next),
            empty_success_response(20),
        ]
    );
    assert_eq!(m.outbox_seq_number(), 21);
    let pops = effects.iter().filter(|e| matches!(e, Effect::PopInbox { .. })).count();
    let invokes = effects.iter().filter(|e| matches!(e, Effect::InvokeService(_))).count();
    let frees = effects.iter().filter(|e| matches!(e, Effect::FreeService(_))).count();
    assert_eq!((pops, invokes, frees), (1, 1, 0));
}

#[test]
fn end_with_empty_inbox_frees_entity() {
    let mut m = Machine::new(0, 0);
    let state = MemState::default().with_status(s1(), InvocationStatus::Invoked(I1));
    let (_, effects) = run(&mut m, invoker(I1, InvokerKind::End), &state);
    assert_eq!(
        effects,
        vec![Effect::DropJournal(s1()), Effect::FreeService(s1()), empty_success_response(0)]
    );
    assert_eq!(m.outbox_seq_number(), 1);
}

#[test]
fn failed_invocation_responds_with_failure() {
    let mut m = Machine::new(0, 6);
    let state = MemState::default().with_status(s1(), InvocationStatus::Invoked(I1));
    let (_, effects) = run(&mut m, invoker(I1, InvokerKind::Failed { error: "boom".to_string() }), &state);
    assert_eq!(INVOKER_FAILURE_CODE, 502);
    assert_eq!(
        effects,
        vec![
            Effect::DropJournal(s1()),
            Effect::FreeService(s1()),
            Effect::EnqueueIntoOutbox {
                seq_number: 6,
                message: OutboxMessage::Response {
                    target: None,
                    result: CompletionResult::Failure(502, "boom".to_string()),
                },
            },
        ]
    );
}

#[test]
fn timer_deletes_timer_then_completes() {
    let mut m = Machine::new(0, 0);
    let state = MemState::default().with_status(s1(), InvocationStatus::Suspended(I1));
    let command = Command::Timer { service_invocation_id: sid(I1), entry_index: 4, timestamp: 99 };
    let (_, effects) = run(&mut m, command, &state);
    assert_eq!(
        effects,
        vec![
            Effect::DeleteTimer { wake_up_time: 99, service_id: s1(), entry_index: 4 },
            Effect::ResumeService(sid(I1)),
            Effect::StoreCompletion {
                id: sid(I1),
                completion: Completion { entry_index: 4, result: CompletionResult::Success(vec![]) },
            },
        ]
    );
}

#[test]
fn timer_for_stale_invocation_only_deletes_timer() {
    let mut m = Machine::new(0, 0);
    let state = MemState::default().with_status(s1(), InvocationStatus::Invoked(I2));
    let command = Command::Timer { service_invocation_id: sid(I1), entry_index: 4, timestamp: 99 };
    let (_, effects) = run(&mut m, command, &state);
    assert_eq!(effects, vec![Effect::DeleteTimer { wake_up_time: 99, service_id: s1(), entry_index: 4 }]);
}

#[test]
fn outbox_truncation_is_forwarded() {
    let mut m = Machine::new(0, 0);
    let (r, effects) = run(&mut m, Command::OutboxTruncation(17), &MemState::default());
    assert!(r.is_ok());
    assert_eq!(effects, vec![Effect::TruncateOutbox(17)]);
}

#[test]
fn reader_failure_is_a_state_error() {
    let mut m = Machine::new(5, 5);
    let state = MemState { failing: true, ..MemState::default() };
    let (r, effects) = run(&mut m, Command::Invocation(invocation(I1)), &state);
    assert!(matches!(r, Err(Error::State(ReadFailure))));
    assert_eq!(r.unwrap_err().message(), "failed to read from state reader");
    assert!(effects.is_empty());
    assert_eq!((m.inbox_seq_number(), m.outbox_seq_number()), (5, 5));
}

fn sample_commands() -> Vec<Command> {
    vec![
        Command::Invocation(invocation(I2)),
        invoker(I1, InvokerKind::JournalEntry { entry_index: 5, entry: entry(EntryType::Invoke, b"q") }),
        Command::Response(Response { id: sid(I1), entry_index: 5, result: CompletionResult::Success(vec![1]) }),
        Command::OutboxTruncation(3),
        invoker(I1, InvokerKind::End),
    ]
}

#[test]
fn same_commands_give_same_effects() {
    let state = MemState::default()
        .with_status(s1(), InvocationStatus::Invoked(I1))
        .with_journal(s1(), 1, 4)
        .with_inbox(s1(), 0, invocation(I2));
    let mut outputs = vec![];
    for _ in 0..2 {
        let mut m = Machine::new(10, 20);
        let mut effects = Effects::new();
        for c in sample_commands() {
            m.on_apply(c, &mut effects, &state).unwrap();
        }
        outputs.push((effects.as_slice().to_vec(), m.inbox_seq_number(), m.outbox_seq_number()));
    }
    assert_eq!(outputs[0], outputs[1]);
    assert_eq!(outputs[0].1, 11);
    assert_eq!(outputs[0].2, 22);
}

#[test]
fn sequence_numbers_never_decrease() {
    let state = MemState::default()
        .with_status(s1(), InvocationStatus::Invoked(I1))
        .with_journal(s1(), 1, 4);
    let mut m = Machine::new(0, 0);
    let mut effects = Effects::new();
    let mut last = (0, 0);
    for c in sample_commands() {
        m.on_apply(c, &mut effects, &state).unwrap();
        let now = (m.inbox_seq_number(), m.outbox_seq_number());
        assert!(now.0 >= last.0 && now.1 >= last.1);
        last = now;
    }
    assert_eq!(last, (1, 2));
}

#[test]
fn effects_buffer_is_reusable() {
    let mut m = Machine::new(0, 0);
    let mut effects = Effects::new();
    m.on_apply(Command::OutboxTruncation(1), &mut effects, &MemState::default()).unwrap();
    m.on_apply(Command::OutboxTruncation(2), &mut effects, &MemState::default()).unwrap();
    assert_eq!(effects.len(), 2);
    assert_eq!(effects.get(1), &Effect::TruncateOutbox(2));
    effects.clear();
    assert!(effects.is_empty());
    m.on_apply(Command::OutboxTruncation(3), &mut effects, &MemState::default()).unwrap();
    assert_eq!(effects.as_slice(), &[Effect::TruncateOutbox(3)]);
}

#[test]
fn send_message_uses_next_outbox_number() {
    let mut m = Machine::new(0, 8);
    let mut effects = Effects::new();
    let message = OutboxMessage::Response { target: None, result: CompletionResult::Success(vec![]) };
    m.send_message(message.clone(), &mut effects);
    assert_eq!(effects.as_slice(), &[Effect::EnqueueIntoOutbox { seq_number: 8, message }]);
    assert_eq!(m.outbox_seq_number(), 9);
}

#[test]
fn cloned_ids_are_equal() {
    let a = sid(I1);
    assert_eq!(a.clone(), a);
    assert_eq!(s1().duplicate(), s1());
}
