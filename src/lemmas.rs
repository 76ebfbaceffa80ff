//! Facts proved of the state machine's transitions: determinism, sequence numbers,
//! journal order, one running invocation per entity, and completion routing.
use vstd::prelude::*;

use crate::effects::EffectView;
use crate::ids::{InvocationId, ServiceId, ServiceInvocationIdView};
use crate::journal::{CompletionResultView, CompletionView, EntryType, RawEntryCodec};
use crate::state_machine::{
    apply_transition, completion_routing, entry_side_effects, invocation_response,
    invoker_consistent, is_decoded_type, Command, InvocationStatus, InvokerKind, StateReader,
    INVOKER_FAILURE_CODE,
};

verus! {

/// The invocation `invocation_id` holds an entity whose status is `status`.
pub open spec fn holds(status: InvocationStatus, invocation_id: InvocationId) -> bool {
    status == InvocationStatus::Invoked(invocation_id) || status == InvocationStatus::Suspended(invocation_id)
}

/// Two readers that give the same answers for every service.
pub open spec fn same_answers<S: StateReader>(a: S, b: S) -> bool {
    &&& forall|sid: ServiceId| #[trigger] a.invocation_status(sid) == b.invocation_status(sid)
    &&& forall|sid: ServiceId| #[trigger] a.inbox_front(sid) == b.inbox_front(sid)
    &&& forall|sid: ServiceId| #[trigger] a.journal_status(sid) == b.journal_status(sid)
}

/// Each entity's inbox holds invocations of that entity only.
pub open spec fn inboxes_well_formed<S: StateReader>(state: S) -> bool {
    forall|sid: ServiceId| match #[trigger] state.inbox_front(sid) {
        Ok(Some((_, next))) => next.id.service_id@ == sid@,
        _ => true,
    }
}

/// Effects of running `commands` in order from the given sequence numbers, the command
/// at position `i` reading `states[i]`.
pub open spec fn run_effects<S: StateReader, C: RawEntryCodec>(
    inbox: u64,
    outbox: u64,
    commands: Seq<Command>,
    states: Seq<S>,
) -> Seq<EffectView>
    decreases commands.len(),
{
    if commands.len() == 0 || states.len() == 0 {
        Seq::empty()
    } else {
        let t = apply_transition::<S, C>(inbox, outbox, commands[0], states[0]);
        t.emitted + run_effects::<S, C>(
            t.inbox_seq_number, t.outbox_seq_number, commands.drop_first(), states.drop_first())
    }
}

/// Applying a command is a function of the sequence numbers, the command and the
/// reader's answers: two readers that answer alike give the same result, effects and
/// sequence numbers.
pub proof fn lemma_apply_deterministic<S: StateReader, C: RawEntryCodec>(
    inbox: u64,
    outbox: u64,
    command: Command,
    a: S,
    b: S,
)
    requires
        same_answers(a, b),
    ensures
        apply_transition::<S, C>(inbox, outbox, command, a) == apply_transition::<S, C>(inbox, outbox, command, b),
{
    match command {
        Command::Invocation(si) => {
            assert(a.invocation_status(si.id.service_id) == b.invocation_status(si.id.service_id));
        },
        Command::Response(response) => {
            assert(a.invocation_status(response.id.service_id) == b.invocation_status(response.id.service_id));
        },
        Command::Invoker(output) => {
            let sid = output.service_invocation_id.service_id;
            assert(a.invocation_status(sid) == b.invocation_status(sid));
            assert(a.inbox_front(sid) == b.inbox_front(sid));
            assert(a.journal_status(sid) == b.journal_status(sid));
        },
        Command::OutboxTruncation(_) => {},
        Command::Timer { service_invocation_id, .. } => {
            let sid = service_invocation_id.service_id;
            assert(a.invocation_status(sid) == b.invocation_status(sid));
        },
    }
}

/// From the same sequence numbers, the same commands against readers that answer alike
/// emit the same effects.
pub proof fn lemma_run_deterministic<S: StateReader, C: RawEntryCodec>(
    inbox: u64,
    outbox: u64,
    commands: Seq<Command>,
    a: Seq<S>,
    b: Seq<S>,
)
    requires
        a.len() == b.len(),
        forall|i: int| 0 <= i < a.len() ==> same_answers(#[trigger] a[i], b[i]),
    ensures
        run_effects::<S, C>(inbox, outbox, commands, a) == run_effects::<S, C>(inbox, outbox, commands, b),
    decreases commands.len(),
{
    if commands.len() > 0 && a.len() > 0 {
        lemma_apply_deterministic::<S, C>(inbox, outbox, commands[0], a[0], b[0]);
        let t = apply_transition::<S, C>(inbox, outbox, commands[0], a[0]);
        assert forall|i: int| 0 <= i < a.drop_first().len() implies same_answers(
            #[trigger] a.drop_first()[i], b.drop_first()[i]) by {
            assert(same_answers(a[i + 1], b[i + 1]));
        }
        lemma_run_deterministic::<S, C>(
            t.inbox_seq_number, t.outbox_seq_number, commands.drop_first(), a.drop_first(), b.drop_first());
    }
}

/// Sequence numbers never go back: a command leaves each of them as it was or one higher.
pub proof fn lemma_sequence_numbers_monotone<S: StateReader, C: RawEntryCodec>(
    inbox: u64,
    outbox: u64,
    command: Command,
    state: S,
)
    requires
        inbox < u64::MAX,
        outbox < u64::MAX,
    ensures
        ({
            let t = apply_transition::<S, C>(inbox, outbox, command, state);
            &&& inbox <= t.inbox_seq_number <= inbox + 1
            &&& outbox <= t.outbox_seq_number <= outbox + 1
        }),
{
}

/// A journal entry that the invoker hands over is appended right after the journal's
/// current length.
pub proof fn lemma_journal_density<S: StateReader, C: RawEntryCodec>(
    inbox: u64,
    outbox: u64,
    command: Command,
    state: S,
    i: int,
)
    requires
        invoker_consistent(command, state),
        0 <= i < apply_transition::<S, C>(inbox, outbox, command, state).emitted.len(),
    ensures
        match apply_transition::<S, C>(inbox, outbox, command, state).emitted[i] {
            EffectView::AppendJournalEntry { entry_index, .. } | EffectView::AppendAwakeableEntry { entry_index, .. } =>
                match command {
                    Command::Invoker(output) => match state.journal_status(output.service_invocation_id.service_id) {
                        Ok(journal) => entry_index as int == journal.length as int + 1,
                        Err(_) => false,
                    },
                    _ => false,
                },
            _ => true,
        },
{
    let t = apply_transition::<S, C>(inbox, outbox, command, state);
    match command {
        Command::Invoker(output) => {
            let id = output.service_invocation_id@;
            match output.kind {
                InvokerKind::JournalEntry { entry_index, entry } => {
                    if entry.ty != EntryType::Awakeable && is_decoded_type(entry.ty) {
                        match C::decoded(entry) {
                            Ok(decoded) => {
                                let (before, _) = entry_side_effects(id, entry_index, decoded, outbox);
                                if i < before.len() {
                                    assert(t.emitted[i] == before[i]);
                                }
                            },
                            Err(_) => {},
                        }
                    }
                },
                InvokerKind::End | InvokerKind::Failed { .. } => {
                    if state.invocation_status(output.service_invocation_id.service_id) is Ok {
                        assert(!(t.emitted[i] is AppendJournalEntry) && !(t.emitted[i] is AppendAwakeableEntry));
                    }
                },
                _ => {},
            }
        },
        Command::Response(r) => {
            if state.invocation_status(r.id.service_id) is Ok {
                assert(!(t.emitted[i] is AppendJournalEntry) && !(t.emitted[i] is AppendAwakeableEntry));
            }
        },
        Command::Timer { service_invocation_id, .. } => {
            if state.invocation_status(service_invocation_id.service_id) is Ok {
                assert(!(t.emitted[i] is AppendJournalEntry) && !(t.emitted[i] is AppendAwakeableEntry));
            }
        },
        _ => {},
    }
}

/// A command starts an invocation on an entity only while the entity is free, or right
/// after it dropped the journal of the invocation that held the entity: no entity ever
/// has two invocations running.
pub proof fn lemma_single_running_invocation<S: StateReader, C: RawEntryCodec>(
    inbox: u64,
    outbox: u64,
    command: Command,
    state: S,
    i: int,
)
    requires
        inboxes_well_formed(state),
        0 <= i < apply_transition::<S, C>(inbox, outbox, command, state).emitted.len(),
    ensures
        ({
            let emitted = apply_transition::<S, C>(inbox, outbox, command, state).emitted;
            match emitted[i] {
                EffectView::InvokeService(si) =>
                    state.invocation_status(si.id.service_id) == Ok::<InvocationStatus, S::Error>(InvocationStatus::Free)
                    || exists|j: int| 0 <= j < i && emitted[j] == EffectView::DropJournal(si.id.service_id@),
                _ => true,
            }
        }),
{
    let emitted = apply_transition::<S, C>(inbox, outbox, command, state).emitted;
    match command {
        Command::Invoker(output) => {
            let sid = output.service_invocation_id.service_id;
            match output.kind {
                InvokerKind::End | InvokerKind::Failed { .. } => {
                    match state.inbox_front(sid) {
                        Ok(Some((_, next))) => {
                            if emitted[i] is InvokeService {
                                assert(emitted[0] == EffectView::DropJournal(sid@));
                                assert(next.id.service_id@ == sid@);
                            }
                        },
                        _ => {},
                    }
                },
                InvokerKind::JournalEntry { entry_index, entry } => {
                    let id = output.service_invocation_id@;
                    if entry.ty != EntryType::Awakeable && is_decoded_type(entry.ty) {
                        match C::decoded(entry) {
                            Ok(decoded) => {
                                let (before, _) = entry_side_effects(id, entry_index, decoded, outbox);
                                if i < before.len() {
                                    assert(emitted[i] == before[i]);
                                }
                            },
                            Err(_) => {},
                        }
                    }
                },
                _ => {},
            }
        },
        _ => {},
    }
}

/// A response for an invocation that does not hold its entity emits nothing; a timer
/// for one only deletes the timer.
pub proof fn lemma_stale_completion_dropped<S: StateReader, C: RawEntryCodec>(
    inbox: u64,
    outbox: u64,
    command: Command,
    state: S,
)
    requires
        match command {
            Command::Response(response) => match state.invocation_status(response.id.service_id) {
                Ok(status) => !holds(status, response.id.invocation_id),
                Err(_) => false,
            },
            Command::Timer { service_invocation_id, .. } => match state.invocation_status(service_invocation_id.service_id) {
                Ok(status) => !holds(status, service_invocation_id.invocation_id),
                Err(_) => false,
            },
            _ => false,
        },
    ensures
        ({
            let t = apply_transition::<S, C>(inbox, outbox, command, state);
            &&& t.result is Ok
            &&& t.inbox_seq_number == inbox
            &&& t.outbox_seq_number == outbox
            &&& match command {
                Command::Timer { service_invocation_id, entry_index, timestamp } => t.emitted == seq![
                    EffectView::DeleteTimer {
                        wake_up_time: timestamp,
                        service_id: service_invocation_id.service_id@,
                        entry_index,
                    },
                ],
                _ => t.emitted == Seq::<EffectView>::empty(),
            }
        }),
{
    let t = apply_transition::<S, C>(inbox, outbox, command, state);
    match command {
        Command::Timer { .. } => {
            assert(t.emitted =~= t.emitted.take(1));
        },
        Command::Response(_) => {
            assert(t.emitted =~= Seq::<EffectView>::empty());
        },
        _ => {},
    }
}

/// Ending an invocation whose entity has a waiting invocation pops the inbox once,
/// starts that invocation once, and does not free the entity.
pub proof fn lemma_inbox_drained_on_end<S: StateReader, C: RawEntryCodec>(
    inbox: u64,
    outbox: u64,
    command: Command,
    state: S,
)
    requires
        match command {
            Command::Invoker(output) => {
                &&& (output.kind is End || output.kind is Failed)
                &&& state.invocation_status(output.service_invocation_id.service_id) is Ok
                &&& state.inbox_front(output.service_invocation_id.service_id) matches Ok(Some(_))
            },
            _ => false,
        },
    ensures
        ({
            let emitted = apply_transition::<S, C>(inbox, outbox, command, state).emitted;
            &&& exists|i: int| 0 <= i < emitted.len() && (#[trigger] emitted[i]) is PopInbox
                && forall|j: int| 0 <= j < emitted.len() && (#[trigger] emitted[j]) is PopInbox ==> j == i
            &&& exists|i: int| 0 <= i < emitted.len() && (#[trigger] emitted[i]) is InvokeService
                && forall|j: int| 0 <= j < emitted.len() && (#[trigger] emitted[j]) is InvokeService ==> j == i
            &&& forall|j: int| 0 <= j < emitted.len() ==> !((#[trigger] emitted[j]) is FreeService)
        }),
{
    let emitted = apply_transition::<S, C>(inbox, outbox, command, state).emitted;
    assert(emitted.len() == 4);
    assert(emitted[1] is PopInbox);
    assert(emitted[2] is InvokeService);
}

/// A completion for a suspended invocation resumes it first and stores the completion
/// after.
pub proof fn lemma_resume_before_store<S: StateReader, C: RawEntryCodec>(
    inbox: u64,
    outbox: u64,
    command: Command,
    state: S,
)
    requires
        match command {
            Command::Response(response) => state.invocation_status(response.id.service_id)
                == Ok::<InvocationStatus, S::Error>(InvocationStatus::Suspended(response.id.invocation_id)),
            Command::Timer { service_invocation_id, .. } => state.invocation_status(service_invocation_id.service_id)
                == Ok::<InvocationStatus, S::Error>(InvocationStatus::Suspended(service_invocation_id.invocation_id)),
            _ => false,
        },
    ensures
        ({
            let emitted = apply_transition::<S, C>(inbox, outbox, command, state).emitted;
            exists|i: int, j: int| 0 <= i < j < emitted.len()
                && (#[trigger] emitted[i]) is ResumeService && (#[trigger] emitted[j]) is StoreCompletion
        }),
{
    let emitted = apply_transition::<S, C>(inbox, outbox, command, state).emitted;
    match command {
        Command::Response(_) => {
            assert(emitted[0] is ResumeService && emitted[1] is StoreCompletion);
        },
        _ => {
            assert(emitted[1] is ResumeService && emitted[2] is StoreCompletion);
        },
    }
}

/// Number of effects in `s` that satisfy `p`.
pub open spec fn count_where(s: Seq<EffectView>, p: spec_fn(EffectView) -> bool) -> nat
    decreases s.len(),
{
    if s.len() == 0 {
        0
    } else {
        count_where(s.drop_last(), p) + if p(s.last()) { 1nat } else { 0nat }
    }
}

/// Number of inbox entries that `s` enqueues.
pub open spec fn inbox_enqueues(s: Seq<EffectView>) -> nat {
    count_where(s, |e: EffectView| e is EnqueueIntoInbox)
}

/// Number of outbox messages that `s` enqueues.
pub open spec fn outbox_enqueues(s: Seq<EffectView>) -> nat {
    count_where(s, |e: EffectView| e is EnqueueIntoOutbox)
}

pub broadcast proof fn lemma_count_push(s: Seq<EffectView>, e: EffectView, p: spec_fn(EffectView) -> bool)
    ensures
        #[trigger] count_where(s.push(e), p) == count_where(s, p) + if p(e) { 1nat } else { 0nat },
{
    assert(s.push(e).drop_last() =~= s);
}

pub broadcast proof fn lemma_count_concat(a: Seq<EffectView>, b: Seq<EffectView>, p: spec_fn(EffectView) -> bool)
    ensures
        #[trigger] count_where(a + b, p) == count_where(a, p) + count_where(b, p),
    decreases b.len(),
{
    if b.len() == 0 {
        assert(a + b =~= a);
    } else {
        assert((a + b).drop_last() =~= a + b.drop_last());
        lemma_count_concat(a, b.drop_last(), p);
    }
}

proof fn lemma_routing_enqueues_nothing(status: InvocationStatus, id: ServiceInvocationIdView, c: CompletionView)
    ensures
        inbox_enqueues(completion_routing(status, id, c)) == 0,
        outbox_enqueues(completion_routing(status, id, c)) == 0,
{
    broadcast use lemma_count_push;
    assert(inbox_enqueues(Seq::empty()) == 0);
    assert(outbox_enqueues(Seq::empty()) == 0);
    let resume = EffectView::ResumeService(id);
    let store = EffectView::StoreCompletion { id, completion: c };
    assert(seq![resume, store] =~= Seq::empty().push(resume).push(store));
}

/// The inbox sequence number grows by one for each inbox entry a command enqueues, and
/// the outbox sequence number by one for each message it sends.
pub proof fn lemma_sequence_numbers_count_messages<S: StateReader, C: RawEntryCodec>(
    inbox: u64,
    outbox: u64,
    command: Command,
    state: S,
)
    requires
        inbox < u64::MAX,
        outbox < u64::MAX,
    ensures
        ({
            let t = apply_transition::<S, C>(inbox, outbox, command, state);
            &&& t.inbox_seq_number == inbox + inbox_enqueues(t.emitted)
            &&& t.outbox_seq_number == outbox + outbox_enqueues(t.emitted)
        }),
{
    broadcast use lemma_count_push, lemma_count_concat;
    let t = apply_transition::<S, C>(inbox, outbox, command, state);
    assert(inbox_enqueues(Seq::empty()) == 0);
    assert(outbox_enqueues(Seq::empty()) == 0);
    match command {
        Command::Invoker(output) => {
            let id = output.service_invocation_id;
            match output.kind {
                InvokerKind::JournalEntry { entry_index, entry } => {
                    if entry.ty != EntryType::Awakeable && is_decoded_type(entry.ty) {
                        match C::decoded(entry) {
                            Ok(decoded) => {
                                let (before, _) = entry_side_effects(id@, entry_index, decoded, outbox);
                                assert(inbox_enqueues(before) == 0);
                            },
                            Err(_) => {},
                        }
                    }
                },
                InvokerKind::End | InvokerKind::Failed { .. } => {
                    let result = match output.kind {
                        InvokerKind::Failed { error } => CompletionResultView::Failure(INVOKER_FAILURE_CODE, error@),
                        _ => CompletionResultView::Success(Seq::empty()),
                    };
                    let response = EffectView::EnqueueIntoOutbox {
                        seq_number: outbox,
                        message: invocation_response(result),
                    };
                    let sid = id.service_id@;
                    match state.inbox_front(id.service_id) {
                        Ok(Some((seq_number, next))) => {
                            let pop = EffectView::PopInbox { service_id: sid, seq_number };
                            let start = EffectView::InvokeService(next);
                            assert(seq![pop, start, response] =~= Seq::empty().push(pop).push(start).push(response));
                        },
                        Ok(None) => {
                            let free = EffectView::FreeService(sid);
                            assert(seq![free, response] =~= Seq::empty().push(free).push(response));
                        },
                        Err(_) => {},
                    }
                },
                _ => {},
            }
        },
        Command::Response(r) => {
            match state.invocation_status(r.id.service_id) {
                Ok(status) => {
                    let c = CompletionView { entry_index: r.entry_index, result: r.result@ };
                    let routed = completion_routing(status, r.id@, c);
                    lemma_routing_enqueues_nothing(status, r.id@, c);
                    assert(Seq::<EffectView>::empty() + routed =~= routed);
                },
                Err(_) => {},
            }
        },
        Command::Timer { service_invocation_id, entry_index, timestamp } => {
            match state.invocation_status(service_invocation_id.service_id) {
                Ok(status) => {
                    let c = CompletionView { entry_index, result: CompletionResultView::Success(Seq::empty()) };
                    lemma_routing_enqueues_nothing(status, service_invocation_id@, c);
                },
                Err(_) => {},
            }
        },
        _ => {},
    }
}

} // verus!
