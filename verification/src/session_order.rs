//! What holds of every run of the coordinator: the order in which a session's
//! embodiment prompt and its own prompts reach the successor.
//!
//! A run is the sequence of events that the coordinator has handled, from a
//! state with no session pending. What the successor receives in a run
//! follows from the coordinator's actions alone.

use vstd::prelude::*;
use crate::acp_component::{action_for, pending_after, ActionView, ComponentView, EventView};

verus! {

/// A prompt that is sent to the successor.
pub enum Delivery {
    /// The synthetic prompt that embodies a session.
    Embodiment { session: Seq<char>, blocks: Seq<Seq<char>> },
    /// A prompt of the session's caller.
    UserPrompt { session: Seq<char> },
}

/// What an action sends to the successor.
pub open spec fn delivery_of(action: ActionView) -> Seq<Delivery> {
    match action {
        ActionView::Inject { session, blocks } => seq![Delivery::Embodiment { session, blocks }],
        ActionView::Forward { session } => seq![Delivery::UserPrompt { session }],
        _ => Seq::empty(),
    }
}

/// The sessions that are pending after a run.
pub open spec fn pending_at(trace: Seq<EventView>) -> Set<Seq<char>>
    decreases trace.len(),
{
    if trace.len() == 0 {
        Set::empty()
    } else {
        pending_after(pending_at(trace.drop_last()), trace.last())
    }
}

/// What the successor has received in a run, in order.
pub open spec fn delivered(settings: ComponentView, trace: Seq<EventView>) -> Seq<Delivery>
    decreases trace.len(),
{
    if trace.len() == 0 {
        Seq::empty()
    } else {
        delivered(settings, trace.drop_last()) + delivery_of(
            action_for(settings, pending_at(trace.drop_last()), trace.last()),
        )
    }
}

/// What has happened to the sessions in a run.
pub struct History {
    /// The sessions that were created.
    pub created: Set<Seq<char>>,
    /// The sessions whose assembly has ended, well or badly.
    pub assembled: Set<Seq<char>>,
    /// The sessions whose embodiment document was assembled.
    pub injected: Set<Seq<char>>,
    /// The sessions whose embodiment document could not be assembled.
    pub failed: Set<Seq<char>>,
    /// The sessions whose injected prompt has settled.
    pub settled: Set<Seq<char>>,
}

/// The history after one more event.
pub open spec fn history_after(h: History, event: EventView) -> History {
    match event {
        EventView::SessionCreated { session, .. } => History {
            created: h.created.insert(session),
            ..h
        },
        EventView::ContentAssembled { session, .. } => History {
            assembled: h.assembled.insert(session),
            injected: h.injected.insert(session),
            ..h
        },
        EventView::AssemblyFailed { session, .. } => History {
            assembled: h.assembled.insert(session),
            failed: h.failed.insert(session),
            ..h
        },
        EventView::InjectionSettled { session, .. } => History {
            settled: h.settled.insert(session),
            ..h
        },
        EventView::SessionCreationFailed => h,
        EventView::PromptReceived { .. } => h,
    }
}

/// The history of a run.
pub open spec fn history(trace: Seq<EventView>) -> History
    decreases trace.len(),
{
    if trace.len() == 0 {
        History {
            created: Set::empty(),
            assembled: Set::empty(),
            injected: Set::empty(),
            failed: Set::empty(),
            settled: Set::empty(),
        }
    } else {
        history_after(history(trace.drop_last()), trace.last())
    }
}

/// Whether an event can follow a history. The successor gives every session
/// an identifier of its own; a session's document is assembled once, after the
/// session was created; an injected prompt settles after it was sent; and
/// prompts arrive for sessions that exist.
pub open spec fn can_follow(h: History, event: EventView) -> bool {
    match event {
        EventView::SessionCreated { session, .. } => !h.created.contains(session),
        EventView::SessionCreationFailed => true,
        EventView::ContentAssembled { session, .. } => h.created.contains(session)
            && !h.assembled.contains(session),
        EventView::AssemblyFailed { session, .. } => h.created.contains(session)
            && !h.assembled.contains(session),
        EventView::InjectionSettled { session, .. } => h.injected.contains(session),
        EventView::PromptReceived { session } => h.created.contains(session),
    }
}

/// Whether a run can happen: each of its events can follow what came before.
pub open spec fn admissible(trace: Seq<EventView>) -> bool
    decreases trace.len(),
{
    trace.len() == 0 || (admissible(trace.drop_last()) && can_follow(
        history(trace.drop_last()),
        trace.last(),
    ))
}

/// Whether position `at` of a log holds the embodiment prompt of `session`.
pub open spec fn embodies_at(log: Seq<Delivery>, at: int, session: Seq<char>) -> bool {
    &&& 0 <= at < log.len()
    &&& log[at] matches Delivery::Embodiment { session: s, .. }
    &&& s == session
}

/// Whether position `at` of a log holds a caller's prompt for `session`.
pub open spec fn prompts_at(log: Seq<Delivery>, at: int, session: Seq<char>) -> bool {
    &&& 0 <= at < log.len()
    &&& log[at] == (Delivery::UserPrompt { session })
}

/// What the proofs below carry from event to event.
spec fn run_invariant(settings: ComponentView, trace: Seq<EventView>) -> bool {
    let h = history(trace);
    let log = delivered(settings, trace);
    let pending = pending_at(trace);
    &&& h.injected.subset_of(h.assembled)
    &&& h.failed.subset_of(h.assembled)
    &&& h.settled.subset_of(h.injected)
    &&& forall|s: Seq<char>| !(h.injected.contains(s) && h.failed.contains(s))
    &&& forall|s: Seq<char>|
        h.created.contains(s) && !pending.contains(s) ==> h.settled.contains(s)
            || h.failed.contains(s)
    &&& forall|s: Seq<char>|
        h.injected.contains(s) ==> exists|m: int| embodies_at(log, m, s)
    &&& forall|s: Seq<char>, m: int| embodies_at(log, m, s) ==> h.injected.contains(s)
    &&& forall|s: Seq<char>, m: int, n: int|
        embodies_at(log, m, s) && embodies_at(log, n, s) ==> m == n
    &&& forall|s: Seq<char>, k: int|
        prompts_at(log, k, s) ==> h.failed.contains(s) || exists|m: int|
            m < k && embodies_at(log, m, s)
}

proof fn lemma_run_invariant(settings: ComponentView, trace: Seq<EventView>)
    requires
        admissible(trace),
    ensures
        run_invariant(settings, trace),
    decreases trace.len(),
{
    if trace.len() > 0 {
        let prev = trace.drop_last();
        let event = trace.last();
        lemma_run_invariant(settings, prev);
        let h0 = history(prev);
        let log0 = delivered(settings, prev);
        let p0 = pending_at(prev);
        let h = history(trace);
        let log = delivered(settings, trace);
        let pending = pending_at(trace);
        let sent = delivery_of(action_for(settings, p0, event));
        assert(log == log0 + sent);
        assert forall|s: Seq<char>, m: int| embodies_at(log0, m, s) implies embodies_at(
            log,
            m,
            s,
        ) by {}
        assert forall|s: Seq<char>, m: int| prompts_at(log0, m, s) implies prompts_at(
            log,
            m,
            s,
        ) by {}
        assert forall|s: Seq<char>, m: int| embodies_at(log, m, s) && m < log0.len() implies embodies_at(
            log0,
            m,
            s,
        ) by {}
        assert forall|s: Seq<char>, m: int| prompts_at(log, m, s) && m < log0.len() implies prompts_at(
            log0,
            m,
            s,
        ) by {}
        match event {
            EventView::SessionCreated { session, .. } => {
                assert(sent.len() == 0);
                assert(log == log0);
            },
            EventView::SessionCreationFailed => {
                assert(sent.len() == 0);
                assert(log == log0);
            },
            EventView::ContentAssembled { session, content } => {
                assert(sent.len() == 1);
                assert(embodies_at(log, log0.len() as int, session));
                assert forall|s: Seq<char>| h.injected.contains(s) implies exists|m: int|
                    embodies_at(log, m, s) by {
                    if s != session {
                        let m = choose|m: int| embodies_at(log0, m, s);
                        assert(embodies_at(log, m, s));
                    }
                }
                assert forall|s: Seq<char>, k: int| prompts_at(log, k, s) implies h.failed.contains(
                    s,
                ) || exists|m: int| m < k && embodies_at(log, m, s) by {
                    assert(prompts_at(log0, k, s));
                    if !h0.failed.contains(s) {
                        let m = choose|m: int| m < k && embodies_at(log0, m, s);
                        assert(embodies_at(log, m, s));
                    }
                }
            },
            EventView::AssemblyFailed { session, .. } => {
                assert(sent.len() == 0);
                assert(log == log0);
            },
            EventView::InjectionSettled { session, .. } => {
                assert(sent.len() == 0);
                assert(log == log0);
            },
            EventView::PromptReceived { session } => {
                if p0.contains(session) {
                    assert(sent.len() == 0);
                    assert(log == log0);
                } else {
                    assert(sent.len() == 1);
                    assert(h0.settled.contains(session) || h0.failed.contains(session));
                    assert forall|s: Seq<char>| h.injected.contains(s) implies exists|m: int|
                        embodies_at(log, m, s) by {
                        let m = choose|m: int| embodies_at(log0, m, s);
                        assert(embodies_at(log, m, s));
                    }
                    assert forall|s: Seq<char>, k: int| prompts_at(log, k, s) implies h.failed.contains(
                        s,
                    ) || exists|m: int| m < k && embodies_at(log, m, s) by {
                        if k < log0.len() {
                            assert(prompts_at(log0, k, s));
                            if !h0.failed.contains(s) {
                                let m = choose|m: int| m < k && embodies_at(log0, m, s);
                                assert(embodies_at(log, m, s));
                            }
                        } else {
                            assert(s == session);
                            if !h0.failed.contains(session) {
                                assert(h0.injected.contains(session));
                                let first = choose|m: int| embodies_at(log0, m, session);
                                assert(first < k && embodies_at(log, first, s));
                            }
                        }
                    }
                }
            },
        }
    }
}

/// In every run that can happen, a caller's prompt for a session reaches the
/// successor only after the session's embodiment prompt did, however the
/// events of the run interleave. The one exception is a session whose
/// document could not be assembled: the successor never gets an embodiment
/// prompt for it, and its prompts go through without one.
pub proof fn lemma_embodiment_precedes_prompts(
    settings: ComponentView,
    trace: Seq<EventView>,
    session: Seq<char>,
    at: int,
)
    requires
        admissible(trace),
        prompts_at(delivered(settings, trace), at, session),
    ensures
        history(trace).failed.contains(session) || exists|m: int|
            m < at && embodies_at(delivered(settings, trace), m, session),
        history(trace).failed.contains(session) ==> forall|m: int|
            !embodies_at(delivered(settings, trace), m, session),
{
    lemma_run_invariant(settings, trace);
}

/// In every run that can happen, a prompt is forwarded only for a session
/// whose embodiment has ended: its injected prompt has settled, or its
/// document could not be assembled.
pub proof fn lemma_forwarded_after_settlement(
    settings: ComponentView,
    trace: Seq<EventView>,
    session: Seq<char>,
)
    requires
        admissible(trace),
        trace.len() > 0,
        trace.last() == (EventView::PromptReceived { session }),
        action_for(settings, pending_at(trace.drop_last()), trace.last()) == (ActionView::Forward {
            session,
        }),
    ensures
        history(trace.drop_last()).settled.contains(session) || history(
            trace.drop_last(),
        ).failed.contains(session),
{
    lemma_run_invariant(settings, trace.drop_last());
}

/// In every run that can happen, a session that was created is pending until
/// its embodiment has ended, whatever the outcome: once its injected prompt
/// has settled or its assembly has failed, it is pending no more.
pub proof fn lemma_ended_embodiment_clears_pending(trace: Seq<EventView>, session: Seq<char>)
    requires
        admissible(trace),
        history(trace).settled.contains(session) || history(trace).failed.contains(session),
    ensures
        !pending_at(trace).contains(session),
    decreases trace.len(),
{
    if trace.len() > 0 {
        let prev = trace.drop_last();
        let h0 = history(prev);
        if h0.settled.contains(session) || h0.failed.contains(session) {
            lemma_ended_embodiment_clears_pending(prev, session);
            lemma_ended_is_created(prev, session);
        }
    }
}

/// A session whose embodiment has ended was created.
proof fn lemma_ended_is_created(trace: Seq<EventView>, session: Seq<char>)
    requires
        admissible(trace),
        history(trace).settled.contains(session) || history(trace).failed.contains(session)
            || history(trace).injected.contains(session),
    ensures
        history(trace).created.contains(session),
    decreases trace.len(),
{
    if trace.len() > 0 {
        let prev = trace.drop_last();
        let h0 = history(prev);
        if h0.settled.contains(session) || h0.failed.contains(session) || h0.injected.contains(
            session,
        ) {
            lemma_ended_is_created(prev, session);
        }
    }
}

/// In every run that can happen, the successor receives at most one
/// embodiment prompt for a session.
pub proof fn lemma_one_embodiment_per_session(
    settings: ComponentView,
    trace: Seq<EventView>,
    session: Seq<char>,
    m: int,
    n: int,
)
    requires
        admissible(trace),
        embodies_at(delivered(settings, trace), m, session),
        embodies_at(delivered(settings, trace), n, session),
    ensures
        m == n,
{
    lemma_run_invariant(settings, trace);
}

/// A session that could not be created leaves everything as it is: no
/// session becomes pending, and nothing is sent to the successor.
pub proof fn lemma_failed_creation_changes_nothing(
    settings: ComponentView,
    pending: Set<Seq<char>>,
)
    ensures
        pending_after(pending, EventView::SessionCreationFailed) == pending,
        action_for(settings, pending, EventView::SessionCreationFailed) == ActionView::RelayError,
        delivery_of(action_for(settings, pending, EventView::SessionCreationFailed)).len() == 0,
{
}

/// A session that is pending does not hold back the prompts of another
/// session: what the coordinator decides for a prompt depends on the pending
/// state of the prompt's own session alone.
pub proof fn lemma_no_cross_session_blocking(
    settings: ComponentView,
    pending: Set<Seq<char>>,
    other: Seq<char>,
    session: Seq<char>,
)
    requires
        other != session,
    ensures
        action_for(settings, pending.insert(other), EventView::PromptReceived { session })
            == action_for(settings, pending.remove(other), EventView::PromptReceived { session }),
        !pending.contains(session) ==> action_for(
            settings,
            pending.insert(other),
            EventView::PromptReceived { session },
        ) == (ActionView::Forward { session }),
        pending_after(pending.insert(other), EventView::PromptReceived { session })
            == pending.insert(other),
{
}

} // verus!
