//! The session embodiment coordinator.
//!
//! Every session gets one embodiment prompt, injected right after the session
//! is created, and no prompt of the session is forwarded before that injected
//! prompt has settled. Where the embodiment document cannot be assembled,
//! nothing is injected and the session's prompts go through. The coordinator
//! decides; the caller performs what it decides (forwarding, replying, waking
//! up) and reports back what happened.

use vstd::prelude::*;
use vstd::hash_set::StringHashSet;
use crate::types::FullEmbodimentParams;
use crate::types::opt_text;

verus! {

/// The sessions whose embodiment prompt has not settled yet.
pub struct PendingEmbodimentRequests {
    sessions: StringHashSet,
}

impl View for PendingEmbodimentRequests {
    type V = Set<Seq<char>>;

    closed spec fn view(&self) -> Set<Seq<char>> {
        self.sessions@
    }
}

/// Who to wake up once a session's embodiment has settled.
#[derive(Debug, Clone, Copy, PartialEq, Eq, Structural)]
pub enum Wake {
    /// Every waiter, whichever session it waits for: each checks its own
    /// session again.
    AllWaiters,
}

/// What a prompt does when it meets the coordinator.
#[derive(Debug, Clone, Copy, PartialEq, Eq, Structural)]
pub enum PromptDecision {
    /// The session is not embodying: forward the prompt now.
    Forward,
    /// The session is embodying: wait for the next wake-up, then ask again.
    Wait,
}

impl PendingEmbodimentRequests {
    /// No session is pending.
    pub fn new() -> (r: Self)
        ensures
            r@ == Set::<Seq<char>>::empty(),
    {
        PendingEmbodimentRequests { sessions: StringHashSet::new() }
    }

    /// Marks a session as pending embodiment.
    pub fn mark_as_pending(&mut self, session_id: String)
        ensures
            final(self)@ == old(self)@.insert(session_id@),
    {
        self.sessions.insert(session_id);
    }

    /// Records that the embodiment of a session has settled. The session is
    /// no longer pending, and every waiter is to be woken up.
    pub fn signal_embodiment_completed(&mut self, session_id: &str) -> (wake: Wake)
        ensures
            final(self)@ == old(self)@.remove(session_id@),
            wake == Wake::AllWaiters,
    {
        self.sessions.remove(session_id);
        Wake::AllWaiters
    }

    /// Whether a session is pending embodiment.
    pub fn is_pending(&self, session_id: &str) -> (r: bool)
        ensures
            r == self@.contains(session_id@),
    {
        self.sessions.contains(session_id)
    }

    /// One round of waiting for a session's embodiment: whether the prompt
    /// may go on or has to wait for the next wake-up. A waiter subscribes to
    /// the wake-up before it asks, and asks again after every wake-up.
    pub fn await_embodiment(&self, session_id: &str) -> (decision: PromptDecision)
        ensures
            decision == decision_for(self@, session_id@),
    {
        if self.sessions.contains(session_id) {
            PromptDecision::Wait
        } else {
            PromptDecision::Forward
        }
    }
}

/// What a prompt of `session` does while the given sessions are pending.
pub open spec fn decision_for(pending: Set<Seq<char>>, session: Seq<char>) -> PromptDecision {
    if pending.contains(session) {
        PromptDecision::Wait
    } else {
        PromptDecision::Forward
    }
}

/// Why a prompt turn ended.
#[derive(Debug, Clone, Copy, PartialEq, Eq, Structural)]
pub enum StopReason {
    EndTurn,
    MaxTokens,
    MaxTurnRequests,
    Refusal,
    Cancelled,
}

/// How an injected embodiment prompt settled.
#[derive(Debug, Clone, Copy, PartialEq, Eq, Structural)]
pub enum InjectionOutcome {
    /// The successor answered, with this stop reason.
    Stopped(StopReason),
    /// The successor or the transport answered with an error.
    Failed,
}

/// What to report of an injection that has settled.
#[derive(Debug, Clone, Copy, PartialEq, Eq, Structural)]
pub enum InjectionVerdict {
    /// The embodiment completed; the session is live.
    Completed,
    /// The turn ended but not normally: an internal error with the text of
    /// `abnormal_result_message` is reported. The session stays usable.
    Abnormal,
    /// The error that the successor returned is passed on as it is.
    Propagated,
}

/// The verdict on an outcome.
pub open spec fn verdict_of(outcome: InjectionOutcome) -> InjectionVerdict {
    match outcome {
        InjectionOutcome::Stopped(StopReason::EndTurn) => InjectionVerdict::Completed,
        InjectionOutcome::Stopped(_) => InjectionVerdict::Abnormal,
        InjectionOutcome::Failed => InjectionVerdict::Propagated,
    }
}

/// The text reported when an injected prompt ends abnormally.
pub fn abnormal_result_message() -> (r: String)
    ensures
        r@ == "embodiment completed with abnormal result: {stop_reason:?}"@,
{
    "embodiment completed with abnormal result: {stop_reason:?}".to_owned()
}

/// The synthetic prompt that embodies a session: one text block.
#[derive(Debug, Clone)]
pub struct SyntheticPrompt {
    pub session_id: String,
    pub blocks: Vec<String>,
}

/// The model of a request to embody.
pub struct EmbodimentRequestView {
    pub mode: Option<Seq<char>>,
    pub workspace_path: Option<Seq<char>>,
    pub sparkler: Option<Seq<char>>,
}

impl View for FullEmbodimentParams {
    type V = EmbodimentRequestView;

    open spec fn view(&self) -> EmbodimentRequestView {
        EmbodimentRequestView {
            mode: opt_text(self.mode),
            workspace_path: opt_text(self.workspace_path),
            sparkler: opt_text(self.sparkler),
        }
    }
}

/// The workspace of a session created in directory `cwd`: none when `cwd`
/// is empty.
pub open spec fn workspace_of(cwd: Seq<char>) -> Option<Seq<char>> {
    if cwd.len() == 0 {
        None
    } else {
        Some(cwd)
    }
}

/// The model of the coordinator's settings.
pub struct ComponentView {
    pub sparkler: Option<Seq<char>>,
    pub workspace_path: Option<Seq<char>>,
}

/// The request to embody a session created in directory `cwd`: always a
/// complete embodiment, of the coordinator's persona, with the state of the
/// session's workspace, or of the coordinator's where the session has none.
pub open spec fn request_for(settings: ComponentView, cwd: Seq<char>) -> EmbodimentRequestView {
    EmbodimentRequestView {
        mode: Some("complete"@),
        workspace_path: match workspace_of(cwd) {
            Some(path) => Some(path),
            None => settings.workspace_path,
        },
        sparkler: settings.sparkler,
    }
}

/// What the coordinator observes.
#[derive(Debug, Clone)]
pub enum ProxyEvent {
    /// The successor created a session for a request with working directory
    /// `cwd`.
    SessionCreated { session_id: String, cwd: String },
    /// The successor refused to create a session.
    SessionCreationFailed,
    /// The embodiment document of a session was assembled.
    ContentAssembled { session_id: String, content: String },
    /// Assembling the embodiment document of a session failed.
    AssemblyFailed { session_id: String, message: String },
    /// The injected prompt of a session settled.
    InjectionSettled { session_id: String, outcome: InjectionOutcome },
    /// A prompt for a session arrived, or a waiting prompt was woken up.
    PromptReceived { session_id: String },
}

/// What the coordinator decides.
#[derive(Debug, Clone)]
pub enum ProxyAction {
    /// Return the creation response to the caller unchanged; then, apart
    /// from that request, assemble the embodiment document for `params`.
    Embody { session_id: String, params: FullEmbodimentParams },
    /// Pass the successor's error on to the caller unchanged. There is no
    /// session: nothing is pending, and nothing is injected.
    RelayError,
    /// Send this prompt to the successor.
    Inject { prompt: SyntheticPrompt },
    /// Wake up the waiters and report an internal error with this text. No
    /// prompt is injected; the session is live without an embodiment.
    ReportInternalError { wake: Wake, message: String },
    /// Wake up the waiters and report the verdict.
    Settle { wake: Wake, verdict: InjectionVerdict },
    /// Forward the prompt to the successor and relay its answer unchanged.
    Forward { session_id: String },
    /// Keep the prompt until the next wake-up.
    Park { session_id: String },
}

/// The model of an event.
pub enum EventView {
    SessionCreated { session: Seq<char>, cwd: Seq<char> },
    SessionCreationFailed,
    ContentAssembled { session: Seq<char>, content: Seq<char> },
    AssemblyFailed { session: Seq<char>, message: Seq<char> },
    InjectionSettled { session: Seq<char>, outcome: InjectionOutcome },
    PromptReceived { session: Seq<char> },
}

/// The model of an action.
pub enum ActionView {
    Embody { session: Seq<char>, params: EmbodimentRequestView },
    RelayError,
    Inject { session: Seq<char>, blocks: Seq<Seq<char>> },
    ReportInternalError { wake: Wake, message: Seq<char> },
    Settle { wake: Wake, verdict: InjectionVerdict },
    Forward { session: Seq<char> },
    Park { session: Seq<char> },
}

impl View for ProxyEvent {
    type V = EventView;

    open spec fn view(&self) -> EventView {
        match *self {
            ProxyEvent::SessionCreated { session_id, cwd } => EventView::SessionCreated {
                session: session_id@,
                cwd: cwd@,
            },
            ProxyEvent::SessionCreationFailed => EventView::SessionCreationFailed,
            ProxyEvent::ContentAssembled { session_id, content } => EventView::ContentAssembled {
                session: session_id@,
                content: content@,
            },
            ProxyEvent::AssemblyFailed { session_id, message } => EventView::AssemblyFailed {
                session: session_id@,
                message: message@,
            },
            ProxyEvent::InjectionSettled { session_id, outcome } => EventView::InjectionSettled {
                session: session_id@,
                outcome,
            },
            ProxyEvent::PromptReceived { session_id } => EventView::PromptReceived {
                session: session_id@,
            },
        }
    }
}

impl View for ProxyAction {
    type V = ActionView;

    open spec fn view(&self) -> ActionView {
        match *self {
            ProxyAction::Embody { session_id, params } => ActionView::Embody {
                session: session_id@,
                params: params@,
            },
            ProxyAction::RelayError => ActionView::RelayError,
            ProxyAction::Inject { prompt } => ActionView::Inject {
                session: prompt.session_id@,
                blocks: crate::text::texts(prompt.blocks@),
            },
            ProxyAction::ReportInternalError { wake, message } => ActionView::ReportInternalError {
                wake,
                message: message@,
            },
            ProxyAction::Settle { wake, verdict } => ActionView::Settle { wake, verdict },
            ProxyAction::Forward { session_id } => ActionView::Forward { session: session_id@ },
            ProxyAction::Park { session_id } => ActionView::Park { session: session_id@ },
        }
    }
}

/// The pending sessions after an event. A session is pending from its
/// creation until its embodiment has ended: the injected prompt has settled,
/// however it did, or the document could not be assembled.
pub open spec fn pending_after(pending: Set<Seq<char>>, event: EventView) -> Set<Seq<char>> {
    match event {
        EventView::SessionCreated { session, .. } => pending.insert(session),
        EventView::AssemblyFailed { session, .. } => pending.remove(session),
        EventView::InjectionSettled { session, .. } => pending.remove(session),
        _ => pending,
    }
}

/// The action that answers an event, for a coordinator of the given settings
/// that has the given sessions pending when the event arrives.
pub open spec fn action_for(
    settings: ComponentView,
    pending: Set<Seq<char>>,
    event: EventView,
) -> ActionView {
    match event {
        EventView::SessionCreated { session, cwd } => ActionView::Embody {
            session,
            params: request_for(settings, cwd),
        },
        EventView::SessionCreationFailed => ActionView::RelayError,
        EventView::ContentAssembled { session, content } => ActionView::Inject {
            session,
            blocks: seq![content],
        },
        EventView::AssemblyFailed { message, .. } => ActionView::ReportInternalError {
            wake: Wake::AllWaiters,
            message,
        },
        EventView::InjectionSettled { outcome, .. } => ActionView::Settle {
            wake: Wake::AllWaiters,
            verdict: verdict_of(outcome),
        },
        EventView::PromptReceived { session } => match decision_for(pending, session) {
            PromptDecision::Forward => ActionView::Forward { session },
            PromptDecision::Wait => ActionView::Park { session },
        },
    }
}

/// The coordinator's settings: the persona to embody, if one is chosen, and
/// the workspace of sessions that name none.
#[derive(Debug, Clone)]
pub struct SparkleComponent {
    pub sparkler: Option<String>,
    pub workspace_path: Option<String>,
}

impl View for SparkleComponent {
    type V = ComponentView;

    open spec fn view(&self) -> ComponentView {
        ComponentView {
            sparkler: opt_text(self.sparkler),
            workspace_path: opt_text(self.workspace_path),
        }
    }
}

impl Default for SparkleComponent {
    fn default() -> (r: Self)
        ensures
            r.sparkler is None,
            r.workspace_path is None,
    {
        SparkleComponent { sparkler: None, workspace_path: None }
    }
}

impl SparkleComponent {
    /// A coordinator that embodies the configured default persona.
    pub fn new() -> (r: Self)
        ensures
            r.sparkler is None,
            r.workspace_path is None,
    {
        SparkleComponent { sparkler: None, workspace_path: None }
    }

    /// The same coordinator, embodying the persona `name`.
    pub fn with_sparkler(self, name: String) -> (r: Self)
        ensures
            r.sparkler == Some(name),
            r.workspace_path == self.workspace_path,
    {
        SparkleComponent { sparkler: Some(name), workspace_path: self.workspace_path }
    }

    /// The same coordinator, with `path` as the workspace of sessions that
    /// name none.
    pub fn with_workspace_path(self, path: String) -> (r: Self)
        ensures
            r.sparkler == self.sparkler,
            r.workspace_path == Some(path),
    {
        SparkleComponent { sparkler: self.sparkler, workspace_path: Some(path) }
    }

    /// The workspace of a session created in directory `cwd`.
    pub fn session_workspace_path(cwd: &str) -> (r: Option<String>)
        ensures
            opt_text(r) == workspace_of(cwd@),
    {
        if cwd.is_empty() {
            None
        } else {
            Some(cwd.to_owned())
        }
    }

    /// A session was created: it is pending from now on, and this is the
    /// request to embody it.
    pub fn session_created(
        &self,
        pending: &mut PendingEmbodimentRequests,
        session_id: String,
        cwd: &str,
    ) -> (params: FullEmbodimentParams)
        ensures
            final(pending)@ == old(pending)@.insert(session_id@),
            params@ == request_for(self@, cwd@),
    {
        pending.mark_as_pending(session_id);
        FullEmbodimentParams {
            mode: Some("complete".to_owned()),
            workspace_path: match Self::session_workspace_path(cwd) {
                Some(path) => Some(path),
                None => self.workspace_path.clone(),
            },
            sparkler: self.sparkler.clone(),
        }
    }

    /// The prompt that injects an assembled embodiment document into a
    /// session: a single text block, the document.
    pub fn synthetic_prompt(session_id: String, content: String) -> (prompt: SyntheticPrompt)
        ensures
            prompt.session_id@ == session_id@,
            crate::text::texts(prompt.blocks@) == seq![content@],
    {
        let mut blocks: Vec<String> = Vec::new();
        blocks.push(content);
        assert(crate::text::texts(blocks@) =~= seq![content@]);
        SyntheticPrompt { session_id, blocks }
    }

    /// The embodiment document of a session could not be assembled: no
    /// prompt is injected, and the session is no longer pending.
    pub fn assembly_failed(pending: &mut PendingEmbodimentRequests, session_id: &str) -> (wake:
        Wake)
        ensures
            final(pending)@ == old(pending)@.remove(session_id@),
            wake == Wake::AllWaiters,
    {
        pending.signal_embodiment_completed(session_id)
    }

    /// The injected prompt of a session settled: the session is no longer
    /// pending, whatever the outcome.
    pub fn injection_settled(
        pending: &mut PendingEmbodimentRequests,
        session_id: &str,
        outcome: InjectionOutcome,
    ) -> (r: (Wake, InjectionVerdict))
        ensures
            final(pending)@ == old(pending)@.remove(session_id@),
            r.0 == Wake::AllWaiters,
            r.1 == verdict_of(outcome),
    {
        let wake = pending.signal_embodiment_completed(session_id);
        let verdict = match outcome {
            InjectionOutcome::Stopped(StopReason::EndTurn) => InjectionVerdict::Completed,
            InjectionOutcome::Stopped(_) => InjectionVerdict::Abnormal,
            InjectionOutcome::Failed => InjectionVerdict::Propagated,
        };
        (wake, verdict)
    }

    /// Routes one event: updates the pending sessions and says what to do.
    pub fn handle(&self, pending: &mut PendingEmbodimentRequests, event: ProxyEvent) -> (action:
        ProxyAction)
        ensures
            final(pending)@ == pending_after(old(pending)@, event@),
            action@ == action_for(self@, old(pending)@, event@),
    {
        match event {
            ProxyEvent::SessionCreated { session_id, cwd } => {
                let params = self.session_created(pending, session_id.clone(), cwd.as_str());
                ProxyAction::Embody { session_id, params }
            },
            ProxyEvent::SessionCreationFailed => ProxyAction::RelayError,
            ProxyEvent::ContentAssembled { session_id, content } => ProxyAction::Inject {
                prompt: Self::synthetic_prompt(session_id, content),
            },
            ProxyEvent::AssemblyFailed { session_id, message } => {
                let wake = Self::assembly_failed(pending, session_id.as_str());
                ProxyAction::ReportInternalError { wake, message }
            },
            ProxyEvent::InjectionSettled { session_id, outcome } => {
                let (wake, verdict) = Self::injection_settled(
                    pending,
                    session_id.as_str(),
                    outcome,
                );
                ProxyAction::Settle { wake, verdict }
            },
            ProxyEvent::PromptReceived { session_id } => {
                match pending.await_embodiment(session_id.as_str()) {
                    PromptDecision::Forward => ProxyAction::Forward { session_id },
                    PromptDecision::Wait => ProxyAction::Park { session_id },
                }
            },
        }
    }
}

} // verus!
