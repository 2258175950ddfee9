//! The editor accept loop as a state machine.
//!
//! Before the channel is bound, an entry that a previous run left at its path
//! is looked for and, if there is one, removed. After that every accepted
//! session gets the next identity and is handed over, one after the other,
//! for as long as the listener lives. The machine decides; its driver checks,
//! removes, binds, accepts and hands over, and answers each action with the
//! event that tells how it ended.

use crate::decimal::{append_decimal, decimal};
use crate::identity::{after_issue, exhausted, EditorId, EditorIdSource};
use crate::report::{
    identities_detail,
    out_of_turn_detail,
    record_view,
    Fatal,
    FatalCause,
    FatalView,
    Level,
    Record,
    RecordView,
};
use vstd::prelude::*;

verus! {

/// Where the loop stands: the action whose outcome it waits for.
#[derive(Clone, Copy, Debug, PartialEq, Eq, Structural)]
pub enum EditorPhase {
    /// Looking for a stale entry at the channel path.
    CheckingStale,
    /// Removing the stale entry.
    RemovingStale,
    /// Binding the channel.
    Binding,
    /// Waiting for a session.
    Accepting,
    /// The loop failed beyond recovery.
    Failed,
}

/// How the action that the loop asked for ended.
#[derive(Clone, Debug, PartialEq, Eq)]
pub enum EditorEvent {
    /// The check completed: an entry exists at the channel path, or none.
    Exists(bool),
    /// The stale entry is gone.
    Removed,
    /// The channel is bound; the driver holds the listener.
    Bound,
    /// The listener accepted a session; the driver holds its stream.
    Accepted,
    /// The action failed; this is the error in words.
    Failed(String),
}

/// An event with its text as a sequence of characters.
#[verifier::ext_equal]
pub enum EditorEventView {
    Exists(bool),
    Removed,
    Bound,
    Accepted,
    Failed(Seq<char>),
}

impl View for EditorEvent {
    type V = EditorEventView;

    open spec fn view(&self) -> EditorEventView {
        match self {
            EditorEvent::Exists(found) => EditorEventView::Exists(*found),
            EditorEvent::Removed => EditorEventView::Removed,
            EditorEvent::Bound => EditorEventView::Bound,
            EditorEvent::Accepted => EditorEventView::Accepted,
            EditorEvent::Failed(detail) => EditorEventView::Failed(detail@),
        }
    }
}

/// What the driver is to do next. Checking and removing go through the
/// sandbox, which keeps them inside the root that the action names.
#[derive(Clone, Debug, PartialEq, Eq)]
pub enum EditorAction {
    /// Find out whether an entry exists at the channel path.
    CheckExists { root: &'static str },
    /// Remove the entry at the channel path.
    RemoveFile { root: &'static str },
    /// Bind the channel at its path.
    Bind,
    /// Wait for a session.
    Accept,
    /// Hand the accepted session over under this identity without waiting
    /// for it to end, then wait for the next session.
    HandOffThenAccept(EditorId),
    /// End the process with this failure.
    Terminate(Fatal),
}

/// An action with its text as a sequence of characters.
#[verifier::ext_equal]
pub enum EditorActionView {
    CheckExists { root: Seq<char> },
    RemoveFile { root: Seq<char> },
    Bind,
    Accept,
    HandOffThenAccept(EditorId),
    Terminate(FatalView),
}

impl View for EditorAction {
    type V = EditorActionView;

    open spec fn view(&self) -> EditorActionView {
        match self {
            EditorAction::CheckExists { root } => EditorActionView::CheckExists { root: root@ },
            EditorAction::RemoveFile { root } => EditorActionView::RemoveFile { root: root@ },
            EditorAction::Bind => EditorActionView::Bind,
            EditorAction::Accept => EditorActionView::Accept,
            EditorAction::HandOffThenAccept(id) => EditorActionView::HandOffThenAccept(*id),
            EditorAction::Terminate(fatal) => EditorActionView::Terminate(fatal@),
        }
    }
}

/// One decision of the loop: a record to emit, if any, and the action to
/// perform after it.
#[derive(Clone, Debug, PartialEq, Eq)]
pub struct EditorStep {
    pub record: Option<Record>,
    pub action: EditorAction,
}

/// A step with its texts as sequences of characters.
#[verifier::ext_equal]
pub struct EditorStepView {
    pub record: Option<RecordView>,
    pub action: EditorActionView,
}

impl View for EditorStep {
    type V = EditorStepView;

    open spec fn view(&self) -> EditorStepView {
        EditorStepView { record: record_view(self.record), action: self.action@ }
    }
}

/// The accept loop: the channel path as shown in records, and the phase.
#[derive(Debug)]
pub struct EditorAcceptLoop {
    path: String,
    phase: EditorPhase,
}

/// The accept loop as its path text and phase.
#[verifier::ext_equal]
pub struct EditorLoopView {
    pub path: Seq<char>,
    pub phase: EditorPhase,
}

impl View for EditorAcceptLoop {
    type V = EditorLoopView;

    closed spec fn view(&self) -> EditorLoopView {
        EditorLoopView { path: self.path@, phase: self.phase }
    }
}

/// The outcome of one transition: the state and the number of identities
/// issued after it, and the step decided.
#[verifier::ext_equal]
pub struct EditorOutcome {
    pub state: EditorLoopView,
    pub issued: nat,
    pub step: EditorStepView,
}

/// The root of the sandbox in which the channel path is checked and cleared:
/// the root of the filesystem.
pub open spec fn sandbox_root() -> Seq<char> {
    "/"@
}

/// The action that looks for a stale entry.
pub open spec fn check_exists() -> EditorActionView {
    EditorActionView::CheckExists { root: sandbox_root() }
}

/// The action that removes a stale entry.
pub open spec fn remove_file() -> EditorActionView {
    EditorActionView::RemoveFile { root: sandbox_root() }
}

/// A step that emits nothing.
pub open spec fn silent(action: EditorActionView) -> EditorStepView {
    EditorStepView { record: None, action }
}

/// A step that emits one informational record.
pub open spec fn announce(message: Seq<char>, action: EditorActionView) -> EditorStepView {
    EditorStepView { record: Some(RecordView { level: Level::Info, message }), action }
}

/// The record of a bound channel.
pub open spec fn listening_message(path: Seq<char>) -> Seq<char> {
    "Listening on UNIX socket: "@ + path
}

/// The record of an attached session.
pub open spec fn established_message(id: EditorId) -> Seq<char> {
    "Editor connection established (#"@ + decimal(id.0 as nat) + ")"@
}

/// The loop moves on to `phase` and takes `step`; no identity is issued.
pub open spec fn proceed(
    state: EditorLoopView,
    issued: nat,
    phase: EditorPhase,
    step: EditorStepView,
) -> EditorOutcome {
    EditorOutcome { state: EditorLoopView { path: state.path, phase }, issued, step }
}

/// The end of the loop: the failed state and the step that terminates.
pub open spec fn editor_failure(
    state: EditorLoopView,
    issued: nat,
    cause: FatalCause,
    detail: Seq<char>,
) -> EditorOutcome {
    proceed(
        state,
        issued,
        EditorPhase::Failed,
        silent(EditorActionView::Terminate(FatalView { cause, detail })),
    )
}

/// The answer to an event that the pending action cannot have produced.
pub open spec fn editor_out_of_turn(state: EditorLoopView, issued: nat) -> EditorOutcome {
    editor_failure(state, issued, FatalCause::EditorProtocol, out_of_turn_detail())
}

/// The loop at startup and its first action: look for a stale entry.
pub open spec fn editor_start(path: Seq<char>) -> (EditorLoopView, EditorStepView) {
    (
        EditorLoopView { path, phase: EditorPhase::CheckingStale },
        silent(check_exists()),
    )
}

/// The transition of the loop: what follows `event` in `state`, with
/// `issued` identities handed out so far.
///
/// An entry that exists is removed before the channel is bound; where none
/// exists the channel is bound at once. An accepted session takes the next
/// identity. A failed check, removal, bind or accept ends the loop, and so
/// does an accepted session for which no identity is left.
pub open spec fn editor_next(
    state: EditorLoopView,
    issued: nat,
    event: EditorEventView,
) -> EditorOutcome {
    match state.phase {
        EditorPhase::CheckingStale => match event {
            EditorEventView::Exists(true) => proceed(
                state,
                issued,
                EditorPhase::RemovingStale,
                silent(remove_file()),
            ),
            EditorEventView::Exists(false) => proceed(
                state,
                issued,
                EditorPhase::Binding,
                silent(EditorActionView::Bind),
            ),
            EditorEventView::Failed(detail) => editor_failure(
                state,
                issued,
                FatalCause::StaleCheck,
                detail,
            ),
            _ => editor_out_of_turn(state, issued),
        },
        EditorPhase::RemovingStale => match event {
            EditorEventView::Removed => proceed(
                state,
                issued,
                EditorPhase::Binding,
                silent(EditorActionView::Bind),
            ),
            EditorEventView::Failed(detail) => editor_failure(
                state,
                issued,
                FatalCause::StaleRemove,
                detail,
            ),
            _ => editor_out_of_turn(state, issued),
        },
        EditorPhase::Binding => match event {
            EditorEventView::Bound => proceed(
                state,
                issued,
                EditorPhase::Accepting,
                announce(listening_message(state.path), EditorActionView::Accept),
            ),
            EditorEventView::Failed(detail) => editor_failure(
                state,
                issued,
                FatalCause::EditorSetup,
                detail,
            ),
            _ => editor_out_of_turn(state, issued),
        },
        EditorPhase::Accepting => match event {
            EditorEventView::Accepted => if exhausted(issued) {
                editor_failure(state, issued, FatalCause::EditorIdentities, identities_detail())
            } else {
                proceed(
                    state,
                    after_issue(issued),
                    EditorPhase::Accepting,
                    announce(
                        established_message(EditorId(issued as usize)),
                        EditorActionView::HandOffThenAccept(EditorId(issued as usize)),
                    ),
                )
            },
            EditorEventView::Failed(detail) => editor_failure(
                state,
                issued,
                FatalCause::EditorAccept,
                detail,
            ),
            _ => editor_out_of_turn(state, issued),
        },
        EditorPhase::Failed => editor_out_of_turn(state, issued),
    }
}

impl EditorAcceptLoop {
    /// Starts the loop for the channel whose path reads `path` in records,
    /// and names its first action.
    pub fn start(path: String) -> (started: (EditorAcceptLoop, EditorStep))
        ensures
            (started.0@, started.1@) == editor_start(path@),
    {
        (
            EditorAcceptLoop { path, phase: EditorPhase::CheckingStale },
            EditorStep { record: None, action: EditorAction::CheckExists { root: "/" } },
        )
    }

    /// The current phase.
    pub fn phase(&self) -> (phase: EditorPhase)
        ensures
            phase == self@.phase,
    {
        self.phase
    }

    /// Moves on to `phase` without a record.
    fn advance(&mut self, phase: EditorPhase, action: EditorAction) -> (step: EditorStep)
        ensures
            final(self)@ == (EditorLoopView { path: old(self)@.path, phase }),
            step@ == silent(action@),
    {
        self.phase = phase;
        EditorStep { record: None, action }
    }

    /// Ends the loop with a failure.
    fn fail(&mut self, cause: FatalCause, detail: String) -> (step: EditorStep)
        ensures
            final(self)@ == (EditorLoopView { path: old(self)@.path, phase: EditorPhase::Failed }),
            step@ == silent(EditorActionView::Terminate(FatalView { cause, detail: detail@ })),
    {
        self.advance(EditorPhase::Failed, EditorAction::Terminate(Fatal { cause, detail }))
    }

    /// Ends the loop because the event answers no pending action.
    fn out_of_turn(&mut self) -> (step: EditorStep)
        ensures
            final(self)@ == (EditorLoopView { path: old(self)@.path, phase: EditorPhase::Failed }),
            step@ == silent(
                EditorActionView::Terminate(
                    FatalView { cause: FatalCause::EditorProtocol, detail: out_of_turn_detail() },
                ),
            ),
    {
        self.fail(FatalCause::EditorProtocol, "event out of turn".to_owned())
    }

    /// Takes the outcome of the pending action and decides what comes next.
    /// An accepted session draws its identity from `ids`; nothing else
    /// touches `ids`.
    pub fn step(&mut self, ids: &mut EditorIdSource, event: EditorEvent) -> (step: EditorStep)
        ensures
            editor_next(old(self)@, old(ids)@, event@) == (EditorOutcome {
                state: final(self)@,
                issued: final(ids)@,
                step: step@,
            }),
    {
        match self.phase {
            EditorPhase::CheckingStale => match event {
                EditorEvent::Exists(true) => self.advance(
                    EditorPhase::RemovingStale,
                    EditorAction::RemoveFile { root: "/" },
                ),
                EditorEvent::Exists(false) => self.advance(
                    EditorPhase::Binding,
                    EditorAction::Bind,
                ),
                EditorEvent::Failed(detail) => self.fail(FatalCause::StaleCheck, detail),
                _ => self.out_of_turn(),
            },
            EditorPhase::RemovingStale => match event {
                EditorEvent::Removed => self.advance(EditorPhase::Binding, EditorAction::Bind),
                EditorEvent::Failed(detail) => self.fail(FatalCause::StaleRemove, detail),
                _ => self.out_of_turn(),
            },
            EditorPhase::Binding => match event {
                EditorEvent::Bound => {
                    let mut message = "Listening on UNIX socket: ".to_owned();
                    message.append(self.path.as_str());
                    self.phase = EditorPhase::Accepting;
                    EditorStep {
                        record: Some(Record { level: Level::Info, message }),
                        action: EditorAction::Accept,
                    }
                },
                EditorEvent::Failed(detail) => self.fail(FatalCause::EditorSetup, detail),
                _ => self.out_of_turn(),
            },
            EditorPhase::Accepting => match event {
                EditorEvent::Accepted => match ids.next_editor_id() {
                    Some(id) => {
                        let mut message = "Editor connection established (#".to_owned();
                        append_decimal(&mut message, id.0 as u64);
                        message.append(")");
                        EditorStep {
                            record: Some(Record { level: Level::Info, message }),
                            action: EditorAction::HandOffThenAccept(id),
                        }
                    },
                    None => self.fail(
                        FatalCause::EditorIdentities,
                        "editor identities exhausted".to_owned(),
                    ),
                },
                EditorEvent::Failed(detail) => self.fail(FatalCause::EditorAccept, detail),
                _ => self.out_of_turn(),
            },
            EditorPhase::Failed => self.out_of_turn(),
        }
    }
}

/// What a run has produced: the state and the number of identities issued
/// at its end, and the steps decided on the way.
#[verifier::ext_equal]
pub struct EditorRun {
    pub state: EditorLoopView,
    pub issued: nat,
    pub steps: Seq<EditorStepView>,
}

/// The run of the loop on `events`, answered one after the other, starting
/// in `state` with `issued` identities handed out before.
pub open spec fn editor_run(
    state: EditorLoopView,
    issued: nat,
    events: Seq<EditorEventView>,
) -> EditorRun
    decreases events.len(),
{
    if events.len() == 0 {
        EditorRun { state, issued, steps: Seq::empty() }
    } else {
        let before = editor_run(state, issued, events.drop_last());
        let last = editor_next(before.state, before.issued, events.last());
        EditorRun { state: last.state, issued: last.issued, steps: before.steps.push(last.step) }
    }
}

/// The run of a loop from its start: the first action is decided before any
/// event, so step `i` of the run answers event `i`.
pub open spec fn editor_run_from_start(
    path: Seq<char>,
    issued: nat,
    events: Seq<EditorEventView>,
) -> EditorRun {
    editor_run(editor_start(path).0, issued, events)
}

/// True when step `i` of a run asks for `action`.
pub open spec fn asks(run: EditorRun, i: int, action: EditorActionView) -> bool {
    0 <= i < run.steps.len() && run.steps[i].action == action
}

/// A stale entry is removed before the channel is bound, and nothing is
/// removed where no entry exists.
///
/// In every run from the start: the first action is the check. A removal is
/// asked for only in answer to a check that found an entry. A bind is asked
/// for only in answer to a check that found none, or in answer to the
/// removal that followed a check that found one. So a bind never comes
/// before the removal of an entry that exists, no removal is attempted
/// where none exists, and a check that finds none leads straight to the
/// bind, with no failure in between. The loop checks only before the first
/// event, removes only after the first, and binds only after the first or
/// the second.
pub proof fn stale_entry_goes_before_binding(
    path: Seq<char>,
    issued: nat,
    events: Seq<EditorEventView>,
)
    ensures
        editor_start(path).1 == silent(check_exists()),
        ({
            let run = editor_run_from_start(path, issued, events);
            let found = EditorEventView::Exists(true);
            let none = EditorEventView::Exists(false);
            let removed = EditorEventView::Removed;
            &&& run.steps.len() == events.len()
            &&& forall|i: int| #[trigger]
                asks(run, i, remove_file()) ==> i == 0 && events[0] == found
            &&& forall|i: int| #[trigger]
                asks(run, i, EditorActionView::Bind) ==> {
                    ||| i == 0 && events[0] == none
                    ||| i == 1 && events[0] == found && events[1] == removed && asks(
                        run,
                        0,
                        remove_file(),
                    )
                }
            &&& events.len() > 0 && events[0] == none ==> run.steps[0] == silent(
                EditorActionView::Bind,
            )
            &&& run.state.phase == EditorPhase::CheckingStale ==> events.len() == 0
            &&& run.state.phase == EditorPhase::RemovingStale ==> events.len() == 1 && events[0]
                == found
            &&& run.state.phase == EditorPhase::Binding ==> {
                ||| events.len() == 1 && events[0] == none
                ||| events.len() == 2 && events[0] == found && events[1] == removed
            }
        }),
    decreases events.len(),
{
    if events.len() > 0 {
        let shorter = events.drop_last();
        stale_entry_goes_before_binding(path, issued, shorter);
        let before = editor_run_from_start(path, issued, shorter);
        let run = editor_run_from_start(path, issued, events);
        assert forall|i: int| 0 <= i < shorter.len() implies run.steps[i] == before.steps[i]
            && events[i] == shorter[i] by {}
        assert forall|i: int| asks(run, i, remove_file()) implies i == 0 && events[0]
            == EditorEventView::Exists(true) by {
            if i < shorter.len() {
                assert(asks(before, i, remove_file()));
            }
        }
        assert forall|i: int| asks(run, i, EditorActionView::Bind) implies (i == 0 && events[0]
            == EditorEventView::Exists(false)) || (i == 1 && events[0] == EditorEventView::Exists(
            true,
        ) && events[1] == EditorEventView::Removed && asks(run, 0, remove_file())) by {
            if i < shorter.len() {
                assert(asks(before, i, EditorActionView::Bind));
                assert(asks(before, 0, remove_file()) ==> asks(run, 0, remove_file()));
            }
        }
    }
}

/// The identity under which step `i` of a run hands a session over, if that
/// step hands one over.
pub open spec fn handed_over(run: EditorRun, i: int) -> Option<EditorId> {
    if 0 <= i < run.steps.len() {
        match run.steps[i].action {
            EditorActionView::HandOffThenAccept(id) => Some(id),
            _ => None,
        }
    } else {
        None
    }
}

/// Identities follow the order of acceptance: in any run, from any state,
/// the identities of the sessions handed over are strictly increasing, so
/// no two sessions share one. Each lies between the number issued before
/// the run and the number issued at its end.
pub proof fn identities_follow_acceptance(
    state: EditorLoopView,
    issued: nat,
    events: Seq<EditorEventView>,
)
    requires
        issued <= usize::MAX,
    ensures
        ({
            let run = editor_run(state, issued, events);
            &&& run.steps.len() == events.len()
            &&& issued <= run.issued <= usize::MAX
            &&& forall|i: int| #[trigger]
                handed_over(run, i) matches Some(id) ==> issued <= id.0 < run.issued
            &&& forall|i: int, j: int|
                #![trigger handed_over(run, i), handed_over(run, j)]
                handed_over(run, i) matches Some(first) ==> (handed_over(run, j) matches Some(
                    second,
                ) ==> (i < j ==> first.0 < second.0))
        }),
    decreases events.len(),
{
    if events.len() > 0 {
        let shorter = events.drop_last();
        identities_follow_acceptance(state, issued, shorter);
        let before = editor_run(state, issued, shorter);
        let run = editor_run(state, issued, events);
        assert forall|i: int| 0 <= i < shorter.len() implies handed_over(run, i) == handed_over(
            before,
            i,
        ) by {}
    }
}

/// Every accepted session is handed over with the next identity: a loop
/// that waits for a session answers each accepted one with a hand-over
/// under the next identity and waits again. No event stands between two
/// hand-overs, so none waits for an earlier session to end.
pub proof fn every_session_is_handed_over(state: EditorLoopView, issued: nat, sessions: nat)
    requires
        state.phase == EditorPhase::Accepting,
        issued + sessions <= usize::MAX,
    ensures
        ({
            let run = editor_run(
                state,
                issued,
                Seq::new(sessions, |i: int| EditorEventView::Accepted),
            );
            &&& run.state == state
            &&& run.issued == issued + sessions
            &&& run.steps.len() == sessions
            &&& forall|i: int|
                0 <= i < sessions ==> #[trigger] run.steps[i] == announce(
                    established_message(EditorId((issued + i) as usize)),
                    EditorActionView::HandOffThenAccept(EditorId((issued + i) as usize)),
                )
        }),
    decreases sessions,
{
    if sessions > 0 {
        let shorter = (sessions - 1) as nat;
        every_session_is_handed_over(state, issued, shorter);
        let events = Seq::new(sessions, |i: int| EditorEventView::Accepted);
        assert(events.drop_last() =~= Seq::new(shorter, |i: int| EditorEventView::Accepted));
    }
}

/// Failure is final: whatever made the loop fail, it answers every further
/// event by terminating, and issues no identity any more.
pub proof fn nothing_follows_a_failure(
    state: EditorLoopView,
    issued: nat,
    events: Seq<EditorEventView>,
)
    requires
        state.phase == EditorPhase::Failed,
    ensures
        editor_run(state, issued, events).state == state,
        editor_run(state, issued, events).issued == issued,
        editor_run(state, issued, events).steps.len() == events.len(),
        forall|i: int|
            0 <= i < events.len() ==> #[trigger] editor_run(state, issued, events).steps[i]
                == silent(
                EditorActionView::Terminate(
                    FatalView { cause: FatalCause::EditorProtocol, detail: out_of_turn_detail() },
                ),
            ),
    decreases events.len(),
{
    if events.len() > 0 {
        nothing_follows_a_failure(state, issued, events.drop_last());
    }
}

/// A failed check, removal, bind or accept ends the loop at once, with the
/// error as the detail of the diagnostic, and issues no identity.
pub proof fn every_failure_is_fatal(state: EditorLoopView, issued: nat, detail: Seq<char>)
    requires
        state.phase != EditorPhase::Failed,
    ensures
        ({
            let next = editor_next(state, issued, EditorEventView::Failed(detail));
            let cause = match state.phase {
                EditorPhase::CheckingStale => FatalCause::StaleCheck,
                EditorPhase::RemovingStale => FatalCause::StaleRemove,
                EditorPhase::Binding => FatalCause::EditorSetup,
                _ => FatalCause::EditorAccept,
            };
            &&& next.state.phase == EditorPhase::Failed
            &&& next.issued == issued
            &&& next.step == silent(EditorActionView::Terminate(FatalView { cause, detail }))
        }),
{
}

} // verus!
