use vstd::prelude::*;

use crate::error::AttachError;
use crate::finder::{find_background_container, spec_find_background, TopLevelWindow};
use crate::handle::WindowHandle;

verus! {

/// Milliseconds the shell is given to acknowledge the background-layer
/// activation signal before the attempt proceeds without it.  A hung shell
/// must not stall application startup, and the container frequently already
/// exists from a prior attach.
pub const ACTIVATION_TIMEOUT_MS: u32 = 1000;

/// Where a single attachment attempt stands.  The attempt is linear: each
/// step either advances to the next or aborts, and a terminal state is never
/// left.  There is no retry state: shell window identities change across
/// desktop-session events, so a fresh attempt would have to start over from
/// `LocateShell` anyway.
#[derive(Clone, Copy, PartialEq, Eq, Structural, Debug)]
pub enum AttachState {
    /// About to look up the shell's root container window by its class name.
    LocateShell,
    /// About to send the shell root the background-layer activation signal.
    ActivateBackgroundLayer { shell: WindowHandle },
    /// About to enumerate top-level windows and apply the adjacency rule.
    FindBackgroundContainer,
    /// About to reparent the application window into the background container.
    Reparent { container: WindowHandle },
    /// About to strip the application window's taskbar presence.
    SetStyle { container: WindowHandle },
    /// The window is embedded in the background container, restyled.
    Done { container: WindowHandle },
    /// The attempt was given up; the application window stays an ordinary
    /// top-level window, which is the safe default.
    Aborted { reason: AttachError },
}

/// The outcome of the one OS interaction the orchestrator is waiting on,
/// reported back by the embedding application.
#[allow(inconsistent_fields)]
pub enum AttachEvent {
    /// Outcome of the shell-root class-name lookup.
    ShellRoot { outcome: Result<WindowHandle, AttachError> },
    /// Outcome of the bounded-timeout activation signal.
    ActivationSignal { outcome: Result<(), AttachError> },
    /// Outcome of the top-level window enumeration, in Z order.
    Enumeration { outcome: Result<Vec<TopLevelWindow>, AttachError> },
    /// Outcome of the reparenting call.
    ReparentDone { outcome: Result<(), AttachError> },
    /// Outcome of the style read-modify-write.
    RestyleDone { outcome: Result<(), AttachError> },
}

/// The one OS interaction the embedding application must perform next, from
/// the thread that holds window-manager affinity.
#[derive(Clone, Copy, PartialEq, Eq, Structural, Debug)]
pub enum AttachAction {
    /// Look up the shell root container window by its fixed class name.
    QueryShellRoot,
    /// Send `target` the activation message that makes the shell materialize
    /// the background container, waiting at most `timeout_ms` milliseconds.
    SendActivationSignal { target: WindowHandle, timeout_ms: u32 },
    /// Enumerate the top-level windows in current Z order, recording for each
    /// whether it has an immediate child of the icon-view class.
    EnumerateTopLevel,
    /// Change `child`'s parent to `new_parent`.
    ReparentWindow { child: WindowHandle, new_parent: WindowHandle },
    /// Read `window`'s extended style, pass it through
    /// `crate::style::embedded_style`, and write the result back.
    ApplyEmbeddedStyle { window: WindowHandle },
    /// The attempt is over; nothing further may be done to the window.
    Stop,
}

/// Whether `e` reports on the interaction that state `s` is waiting for.
/// Terminal states wait for nothing.
pub open spec fn event_answers(s: AttachState, e: AttachEvent) -> bool {
    match (s, e) {
        (AttachState::LocateShell, AttachEvent::ShellRoot { .. }) => true,
        (AttachState::ActivateBackgroundLayer { .. }, AttachEvent::ActivationSignal { .. }) => true,
        (AttachState::FindBackgroundContainer, AttachEvent::Enumeration { .. }) => true,
        (AttachState::Reparent { .. }, AttachEvent::ReparentDone { .. }) => true,
        (AttachState::SetStyle { .. }, AttachEvent::RestyleDone { .. }) => true,
        _ => false,
    }
}

/// The transition relation of the attempt.  Every failure is absorbed into
/// `Aborted`; the one deliberate exception is a timed-out activation signal,
/// after which the attempt proceeds to enumerate anyway, since the background
/// container may already exist from a prior attach.
pub open spec fn spec_step(s: AttachState, e: AttachEvent) -> AttachState {
    match (s, e) {
        (AttachState::LocateShell, AttachEvent::ShellRoot { outcome }) => match outcome {
            Ok(shell) => if shell.is_valid() {
                AttachState::ActivateBackgroundLayer { shell }
            } else {
                AttachState::Aborted { reason: AttachError::NotFound }
            },
            Err(reason) => AttachState::Aborted { reason },
        },
        (
            AttachState::ActivateBackgroundLayer { .. },
            AttachEvent::ActivationSignal { outcome },
        ) => match outcome {
            Ok(_) => AttachState::FindBackgroundContainer,
            Err(AttachError::Timeout) => AttachState::FindBackgroundContainer,
            Err(reason) => AttachState::Aborted { reason },
        },
        (AttachState::FindBackgroundContainer, AttachEvent::Enumeration { outcome }) => match outcome {
            Ok(ws) => match spec_find_background(ws@) {
                Ok(container) => AttachState::Reparent { container },
                Err(reason) => AttachState::Aborted { reason },
            },
            Err(reason) => AttachState::Aborted { reason },
        },
        (AttachState::Reparent { container }, AttachEvent::ReparentDone { outcome }) => match outcome {
            Ok(_) => AttachState::SetStyle { container },
            Err(reason) => AttachState::Aborted { reason },
        },
        (AttachState::SetStyle { container }, AttachEvent::RestyleDone { outcome }) => match outcome {
            Ok(_) => AttachState::Done { container },
            Err(reason) => AttachState::Aborted { reason },
        },
        _ => AttachState::Aborted { reason: AttachError::OsCallFailed },
    }
}

/// The interaction that state `s` asks of the embedding application, for an
/// attempt on application window `window`.
pub open spec fn spec_action(s: AttachState, window: WindowHandle) -> AttachAction {
    match s {
        AttachState::LocateShell => AttachAction::QueryShellRoot,
        AttachState::ActivateBackgroundLayer { shell } => AttachAction::SendActivationSignal {
            target: shell,
            timeout_ms: ACTIVATION_TIMEOUT_MS,
        },
        AttachState::FindBackgroundContainer => AttachAction::EnumerateTopLevel,
        AttachState::Reparent { container } => AttachAction::ReparentWindow {
            child: window,
            new_parent: container,
        },
        AttachState::SetStyle { .. } => AttachAction::ApplyEmbeddedStyle { window },
        AttachState::Done { .. } => AttachAction::Stop,
        AttachState::Aborted { .. } => AttachAction::Stop,
    }
}

/// Whether an action touches the application window at all.
pub open spec fn action_mutates(a: AttachAction) -> bool {
    a is ReparentWindow || a is ApplyEmbeddedStyle
}

/// One attachment attempt for one application window.
///
/// The attempt runs exactly once per process lifetime, synchronously, at
/// setup time, and every call that drives it must be made from the thread
/// that holds window-manager affinity.  The embedding application repeatedly
/// reads `action()`, performs the OS interaction it names, and feeds the
/// outcome to `step()` until `finished()`.
pub struct DesktopAttachment {
    /// The application's own window, the one to embed.
    pub window: WindowHandle,
    /// Where the attempt stands.
    pub state: AttachState,
}

impl DesktopAttachment {
    /// Starts a fresh attempt for `window`.
    pub fn new(window: WindowHandle) -> (a: DesktopAttachment)
        ensures
            a.window == window,
            a.state == AttachState::LocateShell,
    {
        DesktopAttachment { window, state: AttachState::LocateShell }
    }

    /// The OS interaction to perform next.
    pub fn action(&self) -> (act: AttachAction)
        ensures
            act == spec_action(self.state, self.window),
    {
        match self.state {
            AttachState::LocateShell => AttachAction::QueryShellRoot,
            AttachState::ActivateBackgroundLayer { shell } => AttachAction::SendActivationSignal {
                target: shell,
                timeout_ms: ACTIVATION_TIMEOUT_MS,
            },
            AttachState::FindBackgroundContainer => AttachAction::EnumerateTopLevel,
            AttachState::Reparent { container } => AttachAction::ReparentWindow {
                child: self.window,
                new_parent: container,
            },
            AttachState::SetStyle { .. } => AttachAction::ApplyEmbeddedStyle {
                window: self.window,
            },
            AttachState::Done { .. } => AttachAction::Stop,
            AttachState::Aborted { .. } => AttachAction::Stop,
        }
    }

    /// Whether the attempt has reached a terminal state.
    pub fn finished(&self) -> (b: bool)
        ensures
            b == (self.state is Done || self.state is Aborted),
    {
        match self.state {
            AttachState::Done { .. } => true,
            AttachState::Aborted { .. } => true,
            _ => false,
        }
    }

    /// Feeds back the outcome of the interaction that `action()` asked for,
    /// advancing the attempt by one transition.
    pub fn step(&mut self, event: AttachEvent)
        requires
            event_answers(old(self).state, event),
        ensures
            final(self).window == old(self).window,
            final(self).state == spec_step(old(self).state, event),
    {
        let s = self.state;
        self.state = match (s, event) {
            (AttachState::LocateShell, AttachEvent::ShellRoot { outcome }) => match outcome {
                Ok(shell) => {
                    if shell.valid() {
                        AttachState::ActivateBackgroundLayer { shell }
                    } else {
                        AttachState::Aborted { reason: AttachError::NotFound }
                    }
                },
                Err(reason) => AttachState::Aborted { reason },
            },
            (
                AttachState::ActivateBackgroundLayer { .. },
                AttachEvent::ActivationSignal { outcome },
            ) => match outcome {
                Ok(_) => AttachState::FindBackgroundContainer,
                Err(AttachError::Timeout) => AttachState::FindBackgroundContainer,
                Err(reason) => AttachState::Aborted { reason },
            },
            (AttachState::FindBackgroundContainer, AttachEvent::Enumeration { outcome }) => match outcome {
                Ok(ws) => match find_background_container(&ws) {
                    Ok(container) => AttachState::Reparent { container },
                    Err(reason) => AttachState::Aborted { reason },
                },
                Err(reason) => AttachState::Aborted { reason },
            },
            (AttachState::Reparent { container }, AttachEvent::ReparentDone { outcome }) => match outcome {
                Ok(_) => AttachState::SetStyle { container },
                Err(reason) => AttachState::Aborted { reason },
            },
            (AttachState::SetStyle { container }, AttachEvent::RestyleDone { outcome }) => match outcome {
                Ok(_) => AttachState::Done { container },
                Err(reason) => AttachState::Aborted { reason },
            },
            _ => AttachState::Aborted { reason: AttachError::OsCallFailed },
        };
    }
}

/// The state after feeding the events of `evs` one by one, starting at `s`.
pub open spec fn spec_run(s: AttachState, evs: Seq<AttachEvent>) -> AttachState
    decreases evs.len(),
{
    if evs.len() == 0 {
        s
    } else {
        spec_run(spec_step(s, evs[0]), evs.drop_first())
    }
}

/// A trace is well formed when every event answers the state it meets.
pub open spec fn wf_trace(s: AttachState, evs: Seq<AttachEvent>) -> bool
    decreases evs.len(),
{
    evs.len() == 0 || (event_answers(s, evs[0]) && wf_trace(spec_step(s, evs[0]), evs.drop_first()))
}

/// Whether `e` reports a `NotFound` failure.
pub open spec fn reports_not_found(e: AttachEvent) -> bool {
    match e {
        AttachEvent::ShellRoot { outcome } => outcome matches Err(AttachError::NotFound),
        AttachEvent::ActivationSignal { outcome } => outcome matches Err(AttachError::NotFound),
        AttachEvent::Enumeration { outcome } => outcome matches Err(AttachError::NotFound),
        AttachEvent::ReparentDone { outcome } => outcome matches Err(AttachError::NotFound),
        AttachEvent::RestyleDone { outcome } => outcome matches Err(AttachError::NotFound),
    }
}

/// A reparent is commanded exactly when the enumeration pass produced a
/// background container, and the commanded parent is exactly the container
/// the adjacency rule selected.
pub proof fn lemma_reparent_iff_container_found(s: AttachState, e: AttachEvent)
    ensures
        (spec_step(s, e) is Reparent) <==> (s is FindBackgroundContainer && (e matches
        AttachEvent::Enumeration { outcome: Ok(ws) } && spec_find_background(ws@) is Ok)),
        spec_step(s, e) matches AttachState::Reparent { container } ==> s
            is FindBackgroundContainer && (e matches AttachEvent::Enumeration { outcome: Ok(ws) }
            && spec_find_background(ws@) == Ok::<WindowHandle, AttachError>(container)),
{
}

/// A restyle is commanded exactly when the reparenting call succeeded; a
/// reparent failure aborts the attempt before any style is touched.
pub proof fn lemma_restyle_iff_reparent_ok(s: AttachState, e: AttachEvent)
    ensures
        (spec_step(s, e) is SetStyle) <==> (s is Reparent && (e matches AttachEvent::ReparentDone {
            outcome,
        } && outcome is Ok)),
{
}

/// Fail-silence of a single transition: a `NotFound` outcome at any step
/// drives the attempt to `Aborted`, never to a panic or a stuck state.
pub proof fn lemma_not_found_aborts(s: AttachState, e: AttachEvent)
    requires
        reports_not_found(e),
    ensures
        spec_step(s, e) is Aborted,
{
}

/// A timed-out activation signal does not abort the attempt: the machine
/// proceeds to enumerate anyway, since the background container may already
/// exist from a prior attach.
pub proof fn lemma_timeout_proceeds(shell: WindowHandle)
    ensures
        spec_step(
            AttachState::ActivateBackgroundLayer { shell },
            AttachEvent::ActivationSignal { outcome: Err(AttachError::Timeout) },
        ) == AttachState::FindBackgroundContainer,
{
}

/// Terminal states are final: they answer no event, and the only action they
/// ever command is `Stop`.
pub proof fn lemma_terminal_commands_nothing(s: AttachState, e: AttachEvent, w: WindowHandle)
    requires
        s is Done || s is Aborted,
    ensures
        !event_answers(s, e),
        spec_action(s, w) == AttachAction::Stop,
{
}

/// The window is only ever touched once a background container is in hand:
/// every mutating action is commanded from the reparent or restyle state.
pub proof fn lemma_mutation_needs_container(s: AttachState, w: WindowHandle)
    ensures
        action_mutates(spec_action(s, w)) ==> (s is Reparent || s is SetStyle),
{
}

/// Fail-silence of a whole run: a well-formed run that meets a `NotFound`
/// outcome ends `Aborted`, and the aborting event is necessarily the last
/// one, so nothing further is done to the application window.
pub proof fn lemma_run_not_found_aborts(s: AttachState, evs: Seq<AttachEvent>, k: int)
    requires
        wf_trace(s, evs),
        0 <= k < evs.len(),
        reports_not_found(evs[k]),
    ensures
        spec_run(s, evs) is Aborted,
        k == evs.len() - 1,
    decreases evs.len(),
{
    let s1 = spec_step(s, evs[0]);
    if k == 0 {
        lemma_not_found_aborts(s, evs[0]);
        if evs.len() > 1 {
            assert(wf_trace(s1, evs.drop_first()));
            assert(!event_answers(s1, evs.drop_first()[0]));
            assert(false);
        }
        assert(spec_run(s1, evs.drop_first()) == s1);
    } else {
        assert(evs.drop_first()[k - 1] == evs[k]);
        lemma_run_not_found_aborts(s1, evs.drop_first(), k - 1);
    }
}

} // verus!
