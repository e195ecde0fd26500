//! The once-only startup guard of the log listener.

use vstd::prelude::*;

verus! {

/// The two states of the listener. `Running` is never left.
#[derive(Clone, Copy, Debug, PartialEq, Eq, Structural)]
pub enum ListenerState {
    NotStarted,
    Running,
}

/// What a caller that asked for the listener has to do.
#[derive(Clone, Copy, Debug, PartialEq, Eq, Structural)]
pub enum StartAction {
    /// The caller won the guard and must launch the listener.
    Launch,
    /// The listener was launched before; nothing is to be done.
    Skip,
}

/// One check-and-set step on the started flag: the flag afterwards, and
/// whether the caller was the one to set it.
pub open spec fn guard_step(started: bool) -> (bool, bool) {
    (true, !started)
}

/// How many of `calls` consecutive check-and-set steps are granted when the
/// flag holds `started` before the first of them.
pub open spec fn grants(started: bool, calls: nat) -> nat
    decreases calls,
{
    if calls == 0 {
        0
    } else {
        let step = guard_step(started);
        let granted: nat = if step.1 { 1 } else { 0 };
        granted + grants(step.0, (calls - 1) as nat)
    }
}

/// The started flag. Whoever shares it wraps it in a lock, so that
/// `try_start` runs as one indivisible step.
pub struct StartupGuard {
    started: bool,
}

impl StartupGuard {
    /// Whether the listener has been launched.
    pub closed spec fn is_started(&self) -> bool {
        self.started
    }

    /// The listener state that the flag stands for.
    pub open spec fn state(&self) -> ListenerState {
        if self.is_started() {
            ListenerState::Running
        } else {
            ListenerState::NotStarted
        }
    }

    /// A guard whose listener has not been launched.
    pub fn new() -> (guard: Self)
        ensures
            !guard.is_started(),
    {
        StartupGuard { started: false }
    }

    /// Checks and sets the flag. Returns true to exactly the first caller.
    pub fn try_start(&mut self) -> (granted: bool)
        ensures
            final(self).is_started() == guard_step(old(self).is_started()).0,
            granted == guard_step(old(self).is_started()).1,
    {
        if self.started {
            false
        } else {
            self.started = true;
            true
        }
    }

    /// Reads the flag.
    pub fn started(&self) -> (flag: bool)
        ensures
            flag == self.is_started(),
    {
        self.started
    }

    /// Reads the listener state.
    pub fn listener_state(&self) -> (state: ListenerState)
        ensures
            state == self.state(),
    {
        if self.started {
            ListenerState::Running
        } else {
            ListenerState::NotStarted
        }
    }
}

/// Takes the guard and says whether the caller has to launch the listener.
pub fn start_log_server_impl(guard: &mut StartupGuard) -> (action: StartAction)
    ensures
        final(guard).is_started(),
        action == if old(guard).is_started() {
            StartAction::Skip
        } else {
            StartAction::Launch
        },
{
    if guard.try_start() {
        StartAction::Launch
    } else {
        StartAction::Skip
    }
}

/// The start command. It succeeds whether or not a listener is launched by it.
pub fn start_log_server(guard: &mut StartupGuard) -> (outcome: (StartAction, Result<(), String>))
    ensures
        final(guard).is_started(),
        outcome.1 is Ok,
        outcome.0 == if old(guard).is_started() {
            StartAction::Skip
        } else {
            StartAction::Launch
        },
{
    let action = start_log_server_impl(guard);
    (action, Ok(()))
}

/// Once the flag is set, no later step is granted.
pub proof fn lemma_started_grants_nothing(calls: nat)
    ensures
        grants(true, calls) == 0,
    decreases calls,
{
    if calls > 0 {
        lemma_started_grants_nothing((calls - 1) as nat);
    }
}

/// Any run of one or more start attempts on a fresh flag launches exactly one
/// listener, and it is the first attempt that does.
pub proof fn lemma_exactly_one_launch(calls: nat)
    requires
        calls >= 1,
    ensures
        grants(false, calls) == 1,
        guard_step(false) == (true, true),
        guard_step(true) == (true, false),
{
    lemma_started_grants_nothing((calls - 1) as nat);
}

} // verus!
