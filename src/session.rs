//! The privileged-execution pipeline after a decision, as a state machine.
//!
//! The caller performs each effect the session asks for (reading and validating a
//! credential, changing the process identity, launching and waiting for the child)
//! and hands back what came of it; the session decides what comes next.
use vstd::prelude::*;
use crate::identity::{User, copy_ids};
use crate::policy::{Decision, UserMode};

verus! {

/// Credential attempts allowed when no other bound is configured.
pub const DEFAULT_MAX_ATTEMPTS: u32 = 3;

/// The exit code of a pipeline that failed before the child ran to completion.
pub const FAILURE_EXIT_CODE: i32 = 1;

/// Why authentication failed.
#[derive(Debug, Clone, Copy, PartialEq, Eq, Structural)]
pub enum AuthError {
    /// Every allowed credential attempt was rejected.
    ExhaustedAttempts,
    /// The credential was not entered in time.
    Timeout,
}

/// Why the identity change failed.
#[derive(Debug, Clone, Copy, PartialEq, Eq, Structural)]
pub enum TransitionError {
    /// The target account could not be resolved.
    UnknownTarget,
    /// An identity-changing call failed with this error number.
    SyscallFailed(i32),
}

/// Why the child could not be run to completion.
#[derive(Debug, Clone, Copy, PartialEq, Eq, Structural)]
pub enum DispatchError {
    SpawnFailed,
    ChildWaitFailed,
}

/// Why the pipeline ended without running the child to completion.
#[derive(Debug, Clone, Copy, PartialEq, Eq, Structural)]
pub enum DoitError {
    /// The policy does not grant the request.
    Denied,
    /// The pipeline was interrupted, or was handed an event it did not ask for.
    Aborted,
    Auth(AuthError),
    Transition(TransitionError),
    Dispatch(DispatchError),
}

/// Where the pipeline stands.
#[derive(Debug, Clone, Copy, PartialEq, Eq, Structural)]
pub enum Stage {
    /// Waiting for a credential; `failures` attempts were rejected so far.
    Authenticating { failures: u32 },
    /// Setting the supplementary groups.
    SettingGroups,
    /// Setting the primary group id.
    SettingGroup,
    /// Setting the user id.
    SettingUser,
    /// Starting the child.
    Launching,
    /// Waiting for the child.
    Running,
    /// The child exited with this code.
    Completed(i32),
    /// The pipeline failed.
    Failed(DoitError),
}

/// What the caller reports back.
#[derive(Debug, Clone, Copy, PartialEq, Eq, Structural)]
pub enum Event {
    CredentialAccepted,
    CredentialRejected,
    CredentialTimedOut,
    /// The identity change asked for succeeded.
    StepDone,
    /// The identity change asked for failed with this error number.
    StepFailed(i32),
    Spawned,
    SpawnFailed,
    Exited(i32),
    WaitFailed,
    /// A termination signal arrived.
    Interrupted,
}

/// What the session asks the caller to do next.
#[derive(Debug)]
pub enum Effect {
    /// Read a credential from the terminal and have it validated.
    ReadCredential,
    /// Set the supplementary groups to these ids.
    SetGroups(Vec<u32>),
    /// Set the primary group id.
    SetGroup(u32),
    /// Set the user id.
    SetUser(u32),
    /// Start the child.
    Launch,
    /// Wait for the child.
    Wait,
    /// End the process with this exit code.
    Exit(i32),
}

/// The kind of an effect.
#[derive(Debug, Clone, Copy, PartialEq, Eq, Structural)]
pub enum Step {
    ReadCredential,
    SetGroups,
    SetGroup,
    SetUser,
    Launch,
    Wait,
    Exit(i32),
}

impl Effect {
    /// The kind of this effect.
    pub open spec fn step(&self) -> Step {
        match self {
            Effect::ReadCredential => Step::ReadCredential,
            Effect::SetGroups(_) => Step::SetGroups,
            Effect::SetGroup(_) => Step::SetGroup,
            Effect::SetUser(_) => Step::SetUser,
            Effect::Launch => Step::Launch,
            Effect::Wait => Step::Wait,
            Effect::Exit(c) => Step::Exit(*c),
        }
    }
}

/// The stage a session starts in, for a decision and a bound on credential attempts.
pub open spec fn initial_stage(decision: &Decision, max_attempts: u32) -> Stage {
    if !decision.granted {
        Stage::Failed(DoitError::Denied)
    } else if decision.auth_mode == Some(UserMode::NoPassword) {
        Stage::SettingGroups
    } else if max_attempts == 0 {
        Stage::Failed(DoitError::Auth(AuthError::ExhaustedAttempts))
    } else {
        Stage::Authenticating { failures: 0 }
    }
}

/// The identity-changing stages after a successful step, or a failure otherwise.
pub open spec fn after_identity_step(next: Stage, e: Event) -> Stage {
    match e {
        Event::StepDone => next,
        Event::StepFailed(code) => Stage::Failed(DoitError::Transition(TransitionError::SyscallFailed(code))),
        _ => Stage::Failed(DoitError::Aborted),
    }
}

/// The stage after `e` arrives in `stage`.
pub open spec fn next_stage(stage: Stage, max_attempts: u32, e: Event) -> Stage {
    match stage {
        Stage::Authenticating { failures } => match e {
            Event::CredentialAccepted => Stage::SettingGroups,
            Event::CredentialRejected => if failures + 1 >= max_attempts {
                Stage::Failed(DoitError::Auth(AuthError::ExhaustedAttempts))
            } else {
                Stage::Authenticating { failures: (failures + 1) as u32 }
            },
            Event::CredentialTimedOut => Stage::Failed(DoitError::Auth(AuthError::Timeout)),
            _ => Stage::Failed(DoitError::Aborted),
        },
        Stage::SettingGroups => after_identity_step(Stage::SettingGroup, e),
        Stage::SettingGroup => after_identity_step(Stage::SettingUser, e),
        Stage::SettingUser => after_identity_step(Stage::Launching, e),
        Stage::Launching => match e {
            Event::Spawned => Stage::Running,
            Event::SpawnFailed => Stage::Failed(DoitError::Dispatch(DispatchError::SpawnFailed)),
            _ => Stage::Failed(DoitError::Aborted),
        },
        Stage::Running => match e {
            Event::Exited(code) => Stage::Completed(code),
            Event::WaitFailed => Stage::Failed(DoitError::Dispatch(DispatchError::ChildWaitFailed)),
            // After the identity change a signal is the child's concern.
            Event::Interrupted => Stage::Running,
            _ => Stage::Failed(DoitError::Aborted),
        },
        Stage::Completed(_) => stage,
        Stage::Failed(_) => stage,
    }
}

/// The kind of effect a stage asks for.
pub open spec fn pending(stage: Stage) -> Step {
    match stage {
        Stage::Authenticating { .. } => Step::ReadCredential,
        Stage::SettingGroups => Step::SetGroups,
        Stage::SettingGroup => Step::SetGroup,
        Stage::SettingUser => Step::SetUser,
        Stage::Launching => Step::Launch,
        Stage::Running => Step::Wait,
        Stage::Completed(code) => Step::Exit(code),
        Stage::Failed(_) => Step::Exit(FAILURE_EXIT_CODE),
    }
}

/// The stage after a sequence of events.
pub open spec fn run(stage: Stage, max_attempts: u32, events: Seq<Event>) -> Stage
    decreases events.len(),
{
    if events.len() == 0 {
        stage
    } else {
        run(next_stage(stage, max_attempts, events[0]), max_attempts, events.drop_first())
    }
}

/// The effects asked for along a sequence of events, the first before any event.
pub open spec fn trace(stage: Stage, max_attempts: u32, events: Seq<Event>) -> Seq<Step>
    decreases events.len(),
{
    if events.len() == 0 {
        seq![pending(stage)]
    } else {
        seq![pending(stage)] + trace(next_stage(stage, max_attempts, events[0]), max_attempts, events.drop_first())
    }
}

/// A step that acts with, or towards, the target's privileges.
pub open spec fn is_privileged(s: Step) -> bool {
    s is SetGroups || s is SetGroup || s is SetUser || s is Launch || s is Wait
}

/// One request's pipeline after the policy decision.
#[derive(Debug)]
pub struct Session {
    pub stage: Stage,
    pub max_attempts: u32,
    /// The target's supplementary groups.
    pub groups: Vec<u32>,
    /// The target's primary group id.
    pub group_id: u32,
    /// The target's user id.
    pub user_id: u32,
}

impl Session {
    /// Starts the pipeline for `decision`, acting as `target`, allowing
    /// `max_attempts` credential attempts.
    pub fn new(decision: &Decision, target: &User, max_attempts: u32) -> (r: Session)
        ensures
            r.stage == initial_stage(decision, max_attempts),
            r.max_attempts == max_attempts,
            r.groups@ == target.groups@,
            r.group_id == target.group_id,
            r.user_id == target.user_id,
    {
        let stage = if !decision.granted {
            Stage::Failed(DoitError::Denied)
        } else if matches!(decision.auth_mode, Some(UserMode::NoPassword)) {
            Stage::SettingGroups
        } else if max_attempts == 0 {
            Stage::Failed(DoitError::Auth(AuthError::ExhaustedAttempts))
        } else {
            Stage::Authenticating { failures: 0 }
        };
        Session {
            stage,
            max_attempts,
            groups: copy_ids(&target.groups),
            group_id: target.group_id,
            user_id: target.user_id,
        }
    }

    /// What the caller must do next.
    pub fn effect(&self) -> (r: Effect)
        ensures
            r.step() == pending(self.stage),
            r matches Effect::SetGroups(g) ==> g@ == self.groups@,
            r matches Effect::SetGroup(g) ==> g == self.group_id,
            r matches Effect::SetUser(u) ==> u == self.user_id,
    {
        match self.stage {
            Stage::Authenticating { .. } => Effect::ReadCredential,
            Stage::SettingGroups => Effect::SetGroups(copy_ids(&self.groups)),
            Stage::SettingGroup => Effect::SetGroup(self.group_id),
            Stage::SettingUser => Effect::SetUser(self.user_id),
            Stage::Launching => Effect::Launch,
            Stage::Running => Effect::Wait,
            Stage::Completed(code) => Effect::Exit(code),
            Stage::Failed(_) => Effect::Exit(FAILURE_EXIT_CODE),
        }
    }

    /// Takes in what came of the last effect.
    pub fn advance(&mut self, event: Event)
        ensures
            final(self).stage == next_stage(old(self).stage, old(self).max_attempts, event),
            final(self).max_attempts == old(self).max_attempts,
            final(self).groups@ == old(self).groups@,
            final(self).group_id == old(self).group_id,
            final(self).user_id == old(self).user_id,
    {
        let next = match self.stage {
            Stage::Authenticating { failures } => match event {
                Event::CredentialAccepted => Stage::SettingGroups,
                Event::CredentialRejected => if self.max_attempts == 0 || failures >= self.max_attempts - 1 {
                    Stage::Failed(DoitError::Auth(AuthError::ExhaustedAttempts))
                } else {
                    Stage::Authenticating { failures: failures + 1 }
                },
                Event::CredentialTimedOut => Stage::Failed(DoitError::Auth(AuthError::Timeout)),
                _ => Stage::Failed(DoitError::Aborted),
            },
            Stage::SettingGroups => identity_step(Stage::SettingGroup, event),
            Stage::SettingGroup => identity_step(Stage::SettingUser, event),
            Stage::SettingUser => identity_step(Stage::Launching, event),
            Stage::Launching => match event {
                Event::Spawned => Stage::Running,
                Event::SpawnFailed => Stage::Failed(DoitError::Dispatch(DispatchError::SpawnFailed)),
                _ => Stage::Failed(DoitError::Aborted),
            },
            Stage::Running => match event {
                Event::Exited(code) => Stage::Completed(code),
                Event::WaitFailed => Stage::Failed(DoitError::Dispatch(DispatchError::ChildWaitFailed)),
                Event::Interrupted => Stage::Running,
                _ => Stage::Failed(DoitError::Aborted),
            },
            Stage::Completed(code) => Stage::Completed(code),
            Stage::Failed(e) => Stage::Failed(e),
        };
        self.stage = next;
    }

    /// The pipeline has ended.
    pub fn is_finished(&self) -> (r: bool)
        ensures
            r == (self.stage is Completed || self.stage is Failed),
    {
        matches!(self.stage, Stage::Completed(_) | Stage::Failed(_))
    }
}

/// The stage after an identity change was reported.
fn identity_step(next: Stage, e: Event) -> (r: Stage)
    ensures
        r == after_identity_step(next, e),
{
    match e {
        Event::StepDone => next,
        Event::StepFailed(code) => Stage::Failed(DoitError::Transition(TransitionError::SyscallFailed(code))),
        _ => Stage::Failed(DoitError::Aborted),
    }
}

proof fn lemma_trace_len(stage: Stage, max_attempts: u32, events: Seq<Event>)
    ensures
        trace(stage, max_attempts, events).len() == events.len() + 1,
    decreases events.len(),
{
    if events.len() > 0 {
        lemma_trace_len(next_stage(stage, max_attempts, events[0]), max_attempts, events.drop_first());
    }
}

/// A pipeline that has ended stays where it is and only asks to exit.
pub proof fn lemma_end_is_final(stage: Stage, max_attempts: u32, events: Seq<Event>)
    requires
        stage is Completed || stage is Failed,
    ensures
        run(stage, max_attempts, events) == stage,
        forall|k: int| 0 <= k < trace(stage, max_attempts, events).len()
            ==> #[trigger] trace(stage, max_attempts, events)[k] == pending(stage),
    decreases events.len(),
{
    lemma_trace_len(stage, max_attempts, events);
    if events.len() > 0 {
        let rest = events.drop_first();
        lemma_end_is_final(stage, max_attempts, rest);
        lemma_trace_len(stage, max_attempts, rest);
        assert forall|k: int| 0 <= k < trace(stage, max_attempts, events).len()
            implies #[trigger] trace(stage, max_attempts, events)[k] == pending(stage) by {
            if k > 0 {
                assert(trace(stage, max_attempts, events)[k] == trace(stage, max_attempts, rest)[k - 1]);
            }
        }
    }
}

/// Once past authentication, the pipeline never asks for a credential again.
pub proof fn lemma_no_prompt_after_auth(stage: Stage, max_attempts: u32, events: Seq<Event>)
    requires
        !(stage is Authenticating),
    ensures
        forall|k: int| 0 <= k < trace(stage, max_attempts, events).len()
            ==> #[trigger] trace(stage, max_attempts, events)[k] != Step::ReadCredential,
    decreases events.len(),
{
    lemma_trace_len(stage, max_attempts, events);
    if events.len() > 0 {
        let next = next_stage(stage, max_attempts, events[0]);
        let rest = events.drop_first();
        lemma_no_prompt_after_auth(next, max_attempts, rest);
        lemma_trace_len(next, max_attempts, rest);
        assert forall|k: int| 0 <= k < trace(stage, max_attempts, events).len()
            implies #[trigger] trace(stage, max_attempts, events)[k] != Step::ReadCredential by {
            if k > 0 {
                assert(trace(stage, max_attempts, events)[k] == trace(next, max_attempts, rest)[k - 1]);
            }
        }
    }
}

/// A request granted by a rule that waives the credential never asks for one,
/// whatever happens afterwards.
pub proof fn lemma_no_password_never_prompts(decision: &Decision, max_attempts: u32, events: Seq<Event>)
    requires
        decision.auth_mode == Some(UserMode::NoPassword),
    ensures
        forall|k: int| 0 <= k < trace(initial_stage(decision, max_attempts), max_attempts, events).len()
            ==> #[trigger] trace(initial_stage(decision, max_attempts), max_attempts, events)[k]
            != Step::ReadCredential,
{
    lemma_no_prompt_after_auth(initial_stage(decision, max_attempts), max_attempts, events);
}

proof fn lemma_rejections_exhaust(failures: u32, max_attempts: u32, events: Seq<Event>)
    requires
        failures < max_attempts,
        events.len() >= max_attempts - failures,
        forall|i: int| 0 <= i < max_attempts - failures ==> #[trigger] events[i] == Event::CredentialRejected,
    ensures
        run(Stage::Authenticating { failures }, max_attempts, events.take(max_attempts - failures))
            == Stage::Failed(DoitError::Auth(AuthError::ExhaustedAttempts)),
        forall|k: int| 0 <= k < trace(Stage::Authenticating { failures }, max_attempts, events).len()
            ==> !is_privileged(#[trigger] trace(Stage::Authenticating { failures }, max_attempts, events)[k]),
    decreases max_attempts - failures,
{
    let stage = Stage::Authenticating { failures };
    let next = next_stage(stage, max_attempts, events[0]);
    let rest = events.drop_first();
    let n = max_attempts - failures;
    lemma_trace_len(stage, max_attempts, events);
    lemma_trace_len(next, max_attempts, rest);
    assert(events.take(n).drop_first() =~= rest.take(n - 1));
    assert(events.take(n)[0] == events[0]);
    if failures + 1 >= max_attempts {
        lemma_end_is_final(next, max_attempts, rest);
        lemma_end_is_final(next, max_attempts, rest.take(n - 1));
    } else {
        assert forall|i: int| 0 <= i < max_attempts - (failures + 1)
            implies #[trigger] rest[i] == Event::CredentialRejected by {
            assert(rest[i] == events[i + 1]);
        }
        lemma_rejections_exhaust((failures + 1) as u32, max_attempts, rest);
    }
    assert forall|k: int| 0 <= k < trace(stage, max_attempts, events).len()
        implies !is_privileged(#[trigger] trace(stage, max_attempts, events)[k]) by {
        if k > 0 {
            assert(trace(stage, max_attempts, events)[k] == trace(next, max_attempts, rest)[k - 1]);
        }
    }
}

/// When every allowed credential attempt is rejected, authentication ends in
/// `ExhaustedAttempts`, and the pipeline never changes identity nor starts the child,
/// whatever is reported afterwards.
pub proof fn lemma_exhausted_attempts_never_transition(max_attempts: u32, events: Seq<Event>)
    requires
        max_attempts > 0,
        events.len() >= max_attempts,
        forall|i: int| 0 <= i < max_attempts ==> #[trigger] events[i] == Event::CredentialRejected,
    ensures
        run(Stage::Authenticating { failures: 0 }, max_attempts, events.take(max_attempts as int))
            == Stage::Failed(DoitError::Auth(AuthError::ExhaustedAttempts)),
        forall|k: int| 0 <= k < trace(Stage::Authenticating { failures: 0 }, max_attempts, events).len()
            ==> !is_privileged(#[trigger] trace(Stage::Authenticating { failures: 0 }, max_attempts, events)[k]),
{
    lemma_rejections_exhaust(0, max_attempts, events);
}

/// The identity changes come in a fixed order: the supplementary groups only after
/// authentication succeeded (or was waived), the primary group only right after the
/// supplementary groups were set, the user id only right after the primary group was
/// set, and the child only after the user id was set.
pub proof fn lemma_transition_order(stage: Stage, max_attempts: u32, e: Event)
    ensures
        next_stage(stage, max_attempts, e) is SettingGroups
            ==> stage is Authenticating && e == Event::CredentialAccepted,
        next_stage(stage, max_attempts, e) is SettingGroup
            ==> stage is SettingGroups && e == Event::StepDone,
        next_stage(stage, max_attempts, e) is SettingUser
            ==> stage is SettingGroup && e == Event::StepDone,
        next_stage(stage, max_attempts, e) is Launching
            ==> stage is SettingUser && e == Event::StepDone,
{
}

/// No session starts part-way through the identity change.
pub proof fn lemma_start_before_transition(decision: &Decision, max_attempts: u32)
    ensures
        !(initial_stage(decision, max_attempts) is SettingGroup),
        !(initial_stage(decision, max_attempts) is SettingUser),
        !(initial_stage(decision, max_attempts) is Launching),
        !(initial_stage(decision, max_attempts) is Running),
        initial_stage(decision, max_attempts) is SettingGroups ==> decision.granted,
        initial_stage(decision, max_attempts) is Authenticating ==> decision.granted,
{
}

/// When setting the supplementary groups fails, the pipeline never sets the primary
/// group or the user id, nor starts the child.
pub proof fn lemma_group_failure_stops_transition(max_attempts: u32, events: Seq<Event>)
    requires
        events.len() > 0,
        events[0] != Event::StepDone,
    ensures
        forall|k: int| 1 <= k < trace(Stage::SettingGroups, max_attempts, events).len()
            ==> !is_privileged(#[trigger] trace(Stage::SettingGroups, max_attempts, events)[k]),
{
    let next = next_stage(Stage::SettingGroups, max_attempts, events[0]);
    let rest = events.drop_first();
    lemma_trace_len(Stage::SettingGroups, max_attempts, events);
    lemma_end_is_final(next, max_attempts, rest);
    assert forall|k: int| 1 <= k < trace(Stage::SettingGroups, max_attempts, events).len()
        implies !is_privileged(#[trigger] trace(Stage::SettingGroups, max_attempts, events)[k]) by {
        assert(trace(Stage::SettingGroups, max_attempts, events)[k] == trace(next, max_attempts, rest)[k - 1]);
    }
}

} // verus!
