use doit::identity::User;
use doit::launch::build_launch;
use doit::policy::{decide, Command, Decision, ExecRight, ExecutionAction, FileBoundConfig, InnerFBSettings, PolicyRule, TargetUser, UserMode, UserPair};
use doit::selector::Selector;
use doit::session::{
    AuthError, DispatchError, DoitError, Effect, Event, Session, Stage, TransitionError, DEFAULT_MAX_ATTEMPTS,
    FAILURE_EXIT_CODE,
};

fn s(x: &str) -> String {
    x.to_string()
}

fn user(name: &str, id: u32, groups: Vec<u32>) -> User {
    User { name: s(name), user_id: id, group_id: id + 100, groups, home: format!("/home/{}", name), shell: s("/bin/sh") }
}

fn grant(mode: UserMode) -> Decision {
    Decision { granted: true, right: Some(ExecRight::AsRoot), auth_mode: Some(mode) }
}

fn denial() -> Decision {
    Decision { granted: false, right: None, auth_mode: None }
}

/// What a stub caller records while driving a session.
#[derive(Debug, PartialEq)]
enum Done {
    Credential,
    Groups(Vec<u32>),
    Group(u32),
    User(u32),
    Launch,
    Wait,
}

/// Drives `session`, answering each effect from `answers`, until it asks to exit or
/// the answers run out; returns what was done and the exit code asked for.
fn drive(session: &mut Session, answers: &[Event]) -> (Vec<Done>, Option<i32>) {
    let mut log = Vec::new();
    let mut next = 0;
    loop {
        match session.effect() {
            Effect::Exit(code) => return (log, Some(code)),
            Effect::ReadCredential => log.push(Done::Credential),
            Effect::SetGroups(g) => log.push(Done::Groups(g)),
            Effect::SetGroup(g) => log.push(Done::Group(g)),
            Effect::SetUser(u) => log.push(Done::User(u)),
            Effect::Launch => log.push(Done::Launch),
            Effect::Wait => log.push(Done::Wait),
        }
        if next == answers.len() {
            return (log, None);
        }
        session.advance(answers[next]);
        next += 1;
    }
}

#[test]
fn no_password_never_asks_for_credential() {
    let target = user("bob", 1001, vec![5, 6]);
    let mut session = Session::new(&grant(UserMode::NoPassword), &target, DEFAULT_MAX_ATTEMPTS);
    let (log, code) = drive(
        &mut session,
        &[Event::StepDone, Event::StepDone, Event::StepDone, Event::Spawned, Event::Exited(0)],
    );
    assert_eq!(log, vec![Done::Groups(vec![5, 6]), Done::Group(1101), Done::User(1001), Done::Launch, Done::Wait]);
    assert_eq!(code, Some(0));
    assert_eq!(session.stage, Stage::Completed(0));
}

#[test]
fn exhausted_attempts_never_transition() {
    let target = user("root", 0, vec![0]);
    let mut session = Session::new(&grant(UserMode::RequirePassword), &target, DEFAULT_MAX_ATTEMPTS);
    let (log, code) = drive(
        &mut session,
        &[Event::CredentialRejected, Event::CredentialRejected, Event::CredentialRejected, Event::StepDone],
    );
    let validations = log.iter().filter(|d| **d == Done::Credential).count();
    assert_eq!(validations, 3);
    assert_eq!(log.len(), 3);
    assert_eq!(code, Some(FAILURE_EXIT_CODE));
    assert_eq!(session.stage, Stage::Failed(DoitError::Auth(AuthError::ExhaustedAttempts)));
}

#[test]
fn accepted_after_retries() {
    let target = user("root", 0, vec![0]);
    let mut session = Session::new(&grant(UserMode::RequirePassword), &target, 3);
    let (log, code) = drive(
        &mut session,
        &[Event::CredentialRejected, Event::CredentialRejected, Event::CredentialAccepted, Event::StepDone,
          Event::StepDone, Event::StepDone, Event::Spawned, Event::Exited(7)],
    );
    assert_eq!(log[..3], [Done::Credential, Done::Credential, Done::Credential]);
    assert_eq!(log[3], Done::Groups(vec![0]));
    assert_eq!(code, Some(7));
}

#[test]
fn groups_before_user_and_failure_stops() {
    let target = user("bob", 1001, vec![1001]);
    let mut session = Session::new(&grant(UserMode::NoPassword), &target, 3);
    let (log, code) = drive(&mut session, &[Event::StepFailed(1), Event::StepDone, Event::StepDone]);
    assert_eq!(log, vec![Done::Groups(vec![1001])]);
    assert_eq!(code, Some(FAILURE_EXIT_CODE));
    assert_eq!(session.stage, Stage::Failed(DoitError::Transition(TransitionError::SyscallFailed(1))));
}

#[test]
fn primary_group_failure_stops_before_user() {
    let target = user("bob", 1001, vec![]);
    let mut session = Session::new(&grant(UserMode::NoPassword), &target, 3);
    let (log, code) = drive(&mut session, &[Event::StepDone, Event::StepFailed(22)]);
    assert_eq!(log, vec![Done::Groups(vec![]), Done::Group(1101)]);
    assert_eq!(code, Some(FAILURE_EXIT_CODE));
}

#[test]
fn timeout_fails_closed() {
    let mut session = Session::new(&grant(UserMode::RequirePassword), &user("root", 0, vec![]), 3);
    session.advance(Event::CredentialTimedOut);
    assert_eq!(session.stage, Stage::Failed(DoitError::Auth(AuthError::Timeout)));
    assert!(session.is_finished());
}

#[test]
fn interrupt_before_transition_aborts() {
    let mut session = Session::new(&grant(UserMode::RequirePassword), &user("root", 0, vec![]), 3);
    let (log, code) = drive(&mut session, &[Event::Interrupted, Event::StepDone]);
    assert_eq!(log, vec![Done::Credential]);
    assert_eq!(code, Some(FAILURE_EXIT_CODE));
    assert_eq!(session.stage, Stage::Failed(DoitError::Aborted));
}

#[test]
fn interrupt_while_child_runs_is_ignored() {
    let mut session = Session::new(&grant(UserMode::NoPassword), &user("bob", 1, vec![]), 3);
    let (_, code) = drive(
        &mut session,
        &[Event::StepDone, Event::StepDone, Event::StepDone, Event::Spawned, Event::Interrupted, Event::Exited(3)],
    );
    assert_eq!(code, Some(3));
}

#[test]
fn dispatch_failures() {
    let mut session = Session::new(&grant(UserMode::NoPassword), &user("bob", 1, vec![]), 3);
    let (_, code) = drive(&mut session, &[Event::StepDone, Event::StepDone, Event::StepDone, Event::SpawnFailed]);
    assert_eq!(code, Some(FAILURE_EXIT_CODE));
    assert_eq!(session.stage, Stage::Failed(DoitError::Dispatch(DispatchError::SpawnFailed)));
    let mut session = Session::new(&grant(UserMode::NoPassword), &user("bob", 1, vec![]), 3);
    let (_, code) = drive(&mut session, &[Event::StepDone, Event::StepDone, Event::StepDone, Event::Spawned, Event::WaitFailed]);
    assert_eq!(code, Some(FAILURE_EXIT_CODE));
    assert_eq!(session.stage, Stage::Failed(DoitError::Dispatch(DispatchError::ChildWaitFailed)));
}

#[test]
fn denial_exits_with_failure() {
    let mut session = Session::new(&denial(), &user("carol", 1002, vec![]), 3);
    let (log, code) = drive(&mut session, &[Event::CredentialAccepted, Event::StepDone]);
    assert!(log.is_empty());
    assert_eq!(code, Some(1));
    assert_eq!(session.stage, Stage::Failed(DoitError::Denied));
}

#[test]
fn zero_attempts_is_exhausted() {
    let session = Session::new(&grant(UserMode::RequirePassword), &user("root", 0, vec![]), 0);
    assert_eq!(session.stage, Stage::Failed(DoitError::Auth(AuthError::ExhaustedAttempts)));
}

#[test]
fn out_of_order_event_aborts() {
    let mut session = Session::new(&grant(UserMode::NoPassword), &user("bob", 1, vec![]), 3);
    session.advance(Event::CredentialAccepted);
    assert_eq!(session.stage, Stage::Failed(DoitError::Aborted));
}

fn scenario_doc() -> FileBoundConfig {
    FileBoundConfig {
        rules: vec![PolicyRule {
            invoker: UserPair(Selector::Exact(s("alice")), UserMode::NoPassword),
            command: Command::Specific(Selector::Exact(s("/bin/ls"))),
            right: ExecRight::AsUsers(vec![TargetUser::Name(s("bob"))]),
        }],
        settings: InnerFBSettings { login_timeout: 30 },
    }
}

#[test]
fn end_to_end_granted_command() {
    let alice = user("alice", 1000, vec![1000]);
    let bob = user("bob", 1001, vec![1001, 20]);
    let action = ExecutionAction::Command(vec![s("/bin/ls")]);
    let d = decide(&scenario_doc(), &alice, &bob, &action);
    assert!(d.granted);
    let plan = build_launch(&action, &bob, None).unwrap();
    assert_eq!(plan.program, "/bin/ls");
    assert!(plan.args.is_empty());
    let mut session = Session::new(&d, &bob, DEFAULT_MAX_ATTEMPTS);
    let (log, code) = drive(
        &mut session,
        &[Event::StepDone, Event::StepDone, Event::StepDone, Event::Spawned, Event::Exited(0)],
    );
    assert_eq!(log, vec![Done::Groups(vec![1001, 20]), Done::Group(1101), Done::User(1001), Done::Launch, Done::Wait]);
    assert_eq!(code, Some(0));
}

#[test]
fn end_to_end_denied_target() {
    let alice = user("alice", 1000, vec![1000]);
    let carol = user("carol", 1002, vec![1002]);
    let action = ExecutionAction::Command(vec![s("/bin/ls")]);
    let d = decide(&scenario_doc(), &alice, &carol, &action);
    assert!(!d.granted);
    let mut session = Session::new(&d, &carol, DEFAULT_MAX_ATTEMPTS);
    let (log, code) = drive(&mut session, &[Event::StepDone]);
    assert!(log.is_empty());
    assert_eq!(code, Some(1));
}

#[test]
fn end_to_end_clean_shell() {
    let policy = FileBoundConfig {
        rules: vec![PolicyRule {
            invoker: UserPair(Selector::Exact(s("alice")), UserMode::NoPassword),
            command: Command::ShellOnly,
            right: ExecRight::AsRoot,
        }],
        settings: InnerFBSettings { login_timeout: 30 },
    };
    let root = User { name: s("root"), user_id: 0, group_id: 0, groups: vec![0], home: s("/root"), shell: s("/bin/zsh") };
    let action = ExecutionAction::Shell(true);
    let d = decide(&policy, &user("alice", 1000, vec![]), &root, &action);
    assert!(d.granted);
    let plan = build_launch(&action, &root, Some(s("xterm"))).unwrap();
    assert_eq!(plan.program, "/bin/zsh");
    assert!(plan.clear_env);
    let keys: Vec<&str> = plan.env.iter().map(|(k, _)| k.as_str()).collect();
    assert_eq!(keys, vec!["PATH", "HOME", "TERM", "USER"]);
    assert!(plan.env.contains(&(s("HOME"), s("/root"))));
    assert!(plan.env.contains(&(s("USER"), s("root"))));
    assert!(plan.env.contains(&(s("TERM"), s("xterm"))));
}
