use doit::identity::User;
use doit::policy::{
    decide, faulty_rules, Command, Decision, ExecRight, ExecutionAction, FileBoundConfig, InnerFBSettings, PolicyRule,
    TargetUser, UserMode, UserPair,
};
use doit::selector::Selector;

fn s(x: &str) -> String {
    x.to_string()
}

fn user(name: &str, id: u32) -> User {
    User {
        name: s(name),
        user_id: id,
        group_id: id,
        groups: vec![id, 27],
        home: format!("/home/{}", name),
        shell: s("/bin/bash"),
    }
}

fn rule(invoker: Selector, mode: UserMode, command: Command, right: ExecRight) -> PolicyRule {
    PolicyRule { invoker: UserPair(invoker, mode), command, right }
}

fn doc(rules: Vec<PolicyRule>) -> FileBoundConfig {
    FileBoundConfig { rules, settings: InnerFBSettings { login_timeout: 30 } }
}

fn cmd(words: &[&str]) -> ExecutionAction {
    ExecutionAction::Command(words.iter().map(|w| w.to_string()).collect())
}

fn users(names: &[&str]) -> ExecRight {
    ExecRight::AsUsers(names.iter().map(|n| TargetUser::Name(n.to_string())).collect())
}

fn granted_names(d: &Decision) -> Option<Vec<String>> {
    match &d.right {
        Some(ExecRight::AsUsers(v)) => Some(
            v.iter()
                .map(|t| match t {
                    TargetUser::Name(n) => n.clone(),
                    TargetUser::Id(i) => format!("#{}", i),
                })
                .collect(),
        ),
        _ => None,
    }
}

fn scenario_doc() -> FileBoundConfig {
    doc(vec![rule(
        Selector::Exact(s("alice")),
        UserMode::NoPassword,
        Command::Specific(Selector::Exact(s("/bin/ls"))),
        users(&["bob"]),
    )])
}

#[test]
fn scenario_a_grants_listed_target() {
    let d = decide(&scenario_doc(), &user("alice", 1000), &user("bob", 1001), &cmd(&["/bin/ls"]));
    assert!(d.granted);
    assert_eq!(d.auth_mode, Some(UserMode::NoPassword));
    assert_eq!(granted_names(&d), Some(vec![s("bob")]));
}

#[test]
fn scenario_b_denies_unlisted_target() {
    let d = decide(&scenario_doc(), &user("alice", 1000), &user("carol", 1002), &cmd(&["/bin/ls"]));
    assert!(!d.granted);
    assert!(d.right.is_none());
    assert!(d.auth_mode.is_none());
}

#[test]
fn first_rule_wins_over_more_specific() {
    let policy = doc(vec![
        rule(Selector::Exact(s("alice")), UserMode::RequirePassword, Command::Any, users(&["bob"])),
        rule(
            Selector::Exact(s("alice")),
            UserMode::NoPassword,
            Command::Specific(Selector::Exact(s("/bin/ls"))),
            users(&["bob", "carol"]),
        ),
    ]);
    let d = decide(&policy, &user("alice", 1000), &user("bob", 1001), &cmd(&["/bin/ls"]));
    assert!(d.granted);
    assert_eq!(d.auth_mode, Some(UserMode::RequirePassword));
    assert_eq!(granted_names(&d), Some(vec![s("bob")]));
    // The first rule applies and does not cover carol: the second is not consulted.
    let d = decide(&policy, &user("alice", 1000), &user("carol", 1002), &cmd(&["/bin/ls"]));
    assert!(!d.granted);
}

#[test]
fn no_rule_applies() {
    let d = decide(&scenario_doc(), &user("mallory", 1003), &user("bob", 1001), &cmd(&["/bin/ls"]));
    assert!(!d.granted && d.right.is_none() && d.auth_mode.is_none());
    let d = decide(&scenario_doc(), &user("alice", 1000), &user("bob", 1001), &cmd(&["/bin/cat"]));
    assert!(!d.granted);
    let d = decide(&doc(vec![]), &user("alice", 1000), &user("bob", 1001), &cmd(&["/bin/ls"]));
    assert!(!d.granted);
}

#[test]
fn shell_only_matches_shell_requests() {
    let policy = doc(vec![rule(Selector::Exact(s("alice")), UserMode::NoPassword, Command::ShellOnly, ExecRight::AsRoot)]);
    let root = user("root", 0);
    let d = decide(&policy, &user("alice", 1000), &root, &ExecutionAction::Shell(true));
    assert!(d.granted);
    assert!(matches!(d.right, Some(ExecRight::AsRoot)));
    let d = decide(&policy, &user("alice", 1000), &root, &cmd(&["/bin/sh"]));
    assert!(!d.granted);
}

#[test]
fn specific_never_matches_shell() {
    let policy = doc(vec![rule(
        Selector::Exact(s("alice")),
        UserMode::NoPassword,
        Command::Specific(Selector::Pattern(s(".*"))),
        ExecRight::AsRoot,
    )]);
    let d = decide(&policy, &user("alice", 1000), &user("root", 0), &ExecutionAction::Shell(false));
    assert!(!d.granted);
}

#[test]
fn as_root_requires_administrative_target() {
    let policy = doc(vec![rule(Selector::Exact(s("alice")), UserMode::NoPassword, Command::Any, ExecRight::AsRoot)]);
    let d = decide(&policy, &user("alice", 1000), &user("root", 0), &cmd(&["id"]));
    assert!(d.granted);
    let d = decide(&policy, &user("alice", 1000), &user("bob", 1001), &cmd(&["id"]));
    assert!(!d.granted);
}

#[test]
fn targets_by_id() {
    let policy = doc(vec![rule(
        Selector::FirstToken(s("alice")),
        UserMode::RequirePassword,
        Command::Any,
        ExecRight::AsUsers(vec![TargetUser::Id(1001)]),
    )]);
    assert!(decide(&policy, &user("alice", 1000), &user("bob", 1001), &cmd(&["id"])).granted);
    assert!(!decide(&policy, &user("alice", 1000), &user("carol", 1002), &cmd(&["id"])).granted);
}

#[test]
fn malformed_pattern_rule_never_matches() {
    let policy = doc(vec![
        rule(Selector::Pattern(s("(")), UserMode::NoPassword, Command::Any, ExecRight::AsRoot),
        rule(Selector::Exact(s("alice")), UserMode::RequirePassword, Command::Any, ExecRight::AsRoot),
    ]);
    let d = decide(&policy, &user("alice", 1000), &user("root", 0), &cmd(&["id"]));
    assert!(d.granted);
    assert_eq!(d.auth_mode, Some(UserMode::RequirePassword));
}

#[test]
fn command_selector_sees_joined_line() {
    let policy = doc(vec![rule(
        Selector::Pattern(s("^a.*")),
        UserMode::NoPassword,
        Command::Specific(Selector::Exact(s("/bin/ls -l /tmp"))),
        ExecRight::AsRoot,
    )]);
    assert!(decide(&policy, &user("alice", 1000), &user("root", 0), &cmd(&["/bin/ls", "-l", "/tmp"])).granted);
    assert!(!decide(&policy, &user("alice", 1000), &user("root", 0), &cmd(&["/bin/ls", "-l"])).granted);
}

#[test]
fn command_line_joins_with_spaces() {
    assert_eq!(cmd(&["/bin/ls", "-l", "/tmp"]).command_line(), Some(s("/bin/ls -l /tmp")));
    assert_eq!(cmd(&["x"]).command_line(), Some(s("x")));
    assert_eq!(cmd(&[]).command_line(), Some(s("")));
    assert_eq!(ExecutionAction::Shell(true).command_line(), None);
}

#[test]
fn rights_are_copied() {
    let r = users(&["bob", "carol"]);
    let c = r.duplicate();
    assert!(matches!(&c, ExecRight::AsUsers(v) if v.len() == 2));
    assert!(r.allows(&user("carol", 5)));
    assert!(c.allows(&user("carol", 5)));
    assert!(!c.allows(&user("dave", 6)));
}

#[test]
fn faulty_rules_are_listed() {
    let policy = doc(vec![
        rule(Selector::Pattern(s("(")), UserMode::NoPassword, Command::Any, ExecRight::AsRoot),
        rule(Selector::Exact(s("alice")), UserMode::NoPassword, Command::Any, ExecRight::AsRoot),
        rule(
            Selector::Exact(s("alice")),
            UserMode::NoPassword,
            Command::Specific(Selector::Pattern(s("[z-a]"))),
            ExecRight::AsRoot,
        ),
        rule(Selector::Pattern(s("^al")), UserMode::NoPassword, Command::Any, ExecRight::AsRoot),
    ]);
    assert_eq!(faulty_rules(&policy, &user("alice", 1000), &cmd(&["id"])), vec![0, 2]);
    // A shell request never evaluates command selectors.
    assert_eq!(faulty_rules(&policy, &user("alice", 1000), &ExecutionAction::Shell(false)), vec![0]);
    assert!(faulty_rules(&scenario_doc(), &user("alice", 1000), &cmd(&["id"])).is_empty());
}
