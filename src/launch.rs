//! How the child is started: program, arguments and environment.
use vstd::prelude::*;
use crate::identity::User;
use crate::policy::ExecutionAction;
use crate::session::DispatchError;

verus! {

/// The search path of a clean environment.
pub const SAFE_PATH: &'static str = "/usr/local/sbin:/usr/local/bin:/usr/sbin:/usr/bin:/sbin:/bin";

/// How to start the child.
#[derive(Debug)]
pub struct LaunchPlan {
    /// The program, run directly (never through a shell command line).
    pub program: String,
    pub args: Vec<String>,
    /// Start from an empty environment rather than the inherited one.
    pub clear_env: bool,
    /// Variables to set, in this order.
    pub env: Vec<(String, String)>,
}

/// The values of environment entries.
pub open spec fn env_view(env: Seq<(String, String)>) -> Seq<(Seq<char>, Seq<char>)> {
    env.map_values(|p: (String, String)| (p.0@, p.1@))
}

/// The variables of a clean environment: search path, home, terminal type (when the
/// invoker has one) and user name, and nothing of the invoker's but the terminal type.
pub open spec fn clean_env(target: &User, term: Option<String>) -> Seq<(Seq<char>, Seq<char>)> {
    let base = seq![("PATH"@, SAFE_PATH@), ("HOME"@, target.home@)];
    let with_term = match term {
        Some(t) => base.push(("TERM"@, t@)),
        None => base,
    };
    with_term.push(("USER"@, target.name@))
}

/// The variables set on top of the inherited environment: the target's home and names.
pub open spec fn identity_env(target: &User) -> Seq<(Seq<char>, Seq<char>)> {
    seq![("HOME"@, target.home@), ("USER"@, target.name@), ("LOGNAME"@, target.name@)]
}

/// The names a clean environment may hold.
pub open spec fn is_allowed_key(k: Seq<char>) -> bool {
    k == "PATH"@ || k == "HOME"@ || k == "TERM"@ || k == "USER"@
}

/// The plan owed for `action` run as `target`, `term` being the invoker's terminal type.
pub open spec fn is_plan(action: &ExecutionAction, target: &User, term: Option<String>, plan: LaunchPlan) -> bool {
    match action {
        ExecutionAction::Command(words) => {
            &&& plan.program@ == words@[0]@
            &&& plan.args@ == words@.skip(1)
            &&& !plan.clear_env
            &&& env_view(plan.env@) == identity_env(target)
        },
        ExecutionAction::Shell(clean) => {
            &&& plan.program@ == target.shell@
            &&& plan.args@.len() == 0
            &&& plan.clear_env == *clean
            &&& env_view(plan.env@) == if *clean { clean_env(target, term) } else { identity_env(target) }
        },
    }
}

/// A request with nothing to run: an empty command, or a target without a shell.
pub open spec fn nothing_to_run(action: &ExecutionAction, target: &User) -> bool {
    match action {
        ExecutionAction::Command(words) => words@.len() == 0,
        ExecutionAction::Shell(_) => target.shell@.len() == 0,
    }
}

fn entry(k: &str, v: &String) -> (r: (String, String))
    ensures
        r.0@ == k@,
        r.1@ == v@,
{
    (String::from_str(k), v.clone())
}

fn identity_vars(target: &User) -> (r: Vec<(String, String)>)
    ensures
        env_view(r@) == identity_env(target),
{
    let mut env: Vec<(String, String)> = Vec::new();
    env.push(entry("HOME", &target.home));
    env.push(entry("USER", &target.name));
    env.push(entry("LOGNAME", &target.name));
    assert(env_view(env@) =~= identity_env(target));
    env
}

fn clean_vars(target: &User, term: &Option<String>) -> (r: Vec<(String, String)>)
    ensures
        env_view(r@) == clean_env(target, *term),
{
    let mut env: Vec<(String, String)> = Vec::new();
    let path = String::from_str(SAFE_PATH);
    env.push(entry("PATH", &path));
    env.push(entry("HOME", &target.home));
    match term {
        Some(t) => env.push(entry("TERM", t)),
        None => {},
    }
    env.push(entry("USER", &target.name));
    assert(env_view(env@) =~= clean_env(target, *term));
    env
}

/// Builds the plan for starting `action` as `target`. A command runs its argument
/// vector directly, with the target's home and names set over the inherited
/// environment; a shell is the target's configured shell, in the same environment or,
/// when a clean one is asked for, in one made only of the allowed variables.
pub fn build_launch(action: &ExecutionAction, target: &User, term: Option<String>) -> (r: Result<LaunchPlan, DispatchError>)
    ensures
        nothing_to_run(action, target) ==> r == Err::<LaunchPlan, DispatchError>(DispatchError::SpawnFailed),
        !nothing_to_run(action, target) ==> (r matches Ok(plan) && is_plan(action, target, term, plan)),
{
    match action {
        ExecutionAction::Command(words) => {
            if words.len() == 0 {
                return Err(DispatchError::SpawnFailed);
            }
            let program = words[0].clone();
            let mut args: Vec<String> = Vec::new();
            let mut i: usize = 1;
            while i < words.len()
                invariant
                    1 <= i <= words.len(),
                    args@ == words@.subrange(1, i as int),
                decreases words.len() - i,
            {
                args.push(words[i].clone());
                i = i + 1;
                assert(args@ =~= words@.subrange(1, i as int));
            }
            Ok(LaunchPlan { program, args, clear_env: false, env: identity_vars(target) })
        },
        ExecutionAction::Shell(clean) => {
            if target.shell.unicode_len() == 0 {
                return Err(DispatchError::SpawnFailed);
            }
            let env = if *clean { clean_vars(target, &term) } else { identity_vars(target) };
            Ok(LaunchPlan { program: target.shell.clone(), args: Vec::new(), clear_env: *clean, env })
        },
    }
}

/// A clean environment holds only allowed variables, and the user and home it names
/// are the target's.
pub proof fn lemma_clean_env_allowed(target: &User, term: Option<String>)
    ensures
        forall|k: int| 0 <= k < clean_env(target, term).len()
            ==> is_allowed_key(#[trigger] clean_env(target, term)[k].0),
        clean_env(target, term).contains(("HOME"@, target.home@)),
        clean_env(target, term).contains(("USER"@, target.name@)),
{
    let e = clean_env(target, term);
    assert(e[1] == ("HOME"@, target.home@));
    assert(e[e.len() - 1] == ("USER"@, target.name@));
}

} // verus!
