//! The policy document and the engine that decides one request against it.
use vstd::prelude::*;
use crate::identity::{User, ROOT_ID};
use crate::selector::{Selector, SelectorError};

verus! {

/// Whether a rule asks the invoker for a credential.
#[derive(Debug, Clone, Copy, PartialEq, Eq, Structural)]
pub enum UserMode {
    RequirePassword,
    NoPassword,
}

/// The invoker side of a rule: who may invoke it, and how they authenticate.
#[derive(Debug)]
pub struct UserPair(pub Selector, pub UserMode);

/// The action side of a rule.
#[derive(Debug)]
pub enum Command {
    /// A command whose line the selector accepts.
    Specific(Selector),
    /// An interactive shell.
    ShellOnly,
    /// Any action.
    Any,
}

/// One allowed target account, by name or by id.
#[derive(Debug)]
pub enum TargetUser {
    Name(String),
    Id(u32),
}

/// Which target identities a rule lets the invoker act as.
#[derive(Debug)]
pub enum ExecRight {
    /// The administrative account only.
    AsRoot,
    /// The listed accounts.
    AsUsers(Vec<TargetUser>),
}

/// The value of an `ExecRight`.
pub ghost enum RightView {
    AsRoot,
    AsUsers(Seq<TargetUser>),
}

/// One rule of the policy document.
#[derive(Debug)]
pub struct PolicyRule {
    pub invoker: UserPair,
    pub command: Command,
    pub right: ExecRight,
}

/// Settings of the policy document.
#[derive(Debug, Clone, Copy, PartialEq, Eq, Structural)]
pub struct InnerFBSettings {
    /// Seconds allowed for entering a credential.
    pub login_timeout: u32,
}

/// The policy document: rules in document order, and settings.
#[derive(Debug)]
pub struct FileBoundConfig {
    pub rules: Vec<PolicyRule>,
    pub settings: InnerFBSettings,
}

/// What the invoker asks to do.
#[derive(Debug)]
pub enum ExecutionAction {
    /// Run a command, given as its argument vector.
    Command(Vec<String>),
    /// Open the target's shell; `true` asks for a clean environment.
    Shell(bool),
}

/// The verdict on one request.
#[derive(Debug)]
pub struct Decision {
    pub granted: bool,
    pub right: Option<ExecRight>,
    pub auth_mode: Option<UserMode>,
}

/// The words of a command joined by single spaces.
pub open spec fn joined(words: Seq<String>) -> Seq<char>
    decreases words.len(),
{
    if words.len() == 0 {
        Seq::empty()
    } else if words.len() == 1 {
        words[0]@
    } else {
        joined(words.drop_last()) + seq![' '] + words.last()@
    }
}

impl TargetUser {
    /// This entry designates `target`.
    pub open spec fn names(&self, target: &User) -> bool {
        match self {
            TargetUser::Name(n) => n@ == target.name@,
            TargetUser::Id(id) => *id == target.user_id,
        }
    }

    /// A copy of this entry.
    pub fn duplicate(&self) -> (r: TargetUser)
        ensures
            r == *self,
    {
        match self {
            TargetUser::Name(n) => TargetUser::Name(n.clone()),
            TargetUser::Id(id) => TargetUser::Id(*id),
        }
    }

    /// Whether this entry designates `target`.
    pub fn designates(&self, target: &User) -> (r: bool)
        ensures
            r == self.names(target),
    {
        match self {
            TargetUser::Name(n) => n.eq(&target.name),
            TargetUser::Id(id) => *id == target.user_id,
        }
    }
}

impl ExecRight {
    pub open spec fn view(&self) -> RightView {
        match self {
            ExecRight::AsRoot => RightView::AsRoot,
            ExecRight::AsUsers(v) => RightView::AsUsers(v@),
        }
    }

    /// The right lets the invoker act as `target`.
    pub open spec fn permits(&self, target: &User) -> bool {
        match self {
            ExecRight::AsRoot => target.user_id == ROOT_ID,
            ExecRight::AsUsers(v) => exists|k: int| 0 <= k < v@.len() && (#[trigger] v@[k]).names(target),
        }
    }

    /// A copy of this right.
    pub fn duplicate(&self) -> (r: ExecRight)
        ensures
            r@ == self@,
    {
        match self {
            ExecRight::AsRoot => ExecRight::AsRoot,
            ExecRight::AsUsers(v) => {
                let mut out: Vec<TargetUser> = Vec::new();
                let mut i: usize = 0;
                while i < v.len()
                    invariant
                        i <= v.len(),
                        out@ == v@.take(i as int),
                    decreases v.len() - i,
                {
                    out.push(v[i].duplicate());
                    i = i + 1;
                    assert(out@ =~= v@.take(i as int));
                }
                assert(v@.take(v.len() as int) =~= v@);
                ExecRight::AsUsers(out)
            },
        }
    }

    /// Whether the right lets the invoker act as `target`.
    pub fn allows(&self, target: &User) -> (r: bool)
        ensures
            r == self.permits(target),
    {
        match self {
            ExecRight::AsRoot => target.user_id == ROOT_ID,
            ExecRight::AsUsers(v) => any_designates(v, target),
        }
    }
}

/// Whether some entry of `v` designates `target`.
fn any_designates(v: &Vec<TargetUser>, target: &User) -> (r: bool)
    ensures
        r == exists|k: int| 0 <= k < v@.len() && (#[trigger] v@[k]).names(target),
{
    let mut i: usize = 0;
    while i < v.len()
        invariant
            i <= v.len(),
            forall|k: int| 0 <= k < i ==> !(#[trigger] v@[k]).names(target),
        decreases v.len() - i,
    {
        if v[i].designates(target) {
            assert(v@[i as int].names(target));
            return true;
        }
        i = i + 1;
    }
    false
}

impl ExecutionAction {
    /// The command line that selectors see, or `None` for a shell.
    pub open spec fn line(&self) -> Option<Seq<char>> {
        match self {
            ExecutionAction::Command(words) => Some(joined(words@)),
            ExecutionAction::Shell(_) => None,
        }
    }

    /// The command line, its words joined by single spaces; `None` for a shell.
    pub fn command_line(&self) -> (r: Option<String>)
        ensures
            r matches Some(s) ==> self.line() == Some(s@),
            r is None ==> self.line() is None,
    {
        match self {
            ExecutionAction::Shell(_) => None,
            ExecutionAction::Command(words) => {
                let mut line = String::new();
                let mut i: usize = 0;
                while i < words.len()
                    invariant
                        i <= words.len(),
                        line@ == joined(words@.take(i as int)),
                    decreases words.len() - i,
                {
                    proof {
                        let t = words@.take(i as int + 1);
                        assert(t.drop_last() =~= words@.take(i as int));
                        assert(t.last() == words@[i as int]);
                    }
                    if i > 0 {
                        line.append(" ");
                        proof { reveal_strlit(" "); }
                    }
                    line.append(words[i].as_str());
                    i = i + 1;
                    proof {
                        if i == 1 {
                            assert(line@ =~= words@[0]@);
                        } else {
                            assert(line@ =~= joined(words@.take(i as int)));
                        }
                    }
                }
                assert(words@.take(words.len() as int) =~= words@);
                Some(line)
            },
        }
    }
}

impl Command {
    /// The action side of a rule admits `action`.
    pub open spec fn admits(&self, action: &ExecutionAction) -> bool {
        match self {
            Command::Any => true,
            Command::ShellOnly => action is Shell,
            Command::Specific(sel) => match action.line() {
                Some(line) => sel.accepts(line),
                None => false,
            },
        }
    }
}

impl PolicyRule {
    /// The rule applies to `invoker` asking for `action`.
    pub open spec fn applies(&self, invoker: Seq<char>, action: &ExecutionAction) -> bool {
        self.invoker.0.accepts(invoker) && self.command.admits(action)
    }
}

/// Rule `i` is the first rule, in document order, that applies.
pub open spec fn is_first_applicable(
    rules: Seq<PolicyRule>,
    i: int,
    invoker: Seq<char>,
    action: &ExecutionAction,
) -> bool {
    &&& 0 <= i < rules.len()
    &&& rules[i].applies(invoker, action)
    &&& forall|j: int| 0 <= j < i ==> !(#[trigger] rules[j]).applies(invoker, action)
}

/// The index of the first applicable rule, if any applies.
pub open spec fn first_applicable(
    rules: Seq<PolicyRule>,
    invoker: Seq<char>,
    action: &ExecutionAction,
) -> Option<int> {
    if exists|i: int| is_first_applicable(rules, i, invoker, action) {
        Some(choose|i: int| is_first_applicable(rules, i, invoker, action))
    } else {
        None
    }
}

impl Decision {
    /// The decision refuses the request and carries nothing else.
    pub open spec fn is_denial(&self) -> bool {
        !self.granted && self.right is None && self.auth_mode is None
    }

    /// The decision grants `rule`'s right and authentication mode.
    pub open spec fn grants(&self, rule: PolicyRule) -> bool {
        &&& self.granted
        &&& self.right matches Some(r) && r@ == rule.right@
        &&& self.auth_mode == Some(rule.invoker.1)
    }
}

/// `d` is the decision owed to `invoker` asking to perform `action` as `target`.
pub open spec fn is_decision(
    rules: Seq<PolicyRule>,
    invoker: &User,
    target: &User,
    action: &ExecutionAction,
    d: &Decision,
) -> bool {
    match first_applicable(rules, invoker.name@, action) {
        None => d.is_denial(),
        Some(i) => if rules[i].right.permits(target) {
            d.grants(rules[i])
        } else {
            d.is_denial()
        },
    }
}

proof fn lemma_first_unique(rules: Seq<PolicyRule>, i: int, invoker: Seq<char>, action: &ExecutionAction)
    requires
        is_first_applicable(rules, i, invoker, action),
    ensures
        first_applicable(rules, invoker, action) == Some(i),
{
    let k = choose|k: int| is_first_applicable(rules, k, invoker, action);
    assert(is_first_applicable(rules, k, invoker, action));
    if k < i {
        assert(!rules[k].applies(invoker, action));
    } else if i < k {
        assert(!rules[i].applies(invoker, action));
    }
}

/// Evaluates a selector on `candidate`; one that cannot be evaluated accepts nothing.
fn accepts(sel: &Selector, candidate: &String) -> (r: bool)
    ensures
        r == sel.accepts(candidate@),
{
    match sel.check(candidate) {
        Ok(b) => b,
        Err(_) => false,
    }
}

impl Command {
    fn admits_line(&self, action: &ExecutionAction, line: &Option<String>) -> (r: bool)
        requires
            line matches Some(s) ==> action.line() == Some(s@),
            line is None ==> action.line() is None,
        ensures
            r == self.admits(action),
    {
        match self {
            Command::Any => true,
            Command::ShellOnly => match action {
                ExecutionAction::Shell(_) => true,
                ExecutionAction::Command(_) => false,
            },
            Command::Specific(sel) => match line {
                Some(s) => accepts(sel, s),
                None => false,
            },
        }
    }
}

/// Decides whether `invoker` may perform `action` as `target`: the first rule in
/// document order whose invoker selector accepts the invoker's name and whose action
/// side admits the action is authoritative; it grants when its right covers the target.
pub fn decide(doc: &FileBoundConfig, invoker: &User, target: &User, action: &ExecutionAction) -> (r: Decision)
    ensures
        is_decision(doc.rules@, invoker, target, action, &r),
{
    let line = action.command_line();
    let mut i: usize = 0;
    while i < doc.rules.len()
        invariant
            i <= doc.rules.len(),
            line matches Some(s) ==> action.line() == Some(s@),
            line is None ==> action.line() is None,
            forall|j: int| 0 <= j < i ==> !(#[trigger] doc.rules@[j]).applies(invoker.name@, action),
        decreases doc.rules.len() - i,
    {
        let rule = &doc.rules[i];
        if accepts(&rule.invoker.0, &invoker.name) && rule.command.admits_line(action, &line) {
            proof { lemma_first_unique(doc.rules@, i as int, invoker.name@, action); }
            if rule.right.allows(target) {
                return Decision { granted: true, right: Some(rule.right.duplicate()), auth_mode: Some(rule.invoker.1) };
            } else {
                return Decision { granted: false, right: None, auth_mode: None };
            }
        }
        i = i + 1;
    }
    assert(!exists|k: int| is_first_applicable(doc.rules@, k, invoker.name@, action));
    Decision { granted: false, right: None, auth_mode: None }
}

/// A selector of the rule could not be evaluated for this request: its invoker
/// selector on the invoker's name, or its command selector on the command line.
pub open spec fn is_faulty(rule: PolicyRule, invoker: Seq<char>, action: &ExecutionAction) -> bool {
    ||| rule.invoker.0.outcome(invoker) is Err
    ||| match (rule.command, action.line()) {
        (Command::Specific(sel), Some(line)) => sel.outcome(line) is Err,
        _ => false,
    }
}

/// Whether a selector evaluation failed.
fn failed(r: &Result<bool, SelectorError>) -> (b: bool)
    ensures
        b == (*r is Err),
{
    match r {
        Ok(_) => false,
        Err(_) => true,
    }
}

/// The positions, in increasing order, of the rules whose selectors cannot be evaluated
/// for `invoker` asking for `action` (a malformed pattern, or a search that gave up).
/// `decide` treats those rules as not applying; this lists them so that the
/// configuration error can be reported.
pub fn faulty_rules(doc: &FileBoundConfig, invoker: &User, action: &ExecutionAction) -> (r: Vec<usize>)
    ensures
        forall|k: int, l: int| 0 <= k < l < r@.len() ==> r@[k] < r@[l],
        forall|k: int| 0 <= k < r@.len() ==> (#[trigger] r@[k]) < doc.rules@.len()
            && is_faulty(doc.rules@[r@[k] as int], invoker.name@, action),
        forall|i: int| 0 <= i < doc.rules@.len() && is_faulty(doc.rules@[i], invoker.name@, action)
            ==> r@.contains(i as usize),
{
    let line = action.command_line();
    let mut r: Vec<usize> = Vec::new();
    let mut i: usize = 0;
    while i < doc.rules.len()
        invariant
            i <= doc.rules.len(),
            line matches Some(s) ==> action.line() == Some(s@),
            line is None ==> action.line() is None,
            forall|k: int, l: int| 0 <= k < l < r@.len() ==> r@[k] < r@[l],
            forall|k: int| 0 <= k < r@.len() ==> (#[trigger] r@[k]) < i
                && is_faulty(doc.rules@[r@[k] as int], invoker.name@, action),
            forall|j: int| 0 <= j < i && is_faulty(doc.rules@[j], invoker.name@, action)
                ==> r@.contains(j as usize),
        decreases doc.rules.len() - i,
    {
        let rule = &doc.rules[i];
        let mut bad = failed(&rule.invoker.0.check(&invoker.name));
        match (&rule.command, &line) {
            (Command::Specific(sel), Some(l)) => {
                if failed(&sel.check(l)) {
                    bad = true;
                }
            },
            _ => {},
        }
        assert(bad == is_faulty(doc.rules@[i as int], invoker.name@, action));
        if bad {
            let ghost old_r = r@;
            r.push(i);
            proof {
                assert forall|j: int| 0 <= j < i + 1 && is_faulty(doc.rules@[j], invoker.name@, action)
                    implies r@.contains(j as usize) by {
                    if j < i {
                        let k = choose|k: int| 0 <= k < old_r.len() && old_r[k] == j as usize;
                        assert(r@[k] == j as usize);
                    } else {
                        assert(r@[old_r.len() as int] == i);
                    }
                }
            }
        }
        i = i + 1;
    }
    r
}

/// The first rule in document order that applies decides the request, whatever the
/// rules after it say; no more specific later rule takes precedence.
pub proof fn lemma_first_rule_decides(
    doc: &FileBoundConfig,
    invoker: &User,
    target: &User,
    action: &ExecutionAction,
    d: &Decision,
    i: int,
)
    requires
        is_decision(doc.rules@, invoker, target, action, d),
        is_first_applicable(doc.rules@, i, invoker.name@, action),
    ensures
        doc.rules@[i].right.permits(target) ==> d.grants(doc.rules@[i]),
        !doc.rules@[i].right.permits(target) ==> d.is_denial(),
{
    lemma_first_unique(doc.rules@, i, invoker.name@, action);
}

/// A general rule (one that admits any action) placed first shadows every later rule
/// for the invokers it accepts, even a more specific one that would also apply.
pub proof fn lemma_general_rule_shadows(
    doc: &FileBoundConfig,
    invoker: &User,
    target: &User,
    action: &ExecutionAction,
    d: &Decision,
)
    requires
        doc.rules@.len() > 0,
        doc.rules@[0].invoker.0.accepts(invoker.name@),
        doc.rules@[0].command is Any,
        is_decision(doc.rules@, invoker, target, action, d),
    ensures
        doc.rules@[0].right.permits(target) ==> d.grants(doc.rules@[0]),
        !doc.rules@[0].right.permits(target) ==> d.is_denial(),
{
    assert(is_first_applicable(doc.rules@, 0, invoker.name@, action));
    lemma_first_unique(doc.rules@, 0, invoker.name@, action);
}

} // verus!
