//! One invocation of the gatekeeper as a state machine. The caller reports
//! what happened as an `Event`; `step` answers with the next `Phase` and the
//! `Action`s to perform, in order. An invocation starts in `Phase::Start` and
//! is over in `Phase::Finished`.

use crate::audit::AuditKind;
use crate::authorizer::{decide, decision, idle_outcome, Outcome, OutcomeView};
use crate::conf::{Config, Policy};
use crate::text::{split_whitespace, tokens};
use vstd::prelude::*;

verus! {

/// Where an invocation stands.
#[derive(Clone, Debug, PartialEq, Eq)]
pub enum Phase {
    /// Nothing has happened yet.
    Start,
    /// The command line `raw` was asked for, and the path of its executable
    /// is being searched.
    Resolving { raw: String },
    /// The invocation is over.
    Finished { outcome: Outcome },
}

/// What the caller reports.
#[derive(Clone, Debug, PartialEq, Eq)]
pub enum Event {
    /// The session began. `command` is the command line it asked for, absent
    /// where it asked for none.
    Invoked { command: Option<String> },
    /// The search for the executable ended and printed `output`: the path it
    /// found, or nothing.
    Resolved { output: String },
}

/// What the caller is asked to do.
#[derive(Clone, Debug, PartialEq, Eq)]
pub enum Action {
    /// Append an audit record of this kind about `command` to the log.
    Record { kind: AuditKind, command: String },
    /// Search the path of `executable`, and report what the search printed.
    Resolve { executable: String },
    /// Run the command line, and wait until it has ended.
    Run { command: String },
    /// Tell the user `message`.
    Notify { message: String },
    /// End the process with this exit code.
    Exit { code: i32 },
}

/// The answer of `step`.
#[derive(Clone, Debug, PartialEq, Eq)]
pub struct Transition {
    /// The phase the invocation is in from now on.
    pub next: Phase,
    /// What to do, in this order.
    pub actions: Vec<Action>,
}

/// A `Phase`, as plain text.
pub enum PhaseView {
    Start,
    Resolving { raw: Seq<char> },
    Finished { outcome: OutcomeView },
}

/// An `Event`, as plain text.
pub enum EventView {
    Invoked { command: Option<Seq<char>> },
    Resolved { output: Seq<char> },
}

/// An `Action`, as plain text.
pub enum ActionView {
    Record { kind: AuditKind, command: Seq<char> },
    Resolve { executable: Seq<char> },
    Run { command: Seq<char> },
    Notify { message: Seq<char> },
    Exit { code: i32 },
}

/// A `Transition`, as plain text.
pub struct TransitionView {
    pub next: PhaseView,
    pub actions: Seq<ActionView>,
}

impl View for Phase {
    type V = PhaseView;

    open spec fn view(&self) -> PhaseView {
        match self {
            Phase::Start => PhaseView::Start,
            Phase::Resolving { raw } => PhaseView::Resolving { raw: raw@ },
            Phase::Finished { outcome } => PhaseView::Finished { outcome: outcome@ },
        }
    }
}

impl View for Event {
    type V = EventView;

    open spec fn view(&self) -> EventView {
        match self {
            Event::Invoked { command } => EventView::Invoked {
                command: match command {
                    Some(raw) => Some(raw@),
                    None => None,
                },
            },
            Event::Resolved { output } => EventView::Resolved { output: output@ },
        }
    }
}

impl View for Action {
    type V = ActionView;

    open spec fn view(&self) -> ActionView {
        match self {
            Action::Record { kind, command } => ActionView::Record {
                kind: *kind,
                command: command@,
            },
            Action::Resolve { executable } => ActionView::Resolve { executable: executable@ },
            Action::Run { command } => ActionView::Run { command: command@ },
            Action::Notify { message } => ActionView::Notify { message: message@ },
            Action::Exit { code } => ActionView::Exit { code: *code },
        }
    }
}

/// The actions of a list, as plain text.
pub open spec fn actions_view(actions: Seq<Action>) -> Seq<ActionView> {
    Seq::new(actions.len(), |i: int| actions[i]@)
}

impl View for Transition {
    type V = TransitionView;

    open spec fn view(&self) -> TransitionView {
        TransitionView { next: self.next@, actions: actions_view(self.actions@) }
    }
}

/// The record of `kind` about `command`: one action where the policy names a
/// log file, none where it does not.
pub open spec fn recorded(policy: Policy, kind: AuditKind, command: Seq<char>) -> Seq<ActionView> {
    if policy.logging() {
        seq![ActionView::Record { kind: kind, command: command }]
    } else {
        Seq::empty()
    }
}

/// What the user is told where a request is denied.
pub open spec fn denial_notice() -> Seq<char> {
    "Access denied"@
}

/// The actions that carry out `outcome` and end the process. A command is run
/// before it is recorded; a denial is recorded before the user is told.
pub open spec fn conclusion(policy: Policy, outcome: OutcomeView) -> Seq<ActionView> {
    match outcome {
        OutcomeView::NoCommandNoDefault => seq![ActionView::Exit { code: 0 }],
        OutcomeView::ExecutedDefault { command } => seq![ActionView::Run { command: command }]
            + recorded(policy, AuditKind::ExecutedDefault, command) + seq![
            ActionView::Exit { code: 0 },
        ],
        OutcomeView::Executed { command } => seq![ActionView::Run { command: command }] + recorded(
            policy,
            AuditKind::Executed,
            command,
        ) + seq![ActionView::Exit { code: 0 }],
        OutcomeView::Denied { command } => recorded(policy, AuditKind::Denied, command) + seq![
            ActionView::Notify { message: denial_notice() },
            ActionView::Exit { code: 0 },
        ],
    }
}

/// The transition that ends the invocation with `outcome`, after the actions
/// of `before`.
pub open spec fn finish(
    policy: Policy,
    before: Seq<ActionView>,
    outcome: OutcomeView,
) -> TransitionView {
    TransitionView {
        next: PhaseView::Finished { outcome: outcome },
        actions: before + conclusion(policy, outcome),
    }
}

/// What happens in `phase` on `event` under `policy`.
///
/// At the start, a session without a command ends at once, after the default
/// command where the policy has one. A session with a command has the
/// attempt recorded first. A command line without a token is then denied;
/// for any other the path of its first token is searched. Once the search
/// has ended, the decision is made and carried out. An event that does not
/// belong to the phase changes nothing and asks for nothing.
pub open spec fn transition(policy: Policy, phase: PhaseView, event: EventView) -> TransitionView {
    match (phase, event) {
        (PhaseView::Start, EventView::Invoked { command: None }) => finish(
            policy,
            Seq::empty(),
            idle_outcome(policy),
        ),
        (PhaseView::Start, EventView::Invoked { command: Some(raw) }) => {
            let attempt = recorded(policy, AuditKind::Attempted, raw);
            if tokens(raw).len() == 0 {
                finish(policy, attempt, OutcomeView::Denied { command: raw })
            } else {
                TransitionView {
                    next: PhaseView::Resolving { raw: raw },
                    actions: attempt + seq![ActionView::Resolve { executable: tokens(raw)[0] }],
                }
            }
        },
        (PhaseView::Resolving { raw }, EventView::Resolved { output }) => finish(
            policy,
            Seq::empty(),
            decision(policy, raw, output),
        ),
        _ => TransitionView { next: phase, actions: Seq::empty() },
    }
}

/// Adds the record of `kind` about `command` to `actions`, where the policy
/// names a log file.
fn record(config: &Config, actions: &mut Vec<Action>, kind: AuditKind, command: &String)
    ensures
        actions_view(final(actions)@) == actions_view(old(actions)@) + recorded(
            config@,
            kind,
            command@,
        ),
{
    if config.log_file.is_some() {
        actions.push(Action::Record { kind, command: command.clone() });
    }
}

/// Adds `action` to `actions`.
fn push(actions: &mut Vec<Action>, action: Action)
    ensures
        actions_view(final(actions)@) == actions_view(old(actions)@) + seq![action@],
{
    actions.push(action);
}

/// Ends the invocation with `outcome`, after the actions of `actions`.
fn conclude(config: &Config, actions: Vec<Action>, outcome: Outcome) -> (t: Transition)
    ensures
        t@ == finish(config@, actions_view(actions@), outcome@),
{
    let mut actions = actions;
    let ghost before = actions_view(actions@);
    match &outcome {
        Outcome::NoCommandNoDefault => {},
        Outcome::ExecutedDefault { command } => {
            push(&mut actions, Action::Run { command: command.clone() });
            record(config, &mut actions, AuditKind::ExecutedDefault, command);
        },
        Outcome::Executed { command } => {
            push(&mut actions, Action::Run { command: command.clone() });
            record(config, &mut actions, AuditKind::Executed, command);
        },
        Outcome::Denied { command } => {
            record(config, &mut actions, AuditKind::Denied, command);
            push(&mut actions, Action::Notify { message: "Access denied".to_owned() });
        },
    }
    push(&mut actions, Action::Exit { code: 0 });
    assert(actions_view(actions@) =~= before + conclusion(config@, outcome@));
    Transition { next: Phase::Finished { outcome }, actions }
}

/// Takes one step of an invocation: what happens in `phase` on `event` under
/// the policy `config`.
pub fn step(config: &Config, phase: Phase, event: Event) -> (t: Transition)
    ensures
        t@ == transition(config@, phase@, event@),
{
    let ghost expected = transition(config@, phase@, event@);
    let t = match (phase, event) {
        (Phase::Start, Event::Invoked { command: None }) => {
            let outcome = match &config.default_command {
                Some(command) => Outcome::ExecutedDefault { command: command.clone() },
                None => Outcome::NoCommandNoDefault,
            };
            conclude(config, Vec::new(), outcome)
        },
        (Phase::Start, Event::Invoked { command: Some(raw) }) => {
            let mut actions: Vec<Action> = Vec::new();
            record(config, &mut actions, AuditKind::Attempted, &raw);
            let words = split_whitespace(raw.as_str());
            if words.len() == 0 {
                conclude(config, actions, Outcome::Denied { command: raw })
            } else {
                push(&mut actions, Action::Resolve { executable: words[0].clone() });
                Transition { next: Phase::Resolving { raw }, actions }
            }
        },
        (Phase::Resolving { raw }, Event::Resolved { output }) => {
            let outcome = decide(config, raw.as_str(), output.as_str());
            conclude(config, Vec::new(), outcome)
        },
        (phase, _) => Transition { next: phase, actions: Vec::new() },
    };
    assert(t@.actions =~= expected.actions);
    t
}

} // verus!
