//! The authorization decision: from the command a session asked for and the
//! policy to exactly one outcome, and the steps that carry it out.
//!
//! The decision needs one answer from outside, the path that the requested
//! executable resolves to, and leaves running commands and writing the log to
//! its caller. So it is a state machine: `step` takes the phase an invocation
//! is in and the event that occurred, and returns the next phase and the
//! actions to perform, in order.

use crate::audit::AuditKind;
use crate::conf::{Config, Policy};
use crate::text::{join, joined, split_whitespace, tokens, trim, trimmed};
use vstd::prelude::*;

verus! {

/// The command a session asked for, taken apart.
#[derive(Clone, Debug, PartialEq, Eq)]
pub struct RequestedCommand {
    /// The command line as it was received.
    pub raw: String,
    /// The first token of `raw`.
    pub executable_token: String,
    /// The tokens of `raw` after the first.
    pub arguments: Vec<String>,
    /// The path that `executable_token` resolves to on the search path.
    /// Empty where it resolves to nothing.
    pub resolved_path: String,
}

/// What a `RequestedCommand` holds, as plain text.
pub struct Request {
    pub raw: Seq<char>,
    pub executable_token: Seq<char>,
    pub arguments: Seq<Seq<char>>,
    pub resolved_path: Seq<char>,
}

impl View for RequestedCommand {
    type V = Request;

    open spec fn view(&self) -> Request {
        Request {
            raw: self.raw@,
            executable_token: self.executable_token@,
            arguments: self.arguments.deep_view(),
            resolved_path: self.resolved_path@,
        }
    }
}

impl Request {
    /// The request that the command line `raw` makes, where the search for
    /// its executable printed `search_output`. A command line without a token
    /// makes no request.
    pub open spec fn parsed(raw: Seq<char>, search_output: Seq<char>) -> Option<Request> {
        if tokens(raw).len() == 0 {
            None
        } else {
            Some(
                Request {
                    raw: raw,
                    executable_token: tokens(raw)[0],
                    arguments: tokens(raw).drop_first(),
                    resolved_path: trimmed(search_output),
                },
            )
        }
    }
}

/// How an invocation ended.
#[derive(Clone, Debug, PartialEq, Eq)]
pub enum Outcome {
    /// No command was asked for and the policy has no default command.
    NoCommandNoDefault,
    /// No command was asked for, and the default command was run.
    ExecutedDefault { command: String },
    /// The request matched the allowlist, and `command` was run.
    Executed { command: String },
    /// The request `command` was refused.
    Denied { command: String },
}

/// An `Outcome`, as plain text.
pub enum OutcomeView {
    NoCommandNoDefault,
    ExecutedDefault { command: Seq<char> },
    Executed { command: Seq<char> },
    Denied { command: Seq<char> },
}

impl View for Outcome {
    type V = OutcomeView;

    open spec fn view(&self) -> OutcomeView {
        match self {
            Outcome::NoCommandNoDefault => OutcomeView::NoCommandNoDefault,
            Outcome::ExecutedDefault { command } => OutcomeView::ExecutedDefault {
                command: command@,
            },
            Outcome::Executed { command } => OutcomeView::Executed { command: command@ },
            Outcome::Denied { command } => OutcomeView::Denied { command: command@ },
        }
    }
}

/// The command line that runs `path` with `arguments`: the path, a space, and
/// the arguments with a space between each two.
pub open spec fn composed(path: Seq<char>, arguments: Seq<Seq<char>>) -> Seq<char> {
    path + seq![' '] + joined(arguments, seq![' '])
}

/// The arguments that `request` is run with under entry `i` of the allowlist:
/// the entry's forced arguments where it has any, else those of the request.
pub open spec fn effective_arguments(policy: Policy, i: int, request: Request) -> Seq<Seq<char>> {
    match policy.allowed_commands[i].force_arguments {
        Some(forced) => forced,
        None => request.arguments,
    }
}

/// The outcome of `request` under `policy`. A request whose executable
/// resolved to nothing is denied. Otherwise the first entry of the allowlist
/// that names the resolved path decides the arguments, and the request is
/// denied where no entry names it.
pub open spec fn verdict(policy: Policy, request: Request) -> OutcomeView {
    if request.resolved_path.len() == 0 {
        OutcomeView::Denied { command: request.raw }
    } else {
        match policy.first_match(request.resolved_path) {
            Some(i) => OutcomeView::Executed {
                command: composed(request.resolved_path, effective_arguments(policy, i, request)),
            },
            None => OutcomeView::Denied { command: request.raw },
        }
    }
}

/// The outcome of the command line `raw` under `policy`, where the search for
/// its executable printed `search_output`. A command line without a token is
/// denied.
pub open spec fn decision(policy: Policy, raw: Seq<char>, search_output: Seq<char>) -> OutcomeView {
    match Request::parsed(raw, search_output) {
        Some(request) => verdict(policy, request),
        None => OutcomeView::Denied { command: raw },
    }
}

/// The outcome of a session that asked for no command: the default command
/// is run where the policy has one.
pub open spec fn idle_outcome(policy: Policy) -> OutcomeView {
    match policy.default_command {
        Some(command) => OutcomeView::ExecutedDefault { command: command },
        None => OutcomeView::NoCommandNoDefault,
    }
}

impl RequestedCommand {
    /// Takes the command line `raw` apart, and takes as its resolved path
    /// `search_output` without the white space around it. Returns `None`
    /// where `raw` holds no token.
    pub fn parse(raw: &str, search_output: &str) -> (request: Option<RequestedCommand>)
        ensures
            match request {
                Some(r) => Request::parsed(raw@, search_output@) == Some(r@),
                None => Request::parsed(raw@, search_output@) is None,
            },
    {
        let mut words = split_whitespace(raw);
        if words.len() == 0 {
            return None;
        }
        let ghost all = words.deep_view();
        let executable_token = words.remove(0);
        assert(words.deep_view() =~= all.drop_first());
        Some(
            RequestedCommand {
                raw: raw.to_owned(),
                executable_token,
                arguments: words,
                resolved_path: trim(search_output),
            },
        )
    }
}

/// The command line that runs `path` with `arguments`.
pub fn compose(path: &str, arguments: &Vec<String>) -> (command: String)
    ensures
        command@ == composed(path@, arguments.deep_view()),
{
    let mut command = path.to_owned();
    proof {
        reveal_strlit(" ");
        assert(" "@ =~= seq![' ']);
    }
    command.append(" ");
    let list = join(arguments, " ");
    command.append(list.as_str());
    command
}

/// Decides `request` under the policy `config`.
pub fn authorize(config: &Config, request: &RequestedCommand) -> (outcome: Outcome)
    ensures
        outcome@ == verdict(config@, request@),
{
    if request.resolved_path.as_str().is_empty() {
        return Outcome::Denied { command: request.raw.clone() };
    }
    match config.first_match(&request.resolved_path) {
        Some(i) => {
            proof {
                config@.lemma_first_match(request@.resolved_path);
            }
            let command = match &config.allowed_commands[i].force_arguments {
                Some(forced) => compose(request.resolved_path.as_str(), forced),
                None => compose(request.resolved_path.as_str(), &request.arguments),
            };
            Outcome::Executed { command }
        },
        None => Outcome::Denied { command: request.raw.clone() },
    }
}

/// Decides the command line `raw` under the policy `config`, where the search
/// for its executable printed `search_output`.
pub fn decide(config: &Config, raw: &str, search_output: &str) -> (outcome: Outcome)
    ensures
        outcome@ == decision(config@, raw@, search_output@),
{
    match RequestedCommand::parse(raw, search_output) {
        Some(request) => authorize(config, &request),
        None => Outcome::Denied { command: raw.to_owned() },
    }
}

impl Outcome {
    /// The exit code of the gatekeeper after this outcome. Every outcome of
    /// an authorization, a denial too, ends the process with 0.
    pub fn exit_code(&self) -> (code: i32)
        ensures
            code == 0,
    {
        0
    }
}

} // verus!
