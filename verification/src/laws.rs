//! What holds of every policy and every request, proved from the definitions
//! of the decision and of the state machine.

use crate::audit::AuditKind;
use crate::authorizer::{
    composed, decision, effective_arguments, verdict, OutcomeView, Request,
};
use crate::conf::{AllowlistEntry, Policy};
use crate::session::{transition, ActionView, EventView, PhaseView};
use vstd::prelude::*;

verus! {

/// The number of commands that `actions` asks to run.
pub open spec fn run_count(actions: Seq<ActionView>) -> nat
    decreases actions.len(),
{
    if actions.len() == 0 {
        0
    } else {
        run_count(actions.drop_last()) + if actions.last() is Run {
            1nat
        } else {
            0nat
        }
    }
}

/// The number of audit records that `actions` asks to append.
pub open spec fn record_count(actions: Seq<ActionView>) -> nat
    decreases actions.len(),
{
    if actions.len() == 0 {
        0
    } else {
        record_count(actions.drop_last()) + if actions.last() is Record {
            1nat
        } else {
            0nat
        }
    }
}

/// `policy` with the forced arguments of entry `j` replaced by `forced`.
pub open spec fn with_forced(policy: Policy, j: int, forced: Option<Seq<Seq<char>>>) -> Policy {
    Policy {
        allowed_commands: policy.allowed_commands.update(
            j,
            AllowlistEntry {
                executable: policy.allowed_commands[j].executable,
                force_arguments: forced,
            },
        ),
        ..policy
    }
}

/// Counting one action more.
proof fn lemma_count_push(actions: Seq<ActionView>, action: ActionView)
    ensures
        run_count(actions.push(action)) == run_count(actions) + if action is Run {
            1nat
        } else {
            0nat
        },
        record_count(actions.push(action)) == record_count(actions) + if action is Record {
            1nat
        } else {
            0nat
        },
{
    assert(actions.push(action).drop_last() =~= actions);
}

/// Where entry `i` of the allowlist names the resolved path of a request and
/// no entry before it does, the request is run, with the forced arguments of
/// that entry where it has any, and with its own arguments where it has none:
/// never with both.
pub proof fn law_first_match_governs(policy: Policy, request: Request, i: int)
    requires
        request.resolved_path.len() > 0,
        policy.governs(i, request.resolved_path),
    ensures
        verdict(policy, request) == (OutcomeView::Executed {
            command: composed(
                request.resolved_path,
                match policy.allowed_commands[i].force_arguments {
                    Some(forced) => forced,
                    None => request.arguments,
                },
            ),
        }),
{
    policy.lemma_first_match(request.resolved_path);
}

/// Under a policy with an empty allowlist every command line is denied,
/// whatever it holds and whatever its executable resolves to.
pub proof fn law_empty_allowlist_denies(policy: Policy, raw: Seq<char>, search_output: Seq<char>)
    requires
        policy.allowed_commands.len() == 0,
    ensures
        decision(policy, raw, search_output) == (OutcomeView::Denied { command: raw }),
{
}

/// A session that asked for no command, under a policy with a default
/// command, ends at once: the default command is run exactly once, the run is
/// recorded once as `ExecutedDefault` where the policy names a log file, and
/// the process ends with exit code 0.
pub proof fn law_default_runs_once(policy: Policy, command: Seq<char>)
    requires
        policy.default_command == Some(command),
    ensures
        ({
            let t = transition(policy, PhaseView::Start, EventView::Invoked { command: None });
            &&& t.next == PhaseView::Finished {
                outcome: OutcomeView::ExecutedDefault { command: command },
            }
            &&& run_count(t.actions) == 1
            &&& t.actions[0] == ActionView::Run { command: command }
            &&& t.actions.last() == ActionView::Exit { code: 0 }
            &&& policy.logging() ==> {
                &&& t.actions.len() == 3
                &&& record_count(t.actions) == 1
                &&& t.actions[1] == ActionView::Record {
                    kind: AuditKind::ExecutedDefault,
                    command: command,
                }
            }
            &&& !policy.logging() ==> {
                &&& t.actions.len() == 2
                &&& record_count(t.actions) == 0
            }
        }),
{
    let t = transition(policy, PhaseView::Start, EventView::Invoked { command: None });
    let run = ActionView::Run { command: command };
    let exit = ActionView::Exit { code: 0 };
    let none = Seq::<ActionView>::empty();
    lemma_count_push(none, run);
    if policy.logging() {
        let record = ActionView::Record { kind: AuditKind::ExecutedDefault, command: command };
        lemma_count_push(none.push(run), record);
        lemma_count_push(none.push(run).push(record), exit);
        assert(t.actions =~= none.push(run).push(record).push(exit));
    } else {
        lemma_count_push(none.push(run), exit);
    }
}

/// A session that asked for no command, under a policy without a default
/// command, ends at once with exit code 0: nothing is run and nothing is
/// recorded.
pub proof fn law_idle_without_default(policy: Policy)
    requires
        policy.default_command is None,
    ensures
        ({
            let t = transition(policy, PhaseView::Start, EventView::Invoked { command: None });
            &&& t.next == PhaseView::Finished { outcome: OutcomeView::NoCommandNoDefault }
            &&& t.actions == seq![ActionView::Exit { code: 0 }]
            &&& run_count(t.actions) == 0
            &&& record_count(t.actions) == 0
        }),
{
    let t = transition(policy, PhaseView::Start, EventView::Invoked { command: None });
    let exit = ActionView::Exit { code: 0 };
    lemma_count_push(Seq::<ActionView>::empty(), exit);
}

/// The order of the allowlist decides. Of two entries that name the resolved
/// path of a request, the later one never governs: the entry that does stands
/// at or before the earlier one, and the outcome is the same whatever the
/// later one forces. Where no entry stands before the earlier one that names
/// the path too, the earlier one decides the arguments.
pub proof fn law_earlier_entry_wins(policy: Policy, request: Request, i: int, j: int)
    requires
        0 <= i < j < policy.allowed_commands.len(),
        policy.allowed_commands[i].executable == request.resolved_path,
        policy.allowed_commands[j].executable == request.resolved_path,
    ensures
        policy.first_match(request.resolved_path) is Some,
        policy.first_match(request.resolved_path)->0 <= i,
        forall|forced: Option<Seq<Seq<char>>>|
            verdict(#[trigger] with_forced(policy, j, forced), request) == verdict(policy, request),
        request.resolved_path.len() > 0 && policy.governs(i, request.resolved_path) ==> verdict(
            policy,
            request,
        ) == (OutcomeView::Executed {
            command: composed(request.resolved_path, effective_arguments(policy, i, request)),
        }),
{
    let path = request.resolved_path;
    policy.lemma_first_match(path);
    let k = policy.first_match(path)->0;
    assert forall|forced: Option<Seq<Seq<char>>>|
        verdict(#[trigger] with_forced(policy, j, forced), request) == verdict(
            policy,
            request,
        ) by {
        let other = with_forced(policy, j, forced);
        assert(other.governs(k, path));
        other.lemma_first_match(path);
    }
}

/// A session that asked for the command line `raw` ends with the decision on
/// `raw`: at once where `raw` holds no token, else as soon as the search for
/// its first token has printed `search_output`.
pub proof fn law_session_ends_with_decision(
    policy: Policy,
    raw: Seq<char>,
    search_output: Seq<char>,
)
    ensures
        ({
            let first = transition(
                policy,
                PhaseView::Start,
                EventView::Invoked { command: Some(raw) },
            );
            let done = PhaseView::Finished { outcome: decision(policy, raw, search_output) };
            if first.next is Finished {
                first.next == done
            } else {
                transition(policy, first.next, EventView::Resolved { output: search_output }).next
                    == done
            }
        }),
{
}

/// A finished invocation stays finished: whatever is reported, the phase is
/// kept and nothing more is asked for.
pub proof fn law_finished_is_final(policy: Policy, outcome: OutcomeView, event: EventView)
    ensures
        transition(policy, PhaseView::Finished { outcome: outcome }, event).next
            == (PhaseView::Finished { outcome: outcome }),
        transition(policy, PhaseView::Finished { outcome: outcome }, event).actions
            == Seq::<ActionView>::empty(),
{
}

} // verus!
