//! Whole runs of a workflow: the requests that are made, in their order, and
//! the end, for any replies that the hosting service may give.

use vstd::prelude::*;

use crate::bitbucket::CallModel;
use crate::config::WorkflowModel;
use crate::executor::{config_failure_comment, ActionModel, ExecutorModel, PullRequestModel, StageModel};
use crate::outcome::{FailureModel, Outcome};
use crate::reply::{comment_result, file_result, task_result, ReplyModel};
use crate::selector::first_match;
use crate::text::short_name;

verus! {

/// What a run comes to: the requests that were made, in their order, and the
/// end, where the replies sufficed to reach it.
pub ghost struct Run {
    pub calls: Seq<CallModel>,
    pub end: Option<Result<Outcome, FailureModel>>,
}

/// The run of a workflow that stands at `executor` and has just named
/// `action`, where the replies to its requests are `replies`, in their order.
/// Each request is answered by the next reply, and the request after it is
/// the one that the workflow names on that reply.
pub open spec fn run_from(executor: ExecutorModel, action: ActionModel, replies: Seq<ReplyModel>) -> Run
    decreases replies.len(),
{
    match action {
        ActionModel::Finish(end) => Run { calls: Seq::empty(), end: Some(end) },
        ActionModel::Send(call) => if replies.len() == 0 {
            Run { calls: seq![call], end: None }
        } else {
            let next = executor.step(replies[0]);
            let rest = run_from(next.0, next.1, replies.skip(1));
            Run { calls: seq![call] + rest.calls, end: rest.end }
        },
    }
}

/// The run of the workflow of an opened pull request from its start.
pub open spec fn run(pull_request: PullRequestModel, bearer: Seq<char>, replies: Seq<ReplyModel>) -> Run {
    match pull_request.start(bearer) {
        Err(failure) => Run { calls: Seq::empty(), end: Some(Err(failure)) },
        Ok((executor, call)) => run_from(executor, ActionModel::Send(call), replies),
    }
}

/// How many replies at the head of `replies` say that a task was created.
pub open spec fn confirmed(replies: Seq<ReplyModel>) -> nat
    decreases replies.len(),
{
    if replies.len() > 0 && task_result(replies[0]) is Ok {
        1 + confirmed(replies.skip(1))
    } else {
        0
    }
}

/// The requests that post the tasks from place `from` up to, not including,
/// place `to`, in the order of the tasks.
pub open spec fn task_calls(
    executor: ExecutorModel,
    comment_id: int,
    tasks: Seq<Seq<char>>,
    from: int,
    to: int,
) -> Seq<CallModel> {
    Seq::new((to - from) as nat, |j: int| executor.task_call(comment_id, tasks[from + j]))
}

/// The end of the posting of `left` tasks under the given replies: the good
/// end where each task has its confirming reply, the failure of the first
/// reply that confirms none, and no end yet where the replies run out.
pub open spec fn tasks_end(left: int, replies: Seq<ReplyModel>) -> Option<Result<Outcome, FailureModel>> {
    let count = confirmed(replies);
    if count >= left {
        Some(Ok(Outcome::Success))
    } else if count < replies.len() {
        Some(Err(FailureModel::Remote(task_result(replies[count as int])->Err_0)))
    } else {
        None
    }
}

/// The smaller of two numbers.
pub open spec fn least(a: int, b: int) -> int {
    if a <= b {
        a
    } else {
        b
    }
}

/// The tasks of a rule are posted in their order, one after the reply to
/// the other, and the first reply that does not confirm its task is the end:
/// no task after it is posted. Where `done` tasks hang on the comment and
/// task `done` was posted, the requests of the run are those for the tasks
/// from `done` up to the first that is not confirmed, that one included.
pub proof fn tasks_run_in_order(
    executor: ExecutorModel,
    comment_id: int,
    tasks: Seq<Seq<char>>,
    done: int,
    replies: Seq<ReplyModel>,
)
    requires
        0 <= done < tasks.len(),
        executor.stage == (StageModel::AddingTasks { comment_id, tasks, done }),
    ensures
        run_from(executor, ActionModel::Send(executor.task_call(comment_id, tasks[done])), replies) == (Run {
            calls: task_calls(executor, comment_id, tasks, done, least(tasks.len() as int, done + confirmed(replies) + 1)),
            end: tasks_end(tasks.len() - done, replies),
        }),
    decreases replies.len(),
{
    let call = executor.task_call(comment_id, tasks[done]);
    let whole = run_from(executor, ActionModel::Send(call), replies);
    let to = least(tasks.len() as int, done + confirmed(replies) + 1);
    if replies.len() == 0 {
        assert(whole.calls =~= task_calls(executor, comment_id, tasks, done, to));
    } else {
        let next = executor.step(replies[0]);
        let rest = run_from(next.0, next.1, replies.skip(1));
        if task_result(replies[0]) is Ok && done + 1 < tasks.len() {
            assert(next.0.task_call(comment_id, tasks[done + 1]) == executor.task_call(comment_id, tasks[done + 1]));
            tasks_run_in_order(next.0, comment_id, tasks, done + 1, replies.skip(1));
            assert(forall|j: int| next.0.task_call(comment_id, tasks[j]) == executor.task_call(comment_id, tasks[j]));
            assert(rest.calls =~= task_calls(executor, comment_id, tasks, done + 1, to));
            assert(whole.calls =~= task_calls(executor, comment_id, tasks, done, to));
            let count = confirmed(replies);
            let rest_count = confirmed(replies.skip(1));
            assert(count == rest_count + 1);
            if rest_count < replies.skip(1).len() {
                assert(replies.skip(1)[rest_count as int] == replies[count as int]);
            }
        } else {
            assert(rest.calls =~= Seq::<CallModel>::empty());
            assert(whole.calls =~= task_calls(executor, comment_id, tasks, done, to));
        }
    }
}

/// The rules that the first reply of a run brings, or the detail of why it
/// brings none. The first request of a run is the reading of the rules.
pub open spec fn rules_read(
    pull_request: PullRequestModel,
    bearer: Seq<char>,
    replies: Seq<ReplyModel>,
) -> Result<Seq<WorkflowModel>, Seq<char>> {
    file_result(pull_request.start(bearer)->Ok_0.1->GetRawFile_url, replies[0])
}

/// Whether a run comes to the work of rule `i`: the workflow starts, the
/// rules are had, rule `i` is the first of them that names the merge, and
/// its comment is created.
pub open spec fn runs_rule(
    pull_request: PullRequestModel,
    bearer: Seq<char>,
    replies: Seq<ReplyModel>,
    i: int,
) -> bool {
    &&& pull_request.start(bearer) is Ok
    &&& replies.len() > 1
    &&& rules_read(pull_request, bearer, replies) is Ok
    &&& first_match(
        rules_read(pull_request, bearer, replies)->Ok_0,
        short_name(pull_request.from_ref),
        short_name(pull_request.to_ref),
    ) == Some(i)
    &&& comment_result(replies[1]) is Ok
}

/// Where no rule names the merge, the workflow ends with nothing written: the
/// one request of the run is the reading of the rules, and the end is the
/// outcome that tells of no workflow.
pub proof fn no_rule_writes_nothing(pull_request: PullRequestModel, bearer: Seq<char>, replies: Seq<ReplyModel>)
    requires
        pull_request.start(bearer) is Ok,
        replies.len() > 0,
        rules_read(pull_request, bearer, replies) is Ok,
        first_match(
            rules_read(pull_request, bearer, replies)->Ok_0,
            short_name(pull_request.from_ref),
            short_name(pull_request.to_ref),
        ) is None,
    ensures
        run(pull_request, bearer, replies) == (Run {
            calls: seq![pull_request.start(bearer)->Ok_0.1],
            end: Some(Ok(Outcome::NoWorkflow)),
        }),
        pull_request.start(bearer)->Ok_0.1 is GetRawFile,
{
    let started = pull_request.start(bearer)->Ok_0;
    let next = started.0.step(replies[0]);
    let rest = run_from(next.0, next.1, replies.skip(1));
    assert(rest.calls =~= Seq::<CallModel>::empty());
    assert(run(pull_request, bearer, replies).calls =~= seq![started.1]);
}

/// Where the rules cannot be had, one comment that tells of the failure is
/// posted, with the failure's detail in it, and nothing else is written:
/// the requests of the run are the reading of the rules and that comment.
/// The end is the failure to have the rules where the comment was created,
/// and the failure of the comment where it was not.
pub proof fn failed_rules_are_told_once(pull_request: PullRequestModel, bearer: Seq<char>, replies: Seq<ReplyModel>)
    requires
        pull_request.start(bearer) is Ok,
        replies.len() > 1,
        rules_read(pull_request, bearer, replies) is Err,
    ensures
        ({
            let started = pull_request.start(bearer)->Ok_0;
            let detail = rules_read(pull_request, bearer, replies)->Err_0;
            run(pull_request, bearer, replies) == (Run {
                calls: seq![started.1, started.0.comment_call(config_failure_comment(detail))],
                end: Some(
                    match comment_result(replies[1]) {
                        Ok(_) => Err(FailureModel::Config(detail)),
                        Err(second) => Err(FailureModel::Remote(second)),
                    },
                ),
            })
        }),
{
    let started = pull_request.start(bearer)->Ok_0;
    let detail = rules_read(pull_request, bearer, replies)->Err_0;
    let first = started.0.step(replies[0]);
    let second = first.0.step(replies.skip(1)[0]);
    let tail = run_from(second.0, second.1, replies.skip(1).skip(1));
    assert(replies.skip(1)[0] == replies[1]);
    assert(tail.calls =~= Seq::<CallModel>::empty());
    let middle = run_from(first.0, first.1, replies.skip(1));
    assert(middle.calls =~= seq![started.0.comment_call(config_failure_comment(detail))]);
    assert(run(pull_request, bearer, replies).calls =~= seq![
        started.1,
        started.0.comment_call(config_failure_comment(detail)),
    ]);
}

/// The run of a rule that names the merge: after the reading of the rules,
/// the rule's comment is posted, once and before any task; then the rule's
/// tasks are posted on that comment, in the order of the rule, each after
/// the reply to the one before, up to the first that is not confirmed.
pub proof fn rule_runs_in_order(
    pull_request: PullRequestModel,
    bearer: Seq<char>,
    replies: Seq<ReplyModel>,
    i: int,
)
    requires
        runs_rule(pull_request, bearer, replies, i),
    ensures
        ({
            let started = pull_request.start(bearer)->Ok_0;
            let rule = rules_read(pull_request, bearer, replies)->Ok_0[i];
            let comment_id = comment_result(replies[1])->Ok_0;
            let posted = least(rule.tasks.len() as int, confirmed(replies.skip(2)) as int + 1);
            run(pull_request, bearer, replies) == (Run {
                calls: seq![started.1, started.0.comment_call(rule.comment)] + task_calls(
                    started.0,
                    comment_id,
                    rule.tasks,
                    0,
                    posted,
                ),
                end: tasks_end(rule.tasks.len() as int, replies.skip(2)),
            })
        }),
{
    let started = pull_request.start(bearer)->Ok_0;
    let rule = rules_read(pull_request, bearer, replies)->Ok_0[i];
    let comment_id = comment_result(replies[1])->Ok_0;
    let posted = least(rule.tasks.len() as int, confirmed(replies.skip(2)) as int + 1);
    let first = started.0.step(replies[0]);
    let second = first.0.step(replies.skip(1)[0]);
    assert(replies.skip(1)[0] == replies[1]);
    assert(replies.skip(1).skip(1) =~= replies.skip(2));
    let tail = run_from(second.0, second.1, replies.skip(2));
    if rule.tasks.len() > 0 {
        tasks_run_in_order(second.0, comment_id, rule.tasks, 0, replies.skip(2));
        assert(forall|j: int|
            second.0.task_call(comment_id, rule.tasks[j]) == started.0.task_call(comment_id, rule.tasks[j]));
    }
    assert(tail.calls =~= task_calls(started.0, comment_id, rule.tasks, 0, posted));
    let middle = run_from(first.0, first.1, replies.skip(1));
    assert(middle.calls =~= seq![started.0.comment_call(rule.comment)] + tail.calls);
    assert(run(pull_request, bearer, replies).calls =~= seq![started.1, started.0.comment_call(rule.comment)]
        + task_calls(started.0, comment_id, rule.tasks, 0, posted));
}

/// Where every task of the rule is confirmed, the run ends well, and its
/// requests are the reading of the rules, the comment, and all the tasks in
/// the order of the rule.
pub proof fn confirmed_rule_succeeds(
    pull_request: PullRequestModel,
    bearer: Seq<char>,
    replies: Seq<ReplyModel>,
    i: int,
)
    requires
        runs_rule(pull_request, bearer, replies, i),
        confirmed(replies.skip(2)) >= rules_read(pull_request, bearer, replies)->Ok_0[i].tasks.len(),
    ensures
        ({
            let started = pull_request.start(bearer)->Ok_0;
            let rule = rules_read(pull_request, bearer, replies)->Ok_0[i];
            let comment_id = comment_result(replies[1])->Ok_0;
            run(pull_request, bearer, replies) == (Run {
                calls: seq![started.1, started.0.comment_call(rule.comment)] + task_calls(
                    started.0,
                    comment_id,
                    rule.tasks,
                    0,
                    rule.tasks.len() as int,
                ),
                end: Some(Ok(Outcome::Success)),
            })
        }),
{
    rule_runs_in_order(pull_request, bearer, replies, i);
}

/// Where the task at place `k` of the rule is the first that is not
/// confirmed, the tasks after it are not posted: the run has one request for
/// each task up to and including place `k`, none for a later one, and it
/// ends as the failure that the reply to task `k` tells of.
pub proof fn failed_task_stops_the_run(
    pull_request: PullRequestModel,
    bearer: Seq<char>,
    replies: Seq<ReplyModel>,
    i: int,
    k: int,
)
    requires
        runs_rule(pull_request, bearer, replies, i),
        0 <= k < rules_read(pull_request, bearer, replies)->Ok_0[i].tasks.len(),
        replies.len() > 2 + k,
        confirmed(replies.skip(2)) == k,
    ensures
        ({
            let started = pull_request.start(bearer)->Ok_0;
            let rule = rules_read(pull_request, bearer, replies)->Ok_0[i];
            let comment_id = comment_result(replies[1])->Ok_0;
            &&& task_result(replies[2 + k]) is Err
            &&& run(pull_request, bearer, replies) == (Run {
                calls: seq![started.1, started.0.comment_call(rule.comment)] + task_calls(
                    started.0,
                    comment_id,
                    rule.tasks,
                    0,
                    k + 1,
                ),
                end: Some(Err(FailureModel::Remote(task_result(replies[2 + k])->Err_0))),
            })
        }),
{
    rule_runs_in_order(pull_request, bearer, replies, i);
    assert(replies.skip(2)[k] == replies[2 + k]);
    confirmed_stops_at_a_failure(replies.skip(2));
}

proof fn confirmed_stops_at_a_failure(replies: Seq<ReplyModel>)
    ensures
        confirmed(replies) <= replies.len(),
        confirmed(replies) < replies.len() ==> task_result(replies[confirmed(replies) as int]) is Err,
    decreases replies.len(),
{
    if replies.len() > 0 && task_result(replies[0]) is Ok {
        confirmed_stops_at_a_failure(replies.skip(1));
        let rest = confirmed(replies.skip(1));
        if rest < replies.skip(1).len() {
            assert(replies.skip(1)[rest as int] == replies[rest as int + 1]);
        }
    }
}

} // verus!
