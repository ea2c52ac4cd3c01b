//! The executor's decision: from a parsed command to a process plan.
//!
//! A single invocation is first offered to the builtin dispatcher; if it is
//! no builtin it becomes one spawn with its redirections. A pipeline
//! becomes one spawn per stage, each stage after the first reading from the
//! previous stage's pipe and each stage but the last writing into a fresh
//! pipe. The surrounding program carries the plan out and reports the exit
//! statuses back: a single command's through `status_outcome`, a pipeline's
//! through `pipeline_outcome` once every child has been waited on.

pub mod pipeline;

use crate::builtins::{spec_handle, BuiltinAction, HandleV};
use crate::digits::{push_u64_digits, spec_i32_digits};
use crate::error::{ShellError, ShellErrorV};
use crate::parser::ast::{
    duplicate_redirections, duplicate_strings, Command, CommandV, Redirection, RedirectionV,
    SimpleCommand, SimpleCommandV,
};
use crate::shell::ShellSignal;
use crate::strutil::push_char;
use vstd::prelude::*;

verus! {

/// The plan for one spawned process: the program, its arguments, its own
/// redirections in order, and whether its standard input comes from the
/// previous stage's pipe and its standard output feeds a new pipe. A
/// stage's own redirection overrides the pipe it would otherwise use.
pub struct StagePlan {
    pub program: String,
    pub args: Vec<String>,
    pub redirections: Vec<Redirection>,
    pub stdin_from_pipe: bool,
    pub stdout_to_pipe: bool,
}

/// Mathematical model of a stage plan.
#[verifier::ext_equal]
pub struct StagePlanV {
    pub program: Seq<char>,
    pub args: Seq<Seq<char>>,
    pub redirections: Seq<RedirectionV>,
    pub stdin_from_pipe: bool,
    pub stdout_to_pipe: bool,
}

impl View for StagePlan {
    type V = StagePlanV;

    open spec fn view(&self) -> StagePlanV {
        StagePlanV {
            program: self.program@,
            args: self.args.deep_view(),
            redirections: self.redirections.deep_view(),
            stdin_from_pipe: self.stdin_from_pipe,
            stdout_to_pipe: self.stdout_to_pipe,
        }
    }
}

impl DeepView for StagePlan {
    type V = StagePlanV;

    open spec fn deep_view(&self) -> StagePlanV {
        self.view()
    }
}

/// The executor's decision for one command: a builtin action, one external
/// spawn, or a pipeline of spawns.
pub enum ExecPlan {
    Builtin(BuiltinAction),
    Single(StagePlan),
    Pipeline(Vec<StagePlan>),
}

/// Mathematical model of an execution plan.
#[verifier::ext_equal]
pub enum ExecPlanV {
    Builtin(crate::builtins::BuiltinActionV),
    Single(StagePlanV),
    Pipeline(Seq<StagePlanV>),
}

impl View for ExecPlan {
    type V = ExecPlanV;

    open spec fn view(&self) -> ExecPlanV {
        match self {
            ExecPlan::Builtin(a) => ExecPlanV::Builtin(a@),
            ExecPlan::Single(p) => ExecPlanV::Single(p@),
            ExecPlan::Pipeline(ps) => ExecPlanV::Pipeline(ps.deep_view()),
        }
    }
}

/// Outcome of the executor's decision: a plan, or an error already known
/// before anything runs.
pub enum ExecOutcomeV {
    Plan(ExecPlanV),
    Fail(ShellErrorV),
}

/// The plan for one invocation as a stage: its pipe wiring is given by its
/// position, its redirections are its own.
pub open spec fn spec_stage_plan(c: SimpleCommandV, stdin_from_pipe: bool, stdout_to_pipe: bool)
    -> StagePlanV {
    StagePlanV {
        program: c.program,
        args: c.args,
        redirections: c.redirections,
        stdin_from_pipe,
        stdout_to_pipe,
    }
}

/// The plans of a pipeline: stage `i` reads from the pipe before it unless
/// it is first, and writes into a new pipe unless it is last.
pub open spec fn spec_pipeline_plans(cs: Seq<SimpleCommandV>) -> Seq<StagePlanV> {
    Seq::new(cs.len(), |i: int| spec_stage_plan(cs[i], i > 0, i < cs.len() - 1))
}

/// The executor's decision. A single invocation goes to the builtin
/// dispatcher first and otherwise becomes one spawn; a pipeline becomes
/// one spawn per stage, and its stages are never offered to the builtin
/// dispatcher.
pub open spec fn spec_execute(c: CommandV, home: Option<Seq<char>>) -> ExecOutcomeV {
    match c {
        CommandV::Simple(sc) => match spec_handle(sc, home) {
            HandleV::NotBuiltin => ExecOutcomeV::Plan(
                ExecPlanV::Single(spec_stage_plan(sc, false, false)),
            ),
            HandleV::Act(a) => ExecOutcomeV::Plan(ExecPlanV::Builtin(a)),
            HandleV::Fail(m) => ExecOutcomeV::Fail(ShellErrorV::Builtin(m)),
        },
        CommandV::Pipeline(cs) => ExecOutcomeV::Plan(ExecPlanV::Pipeline(spec_pipeline_plans(cs))),
    }
}

/// Builds the stage plan of one invocation.
fn stage_plan(c: &SimpleCommand, stdin_from_pipe: bool, stdout_to_pipe: bool) -> (r: StagePlan)
    ensures
        r@ == spec_stage_plan(c@, stdin_from_pipe, stdout_to_pipe),
{
    let r = StagePlan {
        program: c.program.clone(),
        args: duplicate_strings(&c.args),
        redirections: duplicate_redirections(&c.redirections),
        stdin_from_pipe,
        stdout_to_pipe,
    };
    proof {
        assert(r@ =~= spec_stage_plan(c@, stdin_from_pipe, stdout_to_pipe));
    }
    r
}

/// Builds the stage plans of a pipeline.
pub fn pipeline_plans(stages: &Vec<SimpleCommand>) -> (plans: Vec<StagePlan>)
    ensures
        plans.deep_view() == spec_pipeline_plans(stages.deep_view()),
{
    let n = stages.len();
    let mut plans: Vec<StagePlan> = Vec::new();
    let mut i: usize = 0;
    while i < n
        invariant
            i <= n,
            n == stages.len(),
            plans.deep_view() == spec_pipeline_plans(stages.deep_view()).take(i as int),
        decreases n - i,
    {
        let ghost pre = plans.deep_view();
        let p = stage_plan(&stages[i], i > 0, i + 1 < n);
        plans.push(p);
        proof {
            assert(stages[i as int]@ == stages.deep_view()[i as int]);
            assert(plans.deep_view() =~= pre.push(
                spec_pipeline_plans(stages.deep_view())[i as int],
            ));
            assert(plans.deep_view() =~= spec_pipeline_plans(stages.deep_view()).take(i as int + 1));
        }
        i += 1;
    }
    proof {
        assert(spec_pipeline_plans(stages.deep_view()).take(n as int) =~= spec_pipeline_plans(
            stages.deep_view(),
        ));
    }
    plans
}

/// Decides how to execute a parsed command.
pub fn execute(cmd: &Command, home: Option<&str>) -> (r: Result<ExecPlan, ShellError>)
    ensures
        match spec_execute(cmd@, home.deep_view()) {
            ExecOutcomeV::Plan(p) => r matches Ok(pl) && pl@ == p,
            ExecOutcomeV::Fail(e) => r matches Err(err) && err@ == e,
        },
{
    match cmd {
        Command::Simple(sc) => {
            match crate::builtins::handle(sc, home) {
                Ok(Some(action)) => Ok(ExecPlan::Builtin(action)),
                Ok(None) => Ok(ExecPlan::Single(stage_plan(sc, false, false))),
                Err(e) => Err(e),
            }
        },
        Command::Pipeline(stages) => Ok(ExecPlan::Pipeline(pipeline_plans(stages))),
    }
}

/// The message of a failed external command: its exit code in decimal, or
/// a note that no code was reported because a signal ended it.
pub open spec fn spec_exit_message(code: Option<i32>) -> Seq<char> {
    match code {
        Some(c) => "Exited with code "@ + spec_i32_digits(c as int),
        None => "Terminated by signal"@,
    }
}

/// The interpreter's verdict on a finished external command: success goes
/// on, any other exit status is an execution error naming the code.
pub fn status_outcome(success: bool, code: Option<i32>) -> (r: Result<ShellSignal, ShellError>)
    ensures
        success ==> r == Ok::<ShellSignal, ShellError>(ShellSignal::Continue),
        !success ==> (r matches Err(e) && e@ == ShellErrorV::Exec(spec_exit_message(code))),
{
    if success {
        Ok(ShellSignal::Continue)
    } else {
        match code {
            Some(c) => {
                let mut msg = String::from_str("Exited with code ");
                if c < 0 {
                    push_char(&mut msg, '-');
                    push_u64_digits(&mut msg, (-(c as i64)) as u64);
                } else {
                    push_u64_digits(&mut msg, c as u64);
                }
                proof {
                    assert(msg@ =~= spec_exit_message(Some(c)));
                }
                Err(ShellError::Exec(msg))
            },
            None => Err(ShellError::Exec(String::from_str("Terminated by signal"))),
        }
    }
}

/// The least index of a stage that did not exit successfully.
pub open spec fn first_failed(statuses: Seq<(bool, Option<i32>)>) -> int
    decreases statuses.len(),
{
    if statuses.len() == 0 {
        0
    } else if !statuses[0].0 {
        0
    } else {
        1 + first_failed(statuses.skip(1))
    }
}

/// The least failing index is the one before which every stage succeeded.
proof fn lemma_first_failed_at(s: Seq<(bool, Option<i32>)>, i: int)
    requires
        0 <= i < s.len(),
        !s[i].0,
        forall|j: int| 0 <= j < i ==> s[j].0,
    ensures
        first_failed(s) == i,
    decreases i,
{
    if i > 0 {
        assert(s[0].0);
        assert(s.skip(1)[i - 1] == s[i]);
        assert forall|j: int| 0 <= j < i - 1 implies s.skip(1)[j].0 by {
            assert(s.skip(1)[j] == s[j + 1]);
        }
        lemma_first_failed_at(s.skip(1), i - 1);
    }
}

/// The verdict of a finished pipeline run: Continue only when no spawn failed
/// and every stage exited successfully; otherwise the first failure - the
/// spawn error, or the exec error naming the first non-zero stage's status.
pub fn pipeline_outcome(spawn_error: Option<ShellError>, statuses: &Vec<(bool, Option<i32>)>)
    -> (r: Result<ShellSignal, ShellError>)
    ensures
        (spawn_error is None && (forall|i: int| 0 <= i < statuses@.len() ==> statuses@[i].0))
            <==> r == Ok::<ShellSignal, ShellError>(ShellSignal::Continue),
        spawn_error matches Some(e) ==> (r matches Err(re) && re == e),
        spawn_error is None && (exists|i: int| 0 <= i < statuses@.len() && !statuses@[i].0)
            ==> (r matches Err(e) && e@ == ShellErrorV::Exec(
            spec_exit_message(statuses@[first_failed(statuses@)].1),
        )),
{
    match spawn_error {
        Some(e) => Err(e),
        None => {
            let mut i: usize = 0;
            while i < statuses.len()
                invariant
                    spawn_error is None,
                    i <= statuses.len(),
                    forall|j: int| 0 <= j < i ==> statuses@[j].0,
                decreases statuses.len() - i,
            {
                let (success, code) = statuses[i];
                if !success {
                    proof {
                        lemma_first_failed_at(statuses@, i as int);
                    }
                    return status_outcome(false, code);
                }
                i += 1;
            }
            Ok(ShellSignal::Continue)
        },
    }
}

} // verus!
