//! One input line, end to end: parse it, then decide how to execute it.

use crate::error::{ShellError, ShellErrorV};
use crate::executor::{spec_execute, ExecOutcomeV, ExecPlan};
use crate::parser::{parse, spec_parse, ParseV};
use vstd::prelude::*;

verus! {

/// What handling a line tells the read loop: go on to the next prompt, or
/// terminate the interpreter with this exit code.
pub enum ShellSignal {
    Continue,
    Exit(i32),
}

/// What one input line asks for: the parse outcome fed to the executor's
/// decision, with parse failures surfaced as parse errors.
pub open spec fn spec_run(line: Seq<char>, home: Option<Seq<char>>) -> ExecOutcomeV {
    match spec_parse(line) {
        ParseV::Cmd(c) => spec_execute(c, home),
        ParseV::Empty => ExecOutcomeV::Fail(ShellErrorV::Parse("Empty command"@)),
        ParseV::Truncated => ExecOutcomeV::Fail(ShellErrorV::Parse("Truncated redirection"@)),
    }
}

/// Handles one input line: parses it and decides the execution plan.
pub fn run(input: &str, home: Option<&str>) -> (r: Result<ExecPlan, ShellError>)
    ensures
        match spec_run(input@, home.deep_view()) {
            ExecOutcomeV::Plan(p) => r matches Ok(pl) && pl@ == p,
            ExecOutcomeV::Fail(e) => r matches Err(err) && err@ == e,
        },
{
    match parse(input) {
        Ok(cmd) => crate::executor::execute(&cmd, home),
        Err(e) => Err(e),
    }
}

} // verus!
