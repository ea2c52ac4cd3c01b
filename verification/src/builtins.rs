//! The builtin dispatcher: recognizes `cd`, `pwd` and `exit` and decides
//! what each asks for, without touching the process's state itself.
//!
//! Builtins must act on the interpreter's own process — `cd` changes its
//! working directory — so they can never run in a spawned child. The
//! dispatcher therefore returns an action for the surrounding program to
//! carry out, or nothing when the program name is no builtin, so the caller
//! falls through to an external spawn.

pub mod cd;
pub mod exit;

use crate::error::{ShellError, ShellErrorV};
use crate::parser::ast::{SimpleCommand, SimpleCommandV};
use crate::strutil::str_eq;
use vstd::prelude::*;

verus! {

/// What a recognized builtin asks the surrounding program to do: change
/// the working directory, print the working directory, or terminate the
/// interpreter with an exit code.
pub enum BuiltinAction {
    Chdir(String),
    PrintCwd,
    Exit(i32),
}

/// Mathematical model of a builtin action.
#[verifier::ext_equal]
pub enum BuiltinActionV {
    Chdir(Seq<char>),
    PrintCwd,
    Exit(int),
}

impl View for BuiltinAction {
    type V = BuiltinActionV;

    open spec fn view(&self) -> BuiltinActionV {
        match self {
            BuiltinAction::Chdir(p) => BuiltinActionV::Chdir(p@),
            BuiltinAction::PrintCwd => BuiltinActionV::PrintCwd,
            BuiltinAction::Exit(c) => BuiltinActionV::Exit(*c as int),
        }
    }
}

/// Outcome of dispatching an invocation: not a builtin at all, a builtin
/// asking for an action, or a builtin failing with a message.
pub enum HandleV {
    NotBuiltin,
    Act(BuiltinActionV),
    Fail(Seq<char>),
}

/// What dispatching an invocation yields. Exactly the names `cd`, `pwd`
/// and `exit` are builtins; every other program name falls through.
pub open spec fn spec_handle(c: SimpleCommandV, home: Option<Seq<char>>) -> HandleV {
    if c.program == "cd"@ {
        match cd::spec_cd_target(c, home) {
            Ok(t) => HandleV::Act(BuiltinActionV::Chdir(t)),
            Err(m) => HandleV::Fail(m),
        }
    } else if c.program == "pwd"@ {
        HandleV::Act(BuiltinActionV::PrintCwd)
    } else if c.program == "exit"@ {
        match exit::spec_exit_code(c) {
            Ok(v) => HandleV::Act(BuiltinActionV::Exit(v)),
            Err(m) => HandleV::Fail(m),
        }
    } else {
        HandleV::NotBuiltin
    }
}

/// Dispatches an invocation to a builtin, if its program is one.
///
/// Returns `Ok(None)` exactly when the program name is none of `cd`,
/// `pwd` and `exit`, so the caller falls through to an external spawn.
pub fn handle(cmd: &SimpleCommand, home: Option<&str>) -> (r: Result<
    Option<BuiltinAction>,
    ShellError,
>)
    ensures
        match spec_handle(cmd@, home.deep_view()) {
            HandleV::NotBuiltin => r == Ok::<Option<BuiltinAction>, ShellError>(None),
            HandleV::Act(a) => r matches Ok(Some(act)) && act@ == a,
            HandleV::Fail(m) => r matches Err(e) && e@ == ShellErrorV::Builtin(m),
        },
        (r == Ok::<Option<BuiltinAction>, ShellError>(None)) <==> (cmd@.program != "cd"@
            && cmd@.program != "pwd"@ && cmd@.program != "exit"@),
{
    if str_eq(cmd.program.as_str(), "cd") {
        match cd::target(cmd, home) {
            Ok(t) => Ok(Some(BuiltinAction::Chdir(t))),
            Err(e) => Err(e),
        }
    } else if str_eq(cmd.program.as_str(), "pwd") {
        Ok(Some(BuiltinAction::PrintCwd))
    } else if str_eq(cmd.program.as_str(), "exit") {
        match exit::exit_code(cmd) {
            Ok(code) => Ok(Some(BuiltinAction::Exit(code))),
            Err(e) => Err(e),
        }
    } else {
        Ok(None)
    }
}

} // verus!
