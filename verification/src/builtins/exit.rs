//! The `exit` builtin: produces a termination signal with an exit code.
//!
//! The code is the first argument read as a signed 32-bit integer, or 0
//! with no argument; any other argument is an error.

use crate::digits::{parse_i32, spec_parse_i32};
use crate::error::{ShellError, ShellErrorV};
use crate::parser::ast::{SimpleCommand, SimpleCommandV};
use crate::shell::ShellSignal;
use vstd::prelude::*;

verus! {

/// The exit code the invocation asks for: 0 with no argument, the first
/// argument read as a decimal integer otherwise; an error if it is no
/// integer.
pub open spec fn spec_exit_code(c: SimpleCommandV) -> Result<int, Seq<char>> {
    if c.args.len() == 0 {
        Ok(0)
    } else {
        match spec_parse_i32(c.args[0]) {
            Some(v) => Ok(v),
            None => Err("exit: invalid exit code"@),
        }
    }
}

/// Reads the exit code of an `exit` invocation.
pub fn exit_code(cmd: &SimpleCommand) -> (r: Result<i32, ShellError>)
    ensures
        match spec_exit_code(cmd@) {
            Ok(v) => r matches Ok(c) && c as int == v,
            Err(m) => r matches Err(e) && e@ == ShellErrorV::Builtin(m),
        },
{
    if cmd.args.len() == 0 {
        Ok(0)
    } else {
        proof {
            assert(cmd@.args[0] == cmd.args[0]@);
        }
        match parse_i32(cmd.args[0].as_str()) {
            Some(v) => Ok(v),
            None => Err(ShellError::Builtin(String::from_str("exit: invalid exit code"))),
        }
    }
}

/// Runs the `exit` builtin: the termination signal carrying the exit code.
pub fn run(cmd: &SimpleCommand) -> (r: Result<ShellSignal, ShellError>)
    ensures
        match spec_exit_code(cmd@) {
            Ok(v) => r matches Ok(sig) && sig matches ShellSignal::Exit(c) && c as int == v,
            Err(m) => r matches Err(e) && e@ == ShellErrorV::Builtin(m),
        },
{
    match exit_code(cmd) {
        Ok(code) => Ok(ShellSignal::Exit(code)),
        Err(e) => Err(e),
    }
}

} // verus!
