//! The `cd` builtin's decision: which directory to change to.
//!
//! The target is the first argument; with no argument, or with the literal
//! argument `~`, it is the home directory handed in by the caller. Changing
//! the directory itself is operating-system work and is carried out by the
//! program around the library.

use crate::error::{ShellError, ShellErrorV};
use crate::parser::ast::{SimpleCommand, SimpleCommandV};
use crate::strutil::str_eq;
use vstd::prelude::*;

verus! {

/// The directory `cd` changes to: the first argument, unless there is none
/// or it is `~`, in which case the home directory; with no home directory
/// known, the builtin fails.
pub open spec fn spec_cd_target(c: SimpleCommandV, home: Option<Seq<char>>) -> Result<
    Seq<char>,
    Seq<char>,
> {
    if c.args.len() > 0 && c.args[0] != "~"@ {
        Ok(c.args[0])
    } else {
        match home {
            Some(h) => Ok(h),
            None => Err("HOME not set"@),
        }
    }
}

/// Resolves the directory the `cd` invocation asks for.
pub fn target(cmd: &SimpleCommand, home: Option<&str>) -> (r: Result<String, ShellError>)
    ensures
        match spec_cd_target(cmd@, home.deep_view()) {
            Ok(t) => r matches Ok(s) && s@ == t,
            Err(m) => r matches Err(e) && e@ == ShellErrorV::Builtin(m),
        },
{
    if cmd.args.len() > 0 && !str_eq(cmd.args[0].as_str(), "~") {
        proof {
            assert(cmd@.args[0] == cmd.args[0]@);
        }
        Ok(cmd.args[0].clone())
    } else {
        match home {
            Some(h) => Ok(String::from_str(h)),
            None => Err(ShellError::Builtin(String::from_str("HOME not set"))),
        }
    }
}

} // verus!
