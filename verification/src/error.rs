//! The interpreter's error taxonomy. Every failure of one input line is one
//! of these values; the read loop prints it and goes on.

use vstd::prelude::*;

verus! {

/// An error raised while handling one input line.
///
/// `Io` carries the text of an operating-system I/O failure, `Parse` a
/// parser diagnostic, `Exec` a failed external command, and `Builtin` a
/// failure inside one of the builtin commands.
pub enum ShellError {
    Io(String),
    Parse(String),
    Exec(String),
    Builtin(String),
}

/// Mathematical model of an error: the variant with its message.
#[verifier::ext_equal]
pub enum ShellErrorV {
    Io(Seq<char>),
    Parse(Seq<char>),
    Exec(Seq<char>),
    Builtin(Seq<char>),
}

impl View for ShellError {
    type V = ShellErrorV;

    open spec fn view(&self) -> ShellErrorV {
        match self {
            ShellError::Io(m) => ShellErrorV::Io(m@),
            ShellError::Parse(m) => ShellErrorV::Parse(m@),
            ShellError::Exec(m) => ShellErrorV::Exec(m@),
            ShellError::Builtin(m) => ShellErrorV::Builtin(m@),
        }
    }
}

impl DeepView for ShellError {
    type V = ShellErrorV;

    open spec fn deep_view(&self) -> ShellErrorV {
        self.view()
    }
}

/// The one-line description of an error, as the read loop prints it.
pub open spec fn spec_message(e: ShellErrorV) -> Seq<char> {
    match e {
        ShellErrorV::Io(m) => "IO error: "@ + m,
        ShellErrorV::Parse(m) => "Parse error: "@ + m,
        ShellErrorV::Exec(m) => "Execution error: "@ + m,
        ShellErrorV::Builtin(m) => "Builtin error: "@ + m,
    }
}

impl ShellError {
    /// The printable description of this error.
    pub fn message(&self) -> (r: String)
        ensures
            r@ == spec_message(self@),
    {
        match self {
            ShellError::Io(m) => {
                let mut s = String::from_str("IO error: ");
                s.append(m.as_str());
                s
            },
            ShellError::Parse(m) => {
                let mut s = String::from_str("Parse error: ");
                s.append(m.as_str());
                s
            },
            ShellError::Exec(m) => {
                let mut s = String::from_str("Execution error: ");
                s.append(m.as_str());
                s
            },
            ShellError::Builtin(m) => {
                let mut s = String::from_str("Builtin error: ");
                s.append(m.as_str());
                s
            },
        }
    }
}

} // verus!
