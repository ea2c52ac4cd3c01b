//! The command structure produced by the parser: redirections, single
//! invocations, and commands (one invocation or a pipeline of several).

use vstd::prelude::*;

verus! {

/// A file redirection attached to one invocation: bind the invocation's
/// standard output to a truncated-or-created file, or its standard input
/// to an existing file.
pub enum Redirection {
    Stdout(String),
    Stdin(String),
}

/// Mathematical model of a redirection: the target path as a character
/// sequence.
#[verifier::ext_equal]
pub enum RedirectionV {
    Stdout(Seq<char>),
    Stdin(Seq<char>),
}

impl View for Redirection {
    type V = RedirectionV;

    open spec fn view(&self) -> RedirectionV {
        match self {
            Redirection::Stdout(p) => RedirectionV::Stdout(p@),
            Redirection::Stdin(p) => RedirectionV::Stdin(p@),
        }
    }
}

impl DeepView for Redirection {
    type V = RedirectionV;

    open spec fn deep_view(&self) -> RedirectionV {
        self.view()
    }
}

/// One program invocation: the program name, its arguments in order, and
/// its redirections in the order they were written.
pub struct SimpleCommand {
    pub program: String,
    pub args: Vec<String>,
    pub redirections: Vec<Redirection>,
}

/// Mathematical model of an invocation.
#[verifier::ext_equal]
pub struct SimpleCommandV {
    pub program: Seq<char>,
    pub args: Seq<Seq<char>>,
    pub redirections: Seq<RedirectionV>,
}

impl View for SimpleCommand {
    type V = SimpleCommandV;

    open spec fn view(&self) -> SimpleCommandV {
        SimpleCommandV {
            program: self.program@,
            args: self.args.deep_view(),
            redirections: self.redirections.deep_view(),
        }
    }
}

impl DeepView for SimpleCommand {
    type V = SimpleCommandV;

    open spec fn deep_view(&self) -> SimpleCommandV {
        self.view()
    }
}

/// A parsed command: a single invocation, or a pipeline of two or more
/// invocations whose standard streams are chained.
pub enum Command {
    Simple(SimpleCommand),
    Pipeline(Vec<SimpleCommand>),
}

/// Mathematical model of a command.
#[verifier::ext_equal]
pub enum CommandV {
    Simple(SimpleCommandV),
    Pipeline(Seq<SimpleCommandV>),
}

impl View for Command {
    type V = CommandV;

    open spec fn view(&self) -> CommandV {
        match self {
            Command::Simple(c) => CommandV::Simple(c@),
            Command::Pipeline(cs) => CommandV::Pipeline(cs.deep_view()),
        }
    }
}

impl DeepView for Command {
    type V = CommandV;

    open spec fn deep_view(&self) -> CommandV {
        self.view()
    }
}

impl Redirection {
    /// A fresh redirection with the same direction and target path.
    pub fn duplicate(&self) -> (r: Redirection)
        ensures
            r@ == self@,
    {
        match self {
            Redirection::Stdout(p) => Redirection::Stdout(p.clone()),
            Redirection::Stdin(p) => Redirection::Stdin(p.clone()),
        }
    }
}

/// A fresh vector holding copies of the given strings.
pub fn duplicate_strings(v: &Vec<String>) -> (r: Vec<String>)
    ensures
        r.deep_view() == v.deep_view(),
{
    let mut r: Vec<String> = Vec::new();
    let mut i: usize = 0;
    while i < v.len()
        invariant
            i <= v.len(),
            r.deep_view() == v.deep_view().take(i as int),
        decreases v.len() - i,
    {
        let ghost pre = r.deep_view();
        r.push(v[i].clone());
        proof {
            assert(r.deep_view() =~= pre.push(v@[i as int]@));
            assert(pre.push(v@[i as int]@) =~= v.deep_view().take(i as int + 1));
        }
        i += 1;
    }
    proof {
        assert(v.deep_view().take(v@.len() as int) =~= v.deep_view());
    }
    r
}

/// A fresh vector holding copies of the given redirections.
pub fn duplicate_redirections(v: &Vec<Redirection>) -> (r: Vec<Redirection>)
    ensures
        r.deep_view() == v.deep_view(),
{
    let mut r: Vec<Redirection> = Vec::new();
    let mut i: usize = 0;
    while i < v.len()
        invariant
            i <= v.len(),
            r.deep_view() == v.deep_view().take(i as int),
        decreases v.len() - i,
    {
        let ghost pre = r.deep_view();
        r.push(v[i].duplicate());
        proof {
            assert(r.deep_view() =~= pre.push(v@[i as int]@));
            assert(pre.push(v@[i as int]@) =~= v.deep_view().take(i as int + 1));
        }
        i += 1;
    }
    proof {
        assert(v.deep_view().take(v@.len() as int) =~= v.deep_view());
    }
    r
}

impl SimpleCommand {
    /// A fresh invocation with the same program, arguments and redirections.
    pub fn duplicate(&self) -> (r: SimpleCommand)
        ensures
            r@ == self@,
    {
        let r = SimpleCommand {
            program: self.program.clone(),
            args: duplicate_strings(&self.args),
            redirections: duplicate_redirections(&self.redirections),
        };
        proof {
            assert(r@ =~= self@);
        }
        r
    }
}

} // verus!
