//! The command parser.
//!
//! A token sequence with no `|` token parses to a single invocation; one
//! with `|` tokens is split at each of them, every segment parses to an
//! invocation, and the result is a pipeline. Inside a segment the first
//! token is the program; a `>` or `<` must be followed by a target path and
//! yields a redirection; every other token is an argument.

pub mod ast;
pub mod lexer;

use crate::error::{ShellError, ShellErrorV};
use crate::strutil::is_op;
use ast::{Command, CommandV, Redirection, RedirectionV, SimpleCommand, SimpleCommandV};
use lexer::{spec_tokenize, tokenize};
use vstd::prelude::*;

verus! {

/// The pipe operator as a token.
pub open spec fn pipe_tok() -> Seq<char> {
    seq!['|']
}

/// The output-redirection operator as a token.
pub open spec fn gt_tok() -> Seq<char> {
    seq!['>']
}

/// The input-redirection operator as a token.
pub open spec fn lt_tok() -> Seq<char> {
    seq!['<']
}

/// Result of scanning the tokens of a segment after its program name:
/// whether every redirection operator had a target (`ok`), the arguments
/// and the redirections, each in order.
#[verifier::ext_equal]
pub struct ScanV {
    pub ok: bool,
    pub args: Seq<Seq<char>>,
    pub redirs: Seq<RedirectionV>,
}

/// Scans the tokens after a program name. A `>` or `<` consumes the
/// following token as a redirection target; with no following token the
/// scan fails; every other token is an argument.
pub open spec fn spec_scan(toks: Seq<Seq<char>>) -> ScanV
    decreases toks.len(),
{
    if toks.len() == 0 {
        ScanV { ok: true, args: seq![], redirs: seq![] }
    } else if toks[0] == gt_tok() || toks[0] == lt_tok() {
        if toks.len() == 1 {
            ScanV { ok: false, args: seq![], redirs: seq![] }
        } else {
            let r = spec_scan(toks.skip(2));
            let red = if toks[0] == gt_tok() {
                RedirectionV::Stdout(toks[1])
            } else {
                RedirectionV::Stdin(toks[1])
            };
            ScanV { ok: r.ok, args: r.args, redirs: seq![red] + r.redirs }
        }
    } else {
        let r = spec_scan(toks.skip(1));
        ScanV { ok: r.ok, args: seq![toks[0]] + r.args, redirs: r.redirs }
    }
}

/// Outcome of parsing one segment.
pub enum SimpleParseV {
    Cmd(SimpleCommandV),
    Empty,
    Truncated,
}

/// Parses one segment: the first token is the program, the rest are
/// scanned into arguments and redirections. An empty segment is an error,
/// and so is a redirection operator without a target.
pub open spec fn spec_parse_simple(toks: Seq<Seq<char>>) -> SimpleParseV {
    if toks.len() == 0 {
        SimpleParseV::Empty
    } else {
        let s = spec_scan(toks.skip(1));
        if s.ok {
            SimpleParseV::Cmd(
                SimpleCommandV { program: toks[0], args: s.args, redirections: s.redirs },
            )
        } else {
            SimpleParseV::Truncated
        }
    }
}

/// Outcome of parsing a token sequence.
pub enum ParseV {
    Cmd(CommandV),
    Empty,
    Truncated,
}

/// One state of the pipeline parser: `toks` is the unread input, `cur` the
/// tokens of the segment being collected, `done` the invocations already
/// parsed. Each `|` ends a segment; the errors of the leftmost failing
/// segment win.
pub open spec fn pipeline_from(
    toks: Seq<Seq<char>>,
    cur: Seq<Seq<char>>,
    done: Seq<SimpleCommandV>,
) -> ParseV
    decreases toks.len(),
{
    if toks.len() == 0 {
        match spec_parse_simple(cur) {
            SimpleParseV::Cmd(c) => ParseV::Cmd(CommandV::Pipeline(done.push(c))),
            SimpleParseV::Empty => ParseV::Empty,
            SimpleParseV::Truncated => ParseV::Truncated,
        }
    } else if toks[0] == pipe_tok() {
        match spec_parse_simple(cur) {
            SimpleParseV::Cmd(c) => pipeline_from(toks.skip(1), seq![], done.push(c)),
            SimpleParseV::Empty => ParseV::Empty,
            SimpleParseV::Truncated => ParseV::Truncated,
        }
    } else {
        pipeline_from(toks.skip(1), cur.push(toks[0]), done)
    }
}

/// Parses a token sequence as a pipeline, splitting at each `|` token.
pub open spec fn spec_parse_pipeline(toks: Seq<Seq<char>>) -> ParseV {
    pipeline_from(toks, seq![], seq![])
}

/// Whether some token is the pipe operator.
pub open spec fn has_pipe(toks: Seq<Seq<char>>) -> bool {
    exists|i: int| 0 <= i < toks.len() && toks[i] == pipe_tok()
}

/// Parses a token sequence: a pipeline if some token is `|`, a single
/// invocation otherwise.
pub open spec fn spec_parse_tokens(toks: Seq<Seq<char>>) -> ParseV {
    if has_pipe(toks) {
        spec_parse_pipeline(toks)
    } else {
        match spec_parse_simple(toks) {
            SimpleParseV::Cmd(c) => ParseV::Cmd(CommandV::Simple(c)),
            SimpleParseV::Empty => ParseV::Empty,
            SimpleParseV::Truncated => ParseV::Truncated,
        }
    }
}

/// Parses a raw input line: tokenize, then parse the tokens.
pub open spec fn spec_parse(line: Seq<char>) -> ParseV {
    spec_parse_tokens(spec_tokenize(line))
}

/// Scanning tokens in which no operator character occurs yields them all
/// as arguments and no redirection.
pub proof fn lemma_scan_all_args(ts: Seq<Seq<char>>)
    requires
        lexer::tokens_no_specials(ts),
    ensures
        spec_scan(ts).ok,
        spec_scan(ts).args == ts,
        spec_scan(ts).redirs == Seq::<RedirectionV>::empty(),
    decreases ts.len(),
{
    if ts.len() == 0 {
        assert(spec_scan(ts).args =~= ts);
    } else {
        assert(lexer::no_specials(ts[0]));
        if ts[0] == gt_tok() {
            assert(ts[0][0] == '>');
            assert(lexer::is_special(ts[0][0]));
            assert(false);
        }
        if ts[0] == lt_tok() {
            assert(ts[0][0] == '<');
            assert(lexer::is_special(ts[0][0]));
            assert(false);
        }
        assert(lexer::tokens_no_specials(ts.skip(1))) by {
            assert forall|i: int| 0 <= i < ts.skip(1).len() implies lexer::no_specials(
                ts.skip(1)[i],
            ) by {
                assert(ts.skip(1)[i] == ts[i + 1]);
            }
        }
        lemma_scan_all_args(ts.skip(1));
        assert(spec_scan(ts).args =~= ts);
    }
}

/// Each `|` token adds one parsed stage beyond those already done, and
/// the segment after the last `|` adds one more.
proof fn lemma_pipeline_from_stage_count(
    toks: Seq<Seq<char>>,
    cur: Seq<Seq<char>>,
    done: Seq<SimpleCommandV>,
)
    ensures
        pipeline_from(toks, cur, done) matches ParseV::Cmd(CommandV::Pipeline(cs)) ==> cs.len()
            >= done.len() + 1,
        has_pipe(toks) ==> (pipeline_from(toks, cur, done) matches ParseV::Cmd(
            CommandV::Pipeline(cs),
        ) ==> cs.len() >= done.len() + 2),
    decreases toks.len(),
{
    if toks.len() == 0 {
        assert(!has_pipe(toks));
    } else if toks[0] == pipe_tok() {
        match spec_parse_simple(cur) {
            SimpleParseV::Cmd(c) => {
                lemma_pipeline_from_stage_count(toks.skip(1), seq![], done.push(c));
            },
            _ => {},
        }
    } else {
        if has_pipe(toks) {
            let i = choose|i: int| 0 <= i < toks.len() && toks[i] == pipe_tok();
            assert(i != 0);
            assert(toks.skip(1)[i - 1] == toks[i]);
            assert(has_pipe(toks.skip(1)));
        }
        lemma_pipeline_from_stage_count(toks.skip(1), cur.push(toks[0]), done);
    }
}

/// A pipeline command is never built with fewer than two stages, and a
/// token sequence without a `|` token never yields a pipeline at all.
pub proof fn lemma_pipeline_has_two_stages(toks: Seq<Seq<char>>)
    ensures
        spec_parse_tokens(toks) matches ParseV::Cmd(CommandV::Pipeline(cs)) ==> cs.len() >= 2,
        !has_pipe(toks) ==> !(spec_parse_tokens(toks) matches ParseV::Cmd(
            CommandV::Pipeline(_),
        )),
{
    if has_pipe(toks) {
        lemma_pipeline_from_stage_count(toks, seq![], seq![]);
    }
}

/// A line in which none of `|`, `>`, `<` occurs parses to a single
/// invocation: the first token is the program, the remaining tokens are
/// the arguments in order, and there is no redirection. Since without
/// operator characters tokenizing is exactly whitespace splitting, the
/// program is the line's first word and the arguments are the rest.
pub proof fn lemma_plain_line_parses_single(line: Seq<char>)
    requires
        lexer::no_specials(line),
        spec_tokenize(line).len() > 0,
    ensures
        spec_parse(line) == ParseV::Cmd(
            CommandV::Simple(
                SimpleCommandV {
                    program: spec_tokenize(line)[0],
                    args: spec_tokenize(line).skip(1),
                    redirections: Seq::<RedirectionV>::empty(),
                },
            ),
        ),
{
    let toks = spec_tokenize(line);
    lexer::lemma_tokenize_from_no_specials(
        line,
        Seq::<char>::empty(),
        Seq::<Seq<char>>::empty(),
    );
    assert(lexer::tokens_no_specials(toks));
    assert(!has_pipe(toks)) by {
        if has_pipe(toks) {
            let i = choose|i: int| 0 <= i < toks.len() && toks[i] == pipe_tok();
            assert(lexer::no_specials(toks[i]));
            assert(toks[i][0] == '|');
            assert(lexer::is_special(toks[i][0]));
        }
    }
    assert(lexer::tokens_no_specials(toks.skip(1))) by {
        assert forall|i: int| 0 <= i < toks.skip(1).len() implies lexer::no_specials(
            toks.skip(1)[i],
        ) by {
            assert(toks.skip(1)[i] == toks[i + 1]);
        }
    }
    lemma_scan_all_args(toks.skip(1));
}

/// The diagnostic for a segment with no tokens.
pub fn empty_command_error() -> (r: ShellError)
    ensures
        r@ == ShellErrorV::Parse("Empty command"@),
{
    ShellError::Parse(String::from_str("Empty command"))
}

/// The diagnostic for a `>` or `<` with no following target path.
pub fn truncated_redirection_error() -> (r: ShellError)
    ensures
        r@ == ShellErrorV::Parse("Truncated redirection"@),
{
    ShellError::Parse(String::from_str("Truncated redirection"))
}

/// Parses one segment into an invocation.
pub fn parse_simple(tokens: Vec<String>) -> (r: Result<SimpleCommand, ShellError>)
    ensures
        match spec_parse_simple(tokens.deep_view()) {
            SimpleParseV::Cmd(c) => r matches Ok(sc) && sc@ == c,
            SimpleParseV::Empty => r matches Err(e) && e@ == ShellErrorV::Parse(
                "Empty command"@,
            ),
            SimpleParseV::Truncated => r matches Err(e) && e@ == ShellErrorV::Parse(
                "Truncated redirection"@,
            ),
        },
{
    let ghost toks = tokens.deep_view();
    if tokens.len() == 0 {
        return Err(empty_command_error());
    }
    let program = tokens[0].clone();
    let mut args: Vec<String> = Vec::new();
    let mut redirections: Vec<Redirection> = Vec::new();
    let mut i: usize = 1;
    proof {
        assert(args.deep_view() =~= Seq::<Seq<char>>::empty());
        assert(redirections.deep_view() =~= Seq::<RedirectionV>::empty());
    }
    while i < tokens.len()
        invariant
            1 <= i <= tokens.len(),
            toks == tokens.deep_view(),
            toks.len() == tokens.len(),
            spec_scan(toks.skip(1)).ok == spec_scan(toks.skip(i as int)).ok,
            spec_scan(toks.skip(i as int)).ok ==> spec_scan(toks.skip(1)).args
                == args.deep_view() + spec_scan(toks.skip(i as int)).args,
            spec_scan(toks.skip(i as int)).ok ==> spec_scan(toks.skip(1)).redirs
                == redirections.deep_view() + spec_scan(toks.skip(i as int)).redirs,
        decreases tokens.len() - i,
    {
        let ghost rest = toks.skip(i as int);
        proof {
            assert(rest[0] == toks[i as int]);
            assert(rest.len() == toks.len() - i);
        }
        let is_out = is_op(tokens[i].as_str(), '>');
        let is_in = is_op(tokens[i].as_str(), '<');
        proof {
            assert(tokens[i as int]@ == toks[i as int]);
        }
        if is_out || is_in {
            if i + 1 >= tokens.len() {
                proof {
                    assert(rest.len() == 1);
                    assert(!spec_scan(rest).ok);
                }
                return Err(truncated_redirection_error());
            }
            let target = tokens[i + 1].clone();
            let ghost pre = redirections.deep_view();
            if is_out {
                redirections.push(Redirection::Stdout(target));
            } else {
                redirections.push(Redirection::Stdin(target));
            }
            proof {
                let red = if rest[0] == gt_tok() {
                    RedirectionV::Stdout(rest[1])
                } else {
                    RedirectionV::Stdin(rest[1])
                };
                assert(tokens[i as int + 1]@ == toks[i as int + 1]);
                assert(rest[1] == toks[i as int + 1]);
                assert(redirections.deep_view() =~= pre.push(red));
                assert(rest.skip(2) =~= toks.skip(i as int + 2));
                assert(spec_scan(rest).ok == spec_scan(rest.skip(2)).ok);
                if spec_scan(rest.skip(2)).ok {
                    assert(spec_scan(rest).redirs == seq![red] + spec_scan(rest.skip(2)).redirs);
                    assert(redirections.deep_view() + spec_scan(rest.skip(2)).redirs =~= pre + (
                    seq![red] + spec_scan(rest.skip(2)).redirs));
                    assert(args.deep_view() + spec_scan(rest.skip(2)).args =~= args.deep_view()
                        + spec_scan(rest).args);
                }
            }
            i += 2;
        } else {
            let ghost pre = args.deep_view();
            args.push(tokens[i].clone());
            proof {
                assert(args.deep_view() =~= pre.push(rest[0]));
                assert(rest.skip(1) =~= toks.skip(i as int + 1));
                assert(spec_scan(rest).ok == spec_scan(rest.skip(1)).ok);
                if spec_scan(rest.skip(1)).ok {
                    assert(spec_scan(rest).args == seq![rest[0]] + spec_scan(rest.skip(1)).args);
                    assert(args.deep_view() + spec_scan(rest.skip(1)).args =~= pre + (seq![rest[0]]
                        + spec_scan(rest.skip(1)).args));
                    assert(redirections.deep_view() + spec_scan(rest.skip(1)).redirs
                        =~= redirections.deep_view() + spec_scan(rest).redirs);
                }
            }
            i += 1;
        }
    }
    proof {
        assert(toks.skip(i as int) =~= Seq::<Seq<char>>::empty());
        assert(spec_scan(toks.skip(i as int)).ok);
        assert(spec_scan(toks.skip(1)).args =~= args.deep_view());
        assert(spec_scan(toks.skip(1)).redirs =~= redirections.deep_view());
    }
    let r = SimpleCommand { program, args, redirections };
    proof {
        let s = spec_scan(toks.skip(1));
        assert(r@ =~= SimpleCommandV { program: toks[0], args: s.args, redirections: s.redirs });
    }
    Ok(r)
}

/// Parses tokens containing `|` into a pipeline of invocations.
pub fn parse_pipeline(tokens: Vec<String>) -> (r: Result<Command, ShellError>)
    ensures
        match spec_parse_pipeline(tokens.deep_view()) {
            ParseV::Cmd(c) => r matches Ok(cmd) && cmd@ == c,
            ParseV::Empty => r matches Err(e) && e@ == ShellErrorV::Parse("Empty command"@),
            ParseV::Truncated => r matches Err(e) && e@ == ShellErrorV::Parse(
                "Truncated redirection"@,
            ),
        },
{
    let ghost toks = tokens.deep_view();
    let mut done: Vec<SimpleCommand> = Vec::new();
    let mut cur: Vec<String> = Vec::new();
    let mut i: usize = 0;
    proof {
        assert(toks.skip(0) =~= toks);
        assert(cur.deep_view() =~= Seq::<Seq<char>>::empty());
        assert(done.deep_view() =~= Seq::<SimpleCommandV>::empty());
    }
    while i < tokens.len()
        invariant
            i <= tokens.len(),
            toks == tokens.deep_view(),
            toks.len() == tokens.len(),
            pipeline_from(toks.skip(i as int), cur.deep_view(), done.deep_view())
                == spec_parse_pipeline(toks),
        decreases tokens.len() - i,
    {
        let ghost rest = toks.skip(i as int);
        let ghost cur0 = cur.deep_view();
        let ghost done0 = done.deep_view();
        proof {
            assert(rest[0] == toks[i as int]);
            assert(rest.skip(1) =~= toks.skip(i as int + 1));
        }
        let piped = is_op(tokens[i].as_str(), '|');
        proof {
            assert(tokens[i as int]@ == toks[i as int]);
        }
        if piped {
            let segment = cur;
            cur = Vec::new();
            match parse_simple(segment) {
                Ok(sc) => {
                    let ghost scv = sc@;
                    done.push(sc);
                    proof {
                        assert(done.deep_view() =~= done0.push(scv));
                        assert(cur.deep_view() =~= Seq::<Seq<char>>::empty());
                        assert(pipeline_from(rest, cur0, done0) == pipeline_from(
                            rest.skip(1),
                            cur.deep_view(),
                            done.deep_view(),
                        ));
                    }
                },
                Err(e) => {
                    return Err(e);
                },
            }
        } else {
            let ghost pre = cur.deep_view();
            cur.push(tokens[i].clone());
            proof {
                assert(cur.deep_view() =~= pre.push(rest[0]));
                assert(pipeline_from(rest, cur0, done0) == pipeline_from(
                    rest.skip(1),
                    cur.deep_view(),
                    done.deep_view(),
                ));
            }
        }
        i += 1;
    }
    proof {
        assert(toks.skip(i as int) =~= Seq::<Seq<char>>::empty());
    }
    let last = parse_simple(cur);
    match last {
        Ok(sc) => {
            let ghost done0 = done.deep_view();
            let ghost scv = sc@;
            done.push(sc);
            proof {
                assert(done.deep_view() =~= done0.push(scv));
            }
            Ok(Command::Pipeline(done))
        },
        Err(e) => Err(e),
    }
}

/// Whether some token is the pipe operator.
pub fn contains_pipe(tokens: &Vec<String>) -> (r: bool)
    ensures
        r == has_pipe(tokens.deep_view()),
{
    let mut i: usize = 0;
    while i < tokens.len()
        invariant
            i <= tokens.len(),
            forall|j: int| 0 <= j < i ==> tokens.deep_view()[j] != pipe_tok(),
        decreases tokens.len() - i,
    {
        if is_op(tokens[i].as_str(), '|') {
            proof {
                assert(tokens.deep_view()[i as int] == pipe_tok());
            }
            return true;
        }
        i += 1;
    }
    false
}

/// Parses a raw input line into a command: a single invocation if no `|`
/// token occurs, a pipeline otherwise. Fails on an empty segment and on a
/// redirection operator with no target path.
pub fn parse(input: &str) -> (r: Result<Command, ShellError>)
    ensures
        match spec_parse(input@) {
            ParseV::Cmd(c) => r matches Ok(cmd) && cmd@ == c,
            ParseV::Empty => r matches Err(e) && e@ == ShellErrorV::Parse("Empty command"@),
            ParseV::Truncated => r matches Err(e) && e@ == ShellErrorV::Parse(
                "Truncated redirection"@,
            ),
        },
{
    let tokens = tokenize(input);
    if contains_pipe(&tokens) {
        parse_pipeline(tokens)
    } else {
        match parse_simple(tokens) {
            Ok(sc) => Ok(Command::Simple(sc)),
            Err(e) => Err(e),
        }
    }
}

} // verus!
