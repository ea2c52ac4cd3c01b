use minishell::error::ShellError;
use minishell::parser::ast::{Command, Redirection, SimpleCommand};
use minishell::parser::lexer::tokenize;
use minishell::parser::parse;

fn words(ts: &[&str]) -> Vec<String> {
    ts.iter().map(|s| s.to_string()).collect()
}

fn expect_single(r: Result<Command, ShellError>) -> SimpleCommand {
    match r {
        Ok(Command::Simple(sc)) => sc,
        _ => panic!("expected a single command"),
    }
}

fn expect_pipeline(r: Result<Command, ShellError>) -> Vec<SimpleCommand> {
    match r {
        Ok(Command::Pipeline(stages)) => stages,
        _ => panic!("expected a pipeline"),
    }
}

fn expect_parse_error(r: Result<Command, ShellError>) -> String {
    match r {
        Err(e) => {
            assert!(matches!(&e, ShellError::Parse(_)));
            e.message()
        },
        _ => panic!("expected a parse error"),
    }
}

#[test]
fn tokenize_splits_words() {
    assert_eq!(tokenize("ls -l foo"), words(&["ls", "-l", "foo"]));
}

#[test]
fn tokenize_operators_standalone() {
    assert_eq!(
        tokenize("ls | grep txt > out.txt"),
        words(&["ls", "|", "grep", "txt", ">", "out.txt"])
    );
}

#[test]
fn tokenize_adjacent_operators_match_spaced() {
    assert_eq!(tokenize("a|b"), tokenize("a | b"));
}

#[test]
fn tokenize_adjacent_redirect() {
    assert_eq!(tokenize("ls>out.txt"), words(&["ls", ">", "out.txt"]));
    assert_eq!(tokenize("ls>out.txt"), tokenize("ls > out.txt"));
}

#[test]
fn tokenize_empty_and_blank() {
    assert_eq!(tokenize(""), words(&[]));
    assert_eq!(tokenize("   \t  "), words(&[]));
}

#[test]
fn tokenize_unicode_whitespace_separates() {
    assert_eq!(tokenize("a\u{a0}b"), words(&["a", "b"]));
    assert_eq!(tokenize("a\u{2003}|\u{2003}b"), tokenize("a | b"));
    assert_eq!(tokenize("\u{3000}ls\u{2028}-l\u{205f}"), words(&["ls", "-l"]));
}

#[test]
fn parse_plain_words_single() {
    let sc = expect_single(parse("ls -l foo"));
    assert_eq!(sc.program, "ls");
    assert_eq!(sc.args, words(&["-l", "foo"]));
    assert!(sc.redirections.is_empty());
}

#[test]
fn parse_output_redirection() {
    let sc = expect_single(parse("cmd > out.txt"));
    assert_eq!(sc.program, "cmd");
    assert!(sc.args.is_empty());
    assert_eq!(sc.redirections.len(), 1);
    match &sc.redirections[0] {
        Redirection::Stdout(p) => assert_eq!(p, "out.txt"),
        _ => panic!("expected an output redirection"),
    }
}

#[test]
fn parse_input_redirection() {
    let sc = expect_single(parse("sort < in.txt"));
    assert_eq!(sc.program, "sort");
    assert!(sc.args.is_empty());
    assert_eq!(sc.redirections.len(), 1);
    match &sc.redirections[0] {
        Redirection::Stdin(p) => assert_eq!(p, "in.txt"),
        _ => panic!("expected an input redirection"),
    }
}

#[test]
fn parse_redirections_keep_order() {
    let sc = expect_single(parse("cmd > a.txt < b.txt > c.txt"));
    assert_eq!(sc.redirections.len(), 3);
    match &sc.redirections[0] {
        Redirection::Stdout(p) => assert_eq!(p, "a.txt"),
        _ => panic!("expected an output redirection first"),
    }
    match &sc.redirections[1] {
        Redirection::Stdin(p) => assert_eq!(p, "b.txt"),
        _ => panic!("expected an input redirection second"),
    }
    match &sc.redirections[2] {
        Redirection::Stdout(p) => assert_eq!(p, "c.txt"),
        _ => panic!("expected an output redirection third"),
    }
}

#[test]
fn parse_redirection_target_with_args() {
    let sc = expect_single(parse("grep hello < in.txt world"));
    assert_eq!(sc.program, "grep");
    assert_eq!(sc.args, words(&["hello", "world"]));
    assert_eq!(sc.redirections.len(), 1);
}

#[test]
fn parse_three_stage_pipeline() {
    let stages = expect_pipeline(parse("a | b | c"));
    assert_eq!(stages.len(), 3);
    let names: Vec<String> = stages.iter().map(|s| s.program.clone()).collect();
    assert_eq!(names, words(&["a", "b", "c"]));
    for s in &stages {
        assert!(s.redirections.is_empty());
        assert!(s.args.is_empty());
    }
}

#[test]
fn parse_pipeline_with_args_and_redirection() {
    let stages = expect_pipeline(parse("cat file.txt | grep hello > out.txt"));
    assert_eq!(stages.len(), 2);
    assert_eq!(stages[0].program, "cat");
    assert_eq!(stages[0].args, words(&["file.txt"]));
    assert_eq!(stages[1].program, "grep");
    assert_eq!(stages[1].args, words(&["hello"]));
    assert_eq!(stages[1].redirections.len(), 1);
}

#[test]
fn parse_adjacent_pipe_matches_spaced() {
    let stages = expect_pipeline(parse("a|b"));
    assert_eq!(stages.len(), 2);
    assert_eq!(stages[0].program, "a");
    assert_eq!(stages[1].program, "b");
}

#[test]
fn parse_empty_line_is_error() {
    let msg = expect_parse_error(parse(""));
    assert_eq!(msg, "Parse error: Empty command");
}

#[test]
fn parse_trailing_pipe_is_error() {
    let msg = expect_parse_error(parse("a |"));
    assert_eq!(msg, "Parse error: Empty command");
}

#[test]
fn parse_leading_pipe_is_error() {
    let msg = expect_parse_error(parse("| a"));
    assert_eq!(msg, "Parse error: Empty command");
}

#[test]
fn parse_double_pipe_is_error() {
    let msg = expect_parse_error(parse("a || b"));
    assert_eq!(msg, "Parse error: Empty command");
}

#[test]
fn parse_bare_redirect_is_error() {
    let msg = expect_parse_error(parse("cmd >"));
    assert_eq!(msg, "Parse error: Truncated redirection");
}

#[test]
fn parse_bare_redirect_in_pipeline_is_error() {
    let msg = expect_parse_error(parse("a < | b"));
    assert_eq!(msg, "Parse error: Truncated redirection");
}
