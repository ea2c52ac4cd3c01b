//! Splits an input line into tokens.
//!
//! `"ls | grep txt > out.txt"` becomes `["ls", "|", "grep", "txt", ">", "out.txt"]`.
//!
//! The operators `|`, `>`, `<` are always tokens of their own, even when
//! written without surrounding spaces, so `"ls>out.txt"` tokenizes exactly
//! as `"ls > out.txt"` does. There is no quoting or escaping: a token is
//! exactly the text between separators.

use crate::strutil::push_char;
use vstd::prelude::*;

verus! {

/// The characters that form standalone operator tokens.
pub open spec fn is_special(c: char) -> bool {
    c == '|' || c == '>' || c == '<'
}

/// Whitespace that separates tokens: the characters with Unicode's
/// White_Space property, as `char::is_whitespace` recognizes them.
pub open spec fn is_space(c: char) -> bool {
    c == ' ' || c == '\t' || c == '\n' || c == '\u{b}' || c == '\u{c}' || c == '\r' || c
        == '\u{85}' || c == '\u{a0}' || c == '\u{1680}' || (0x2000 <= c as int && c as int
        <= 0x200a) || c == '\u{2028}' || c == '\u{2029}' || c == '\u{202f}' || c == '\u{205f}'
        || c == '\u{3000}'
}

/// Whether `c` separates tokens.
pub fn is_space_char(c: char) -> (r: bool)
    ensures
        r == is_space(c),
{
    if c == ' ' || c == '\t' || c == '\n' || c == '\u{b}' || c == '\u{c}' || c == '\r' || c
        == '\u{85}' || c == '\u{a0}' || c == '\u{1680}' || c == '\u{2028}' || c == '\u{2029}' || c
        == '\u{202f}' || c == '\u{205f}' || c == '\u{3000}' {
        true
    } else {
        let u = c as u32;
        0x2000 <= u && u <= 0x200a
    }
}

/// One state of the tokenizer: `s` is the unread input, `cur` the word
/// collected so far, `acc` the tokens already finished. The result is the
/// full token sequence once all of `s` has been read.
pub open spec fn tokenize_from(s: Seq<char>, cur: Seq<char>, acc: Seq<Seq<char>>) -> Seq<
    Seq<char>,
>
    decreases s.len(),
{
    if s.len() == 0 {
        if cur.len() == 0 {
            acc
        } else {
            acc.push(cur)
        }
    } else if is_space(s[0]) {
        tokenize_from(
            s.skip(1),
            Seq::empty(),
            if cur.len() == 0 {
                acc
            } else {
                acc.push(cur)
            },
        )
    } else if is_special(s[0]) {
        let done = if cur.len() == 0 {
            acc
        } else {
            acc.push(cur)
        };
        tokenize_from(s.skip(1), Seq::empty(), done.push(seq![s[0]]))
    } else {
        tokenize_from(s.skip(1), cur.push(s[0]), acc)
    }
}

/// The token sequence of a raw input line.
pub open spec fn spec_tokenize(s: Seq<char>) -> Seq<Seq<char>> {
    tokenize_from(s, Seq::empty(), Seq::empty())
}

/// No character of `s` is an operator character.
pub open spec fn no_specials(s: Seq<char>) -> bool {
    forall|i: int| 0 <= i < s.len() ==> !is_special(s[i])
}

/// No character of any of the tokens is an operator character.
pub open spec fn tokens_no_specials(ts: Seq<Seq<char>>) -> bool {
    forall|i: int| 0 <= i < ts.len() ==> no_specials(ts[i])
}

/// Tokenizing text without operator characters yields tokens without
/// operator characters: every token's characters come from the input.
pub proof fn lemma_tokenize_from_no_specials(s: Seq<char>, cur: Seq<char>, acc: Seq<Seq<char>>)
    requires
        no_specials(s),
        no_specials(cur),
        tokens_no_specials(acc),
    ensures
        tokens_no_specials(tokenize_from(s, cur, acc)),
    decreases s.len(),
{
    if s.len() == 0 {
        if cur.len() > 0 {
            assert forall|i: int| 0 <= i < acc.push(cur).len() implies no_specials(
                acc.push(cur)[i],
            ) by {
                if i < acc.len() {
                    assert(acc.push(cur)[i] == acc[i]);
                } else {
                    assert(acc.push(cur)[i] == cur);
                }
            }
        }
    } else {
        assert(no_specials(s.skip(1))) by {
            assert forall|i: int| 0 <= i < s.skip(1).len() implies !is_special(s.skip(1)[i]) by {
                assert(s.skip(1)[i] == s[i + 1]);
            }
        }
        assert(!is_special(s[0]));
        if is_space(s[0]) {
            let done = if cur.len() == 0 {
                acc
            } else {
                acc.push(cur)
            };
            assert(tokens_no_specials(done)) by {
                if cur.len() > 0 {
                    assert forall|i: int| 0 <= i < acc.push(cur).len() implies no_specials(
                        acc.push(cur)[i],
                    ) by {
                        if i < acc.len() {
                            assert(acc.push(cur)[i] == acc[i]);
                        } else {
                            assert(acc.push(cur)[i] == cur);
                        }
                    }
                }
            }
            lemma_tokenize_from_no_specials(s.skip(1), Seq::empty(), done);
        } else {
            assert(no_specials(cur.push(s[0]))) by {
                assert forall|i: int| 0 <= i < cur.push(s[0]).len() implies !is_special(
                    cur.push(s[0])[i],
                ) by {
                    if i < cur.len() {
                        assert(cur.push(s[0])[i] == cur[i]);
                    } else {
                        assert(cur.push(s[0])[i] == s[0]);
                    }
                }
            }
            lemma_tokenize_from_no_specials(s.skip(1), cur.push(s[0]), acc);
        }
    }
}

/// The steps the tokenizer takes on `before + [c] + after` and on
/// `before + [' ', c, ' '] + after` from any one state agree when `c` is
/// an operator character: the operator ends the current word by itself,
/// so the spaces around it add nothing.
proof fn lemma_tokenize_from_adjacency(
    before: Seq<char>,
    c: char,
    after: Seq<char>,
    cur: Seq<char>,
    acc: Seq<Seq<char>>,
)
    requires
        is_special(c),
    ensures
        tokenize_from(before + seq![c] + after, cur, acc) == tokenize_from(
            before + seq![' ', c, ' '] + after,
            cur,
            acc,
        ),
    decreases before.len(),
{
    let l = before + seq![c] + after;
    let r = before + seq![' ', c, ' '] + after;
    let done = if cur.len() == 0 {
        acc
    } else {
        acc.push(cur)
    };
    if before.len() == 0 {
        assert(l[0] == c);
        assert(l.skip(1) =~= after);
        assert(tokenize_from(l, cur, acc) == tokenize_from(
            after,
            Seq::empty(),
            done.push(seq![c]),
        ));
        assert(r[0] == ' ');
        assert(r.skip(1) =~= seq![c, ' '] + after);
        assert(tokenize_from(r, cur, acc) == tokenize_from(
            seq![c, ' '] + after,
            Seq::empty(),
            done,
        ));
        let m = seq![c, ' '] + after;
        assert(m[0] == c);
        assert(m.skip(1) =~= seq![' '] + after);
        assert(tokenize_from(m, Seq::empty(), done) == tokenize_from(
            seq![' '] + after,
            Seq::empty(),
            done.push(seq![c]),
        ));
        let m2 = seq![' '] + after;
        assert(m2[0] == ' ');
        assert(m2.skip(1) =~= after);
        assert(tokenize_from(m2, Seq::empty(), done.push(seq![c])) == tokenize_from(
            after,
            Seq::empty(),
            done.push(seq![c]),
        ));
    } else {
        let h = before[0];
        assert(l[0] == h);
        assert(r[0] == h);
        assert(l.skip(1) =~= before.skip(1) + seq![c] + after);
        assert(r.skip(1) =~= before.skip(1) + seq![' ', c, ' '] + after);
        if is_space(h) {
            lemma_tokenize_from_adjacency(before.skip(1), c, after, Seq::empty(), done);
        } else if is_special(h) {
            lemma_tokenize_from_adjacency(
                before.skip(1),
                c,
                after,
                Seq::empty(),
                done.push(seq![h]),
            );
        } else {
            lemma_tokenize_from_adjacency(before.skip(1), c, after, cur.push(h), acc);
        }
    }
}

/// Operator-adjacency invariance: an operator character tokenizes the
/// same with or without spaces around it, wherever it stands in the line.
/// In particular `"a|b"` tokenizes exactly as `"a | b"` does.
pub proof fn lemma_operator_adjacency(before: Seq<char>, c: char, after: Seq<char>)
    requires
        is_special(c),
    ensures
        spec_tokenize(before + seq![c] + after) == spec_tokenize(
            before + seq![' ', c, ' '] + after,
        ),
{
    lemma_tokenize_from_adjacency(before, c, after, Seq::empty(), Seq::empty());
}

/// Splits the input into tokens: words separated by whitespace, with each
/// `|`, `>`, `<` forced to be a token of its own.
pub fn tokenize(input: &str) -> (tokens: Vec<String>)
    ensures
        tokens.deep_view() == spec_tokenize(input@),
{
    let n = input.unicode_len();
    let mut acc: Vec<String> = Vec::new();
    let mut cur: String = String::new();
    let mut i: usize = 0;
    proof {
        assert(input@.skip(0) =~= input@);
        assert(acc.deep_view() =~= Seq::<Seq<char>>::empty());
    }
    while i < n
        invariant
            i <= n,
            n == input@.len(),
            tokenize_from(input@.skip(i as int), cur@, acc.deep_view()) == spec_tokenize(input@),
        decreases n - i,
    {
        let c = input.get_char(i);
        let ghost s_rem = input@.skip(i as int);
        let ghost cur0 = cur@;
        let ghost acc0 = acc.deep_view();
        proof {
            assert(s_rem.skip(1) =~= input@.skip(i as int + 1));
            assert(s_rem[0] == c);
            assert(s_rem.len() > 0);
        }
        if is_space_char(c) {
            if !cur.as_str().is_empty() {
                let ghost pre = acc.deep_view();
                let ghost curv = cur@;
                acc.push(cur);
                cur = String::new();
                proof {
                    assert(acc.deep_view() =~= pre.push(curv));
                }
            }
            proof {
                assert(is_space(s_rem[0]));
                if cur0.len() == 0 {
                    assert(cur0 =~= Seq::<char>::empty());
                }
                assert(tokenize_from(s_rem, cur0, acc0) == tokenize_from(
                    s_rem.skip(1),
                    cur@,
                    acc.deep_view(),
                ));
            }
        } else if c == '|' || c == '>' || c == '<' {
            if !cur.as_str().is_empty() {
                let ghost pre = acc.deep_view();
                let ghost curv = cur@;
                acc.push(cur);
                cur = String::new();
                proof {
                    assert(acc.deep_view() =~= pre.push(curv));
                }
            }
            let mut op = String::new();
            push_char(&mut op, c);
            let ghost pre = acc.deep_view();
            proof {
                assert(op@ =~= seq![c]);
            }
            acc.push(op);
            proof {
                assert(acc.deep_view() =~= pre.push(seq![c]));
                assert(is_special(s_rem[0]) && !is_space(s_rem[0]));
                if cur0.len() == 0 {
                    assert(cur0 =~= Seq::<char>::empty());
                }
                assert(tokenize_from(s_rem, cur0, acc0) == tokenize_from(
                    s_rem.skip(1),
                    cur@,
                    acc.deep_view(),
                ));
            }
        } else {
            push_char(&mut cur, c);
            proof {
                assert(!is_space(s_rem[0]) && !is_special(s_rem[0]));
                assert(cur@ == cur0.push(c));
                assert(tokenize_from(s_rem, cur0, acc0) == tokenize_from(
                    s_rem.skip(1),
                    cur@,
                    acc.deep_view(),
                ));
            }
        }
        i += 1;
    }
    proof {
        assert(input@.skip(i as int) =~= Seq::<char>::empty());
    }
    if !cur.as_str().is_empty() {
        let ghost pre = acc.deep_view();
        let ghost curv = cur@;
        acc.push(cur);
        proof {
            assert(acc.deep_view() =~= pre.push(curv));
        }
    }
    acc
}

} // verus!
