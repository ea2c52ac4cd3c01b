//! Character-level helpers on strings: appending a character, equality and
//! single-character operator tests, all specified over the `Seq<char>` view.

use vstd::prelude::*;

verus! {

/// Relies on `String::push`: appends the character to the end of the string.
#[verifier::external_body]
pub(crate) fn push_char(s: &mut String, c: char)
    ensures
        final(s)@ == old(s)@.push(c),
{
    s.push(c);
}

/// Character-by-character string equality.
pub fn str_eq(a: &str, b: &str) -> (r: bool)
    ensures
        r == (a@ == b@),
{
    let na = a.unicode_len();
    let nb = b.unicode_len();
    if na != nb {
        proof {
            if a@ == b@ {
                assert(a@.len() == b@.len());
            }
        }
        return false;
    }
    let mut i: usize = 0;
    while i < na
        invariant
            i <= na,
            na == a@.len(),
            nb == b@.len(),
            na == nb,
            forall|j: int| 0 <= j < i ==> a@[j] == b@[j],
        decreases na - i,
    {
        let ca = a.get_char(i);
        let cb = b.get_char(i);
        if ca != cb {
            proof {
                if a@ == b@ {
                    assert(a@[i as int] == b@[i as int]);
                }
            }
            return false;
        }
        i += 1;
    }
    proof {
        assert(a@ =~= b@);
    }
    true
}

/// Whether `t` is exactly the one-character token `c`.
pub fn is_op(t: &str, c: char) -> (r: bool)
    ensures
        r == (t@ == seq![c]),
{
    if t.unicode_len() != 1 {
        proof {
            if t@ == seq![c] {
                assert(t@.len() == 1);
            }
        }
        false
    } else {
        let c0 = t.get_char(0);
        if c0 == c {
            proof {
                assert(t@ =~= seq![c]);
            }
            true
        } else {
            proof {
                if t@ == seq![c] {
                    assert(t@[0] == c);
                }
            }
            false
        }
    }
}

} // verus!
