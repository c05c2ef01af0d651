//! Small operations on text.

use vstd::prelude::*;
use vstd::string::StringExecFns;

verus! {

/// Appends one character to `text`.
///
/// Calls `String::push` of the standard library, which appends the
/// character to the end of the string.
#[verifier::external_body]
pub(crate) fn push_char(text: &mut String, c: char)
    ensures
        final(text)@ == old(text)@.push(c),
{
    text.push(c);
}

/// Whether two texts are the same.
pub fn same_text(a: &str, b: &str) -> (same: bool)
    ensures
        same == (a@ == b@),
{
    let left = String::from_str(a);
    let right = String::from_str(b);
    left == right
}

/// `text` without any occurrence of the character `c`.
pub open spec fn without_char(text: Seq<char>, c: char) -> Seq<char>
    decreases text.len(),
{
    if text.len() == 0 {
        text
    } else if text[0] == c {
        without_char(text.skip(1), c)
    } else {
        seq![text[0]] + without_char(text.skip(1), c)
    }
}

/// `text` without the occurrences of `a` directly followed by `b`, found
/// from the left; what was taken out is not looked at again.
pub open spec fn without_pair(text: Seq<char>, a: char, b: char) -> Seq<char>
    decreases text.len(),
{
    if text.len() < 2 {
        text
    } else if text[0] == a && text[1] == b {
        without_pair(text.skip(2), a, b)
    } else {
        seq![text[0]] + without_pair(text.skip(1), a, b)
    }
}

/// Removes every occurrence of the character `c`.
pub fn remove_char(text: &str, c: char) -> (kept: String)
    ensures
        kept@ == without_char(text@, c),
{
    let mut kept = String::new();
    assert(text@.skip(0) =~= text@);
    for x in it: text.chars()
        invariant
            it.seq() == text@,
            kept@ + without_char(text@.skip(it.index() as int), c) == without_char(text@, c),
    {
        let ghost at = it.index() as int;
        proof {
            let rest = text@.skip(at as int);
            assert(rest[0] == text@[at as int]);
            assert(rest.skip(1) =~= text@.skip(at + 1));
        }
        assert(x == text@[at as int]);
        if x != c {
            proof {
                assert(kept@.push(x) + without_char(text@.skip(at + 1), c) =~= kept@ + (seq![x]
                    + without_char(text@.skip(at + 1), c)));
            }
            push_char(&mut kept, x);
        }
    }
    assert(kept@ + Seq::<char>::empty() =~= kept@);
    kept
}

/// Removes every occurrence of `a` directly followed by `b`, in one pass
/// from the left.
pub fn remove_pair(text: &str, a: char, b: char) -> (kept: String)
    ensures
        kept@ == without_pair(text@, a, b),
{
    let mut kept = String::new();
    let mut held = false;
    let ghost length = text@.len() as int;
    assert(text@.skip(0) =~= text@);
    for x in it: text.chars()
        invariant
            it.seq() == text@,
            length == text@.len(),
            held ==> it.index() > 0 && text@[it.index() - 1] == a,
            kept@ + without_pair(
                text@.skip(if held { it.index() - 1 } else { it.index() as int }),
                a,
                b,
            ) == without_pair(text@, a, b),
    {
        let ghost at = it.index() as int;
        assert(x == text@[at as int]);
        proof {
            let rest = text@.skip(at as int);
            assert(rest.len() >= 1);
            assert(rest[0] == x);
            assert(rest.skip(1) =~= text@.skip(at + 1));
            if rest.len() >= 2 {
                assert(rest[1] == text@[at + 1]);
            }
            if held {
                let earlier = text@.skip(at - 1);
                assert(earlier[0] == a && earlier[1] == x);
                assert(earlier.skip(1) =~= rest);
                assert(earlier.skip(2) =~= text@.skip(at + 1));
            }
        }
        if held && x == b {
            held = false;
        } else {
            if held {
                proof {
                    assert(kept@.push(a) + without_pair(text@.skip(at as int), a, b) =~= kept@ + (
                    seq![a] + without_pair(text@.skip(at as int), a, b)));
                }
                push_char(&mut kept, a);
            }
            if x == a {
                held = true;
            } else {
                held = false;
                proof {
                    let rest = text@.skip(at as int);
                    assert(without_pair(rest, a, b) == seq![x] + without_pair(
                        text@.skip(at + 1),
                        a,
                        b,
                    ));
                    assert(kept@.push(x) + without_pair(text@.skip(at + 1), a, b) =~= kept@ + (
                    seq![x] + without_pair(text@.skip(at + 1), a, b)));
                }
                push_char(&mut kept, x);
            }
        }
    }
    if held {
        proof {
            let last = text@.skip(length - 1);
            assert(last.len() == 1);
            assert(last =~= seq![a]);
            assert(kept@.push(a) =~= kept@ + last);
        }
        push_char(&mut kept, a);
    } else {
        assert(kept@ + Seq::<char>::empty() =~= kept@);
    }
    kept
}

/// What is logged of the body of a probe reply: the body without spaces,
/// then without the pairs `{n`, then without line feeds.
pub open spec fn cleaned(body: Seq<char>) -> Seq<char> {
    without_char(without_pair(without_char(body, ' '), '{', 'n'), '\n')
}

/// Cleans the body of a probe reply for the log.
pub fn clean_probe_body(body: &str) -> (text: String)
    ensures
        text@ == cleaned(body@),
{
    let spaceless = remove_char(body, ' ');
    let pairless = remove_pair(spaceless.as_str(), '{', 'n');
    remove_char(pairless.as_str(), '\n')
}

} // verus!
