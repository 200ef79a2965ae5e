//! Character-level string helpers. Both engines compare text by decoded
//! characters, never by bytes, so multi-byte targets are handled correctly.

use vstd::prelude::*;
use vstd::string::StrSliceExecFns;
use vstd::string::StringExecFns;

verus! {

/// Character-wise string equality.
pub fn str_eq(a: &str, b: &str) -> (r: bool)
    ensures
        r == (a@ == b@),
{
    let la = a.unicode_len();
    let lb = b.unicode_len();
    if la != lb {
        proof {
            assert(a@ != b@) by {
                assert(a@.len() != b@.len());
            }
        }
        return false;
    }
    let mut i: usize = 0;
    while i < la
        invariant
            la == a@.len(),
            la == b@.len(),
            i <= la,
            forall|j: int| 0 <= j < i ==> a@[j] == b@[j],
        decreases la - i,
    {
        if a.get_char(i) != b.get_char(i) {
            return false;
        }
        i += 1;
    }
    proof {
        assert(a@ =~= b@);
    }
    true
}

/// The decoded characters of a string, as a vector.
pub fn chars_of(s: &str) -> (r: Vec<char>)
    ensures
        r@ == s@,
{
    let len = s.unicode_len();
    let mut r: Vec<char> = Vec::new();
    let mut i: usize = 0;
    while i < len
        invariant
            len == s@.len(),
            i <= len,
            r@ =~= s@.subrange(0, i as int),
        decreases len - i,
    {
        r.push(s.get_char(i));
        i += 1;
    }
    proof {
        assert(r@ =~= s@);
    }
    r
}

/// Relies on `String::push`: appends one character to the end of the string.
#[verifier::external_body]
pub(crate) fn push_char(s: &mut String, c: char)
    ensures
        final(s)@ == old(s)@.push(c),
{
    s.push(c);
}

/// A string holding exactly the given characters.
pub fn string_from_chars(v: &Vec<char>) -> (s: String)
    ensures
        s@ == v@,
{
    let mut s = String::new();
    let mut i: usize = 0;
    while i < v.len()
        invariant
            i <= v@.len(),
            s@ =~= v@.subrange(0, i as int),
        decreases v@.len() - i,
    {
        push_char(&mut s, v[i]);
        i += 1;
    }
    proof {
        assert(s@ =~= v@);
    }
    s
}

/// `pattern` with every `{}` placeholder replaced by `sub`, scanning left to
/// right without overlap.
pub open spec fn replaced(pattern: Seq<char>, sub: Seq<char>) -> Seq<char>
    decreases pattern.len(),
{
    if pattern.len() < 2 {
        pattern
    } else if pattern[0] == '{' && pattern[1] == '}' {
        sub + replaced(pattern.skip(2), sub)
    } else {
        seq![pattern[0]] + replaced(pattern.skip(1), sub)
    }
}

/// Replaces every `{}` in `pattern` with `sub`.
pub fn replace_placeholder(pattern: &str, sub: &str) -> (r: String)
    ensures
        r@ == replaced(pattern@, sub@),
{
    let len = pattern.unicode_len();
    let mut out = String::new();
    let mut i: usize = 0;
    proof {
        assert(pattern@.skip(0) =~= pattern@);
        assert(out@ + pattern@ =~= pattern@);
    }
    while i < len
        invariant
            len == pattern@.len(),
            i <= len,
            replaced(pattern@, sub@) == out@ + replaced(pattern@.skip(i as int), sub@),
        decreases len - i,
    {
        let c = pattern.get_char(i);
        if c == '{' && i + 1 < len && pattern.get_char(i + 1) == '}' {
            proof {
                let rest = pattern@.skip(i as int);
                assert(rest.len() >= 2);
                assert(rest[0] == '{' && rest[1] == '}');
                assert(rest.skip(2) =~= pattern@.skip(i + 2));
            }
            out.append(sub);
            i += 2;
        } else {
            proof {
                let rest = pattern@.skip(i as int);
                assert(rest[0] == pattern@[i as int]);
                if rest.len() >= 2 {
                    assert(rest.skip(1) =~= pattern@.skip(i + 1));
                } else {
                    assert(rest =~= seq![pattern@[i as int]]);
                    assert(pattern@.skip(i + 1) =~= Seq::<char>::empty());
                }
                assert(out@ + rest == out@ + rest);
            }
            push_char(&mut out, c);
            i += 1;
        }
    }
    proof {
        assert(pattern@.skip(len as int) =~= Seq::<char>::empty());
        assert(out@ + Seq::<char>::empty() =~= out@);
    }
    out
}

} // verus!
