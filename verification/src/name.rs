//! Deriving a generated variant's name: the capitalized-word form of the
//! handler's lower-snake identifier.

use vstd::prelude::*;
use vstd::string::StrSliceExecFns;

verus! {

/// What `char::to_uppercase` yields for one character.
pub uninterp spec fn upper_of(c: char) -> Seq<char>;

/// Relies on char::to_uppercase: yields the character's Unicode uppercase
/// mapping, which depends on the character alone; at least one character
/// comes back (the character itself when it has no mapping).
#[verifier::external_body]
fn char_upper(c: char) -> (r: Vec<char>)
    ensures
        r@ == upper_of(c),
        r@.len() >= 1,
{
    c.to_uppercase().collect()
}

/// Relies on String::push: appends the given character to the end.
#[verifier::external_body]
fn push_char(s: &mut String, c: char)
    ensures
        final(s)@ == old(s)@.push(c),
{
    s.push(c);
}

/// The tail of the conversion: what remains of `s` contributes when the
/// next non-separator character begins a segment iff `at_start`.
pub open spec fn pascal_rec(s: Seq<char>, at_start: bool) -> Seq<char>
    decreases s.len(),
{
    if s.len() == 0 {
        Seq::empty()
    } else if s[0] == '_' {
        pascal_rec(s.skip(1), true)
    } else if at_start {
        upper_of(s[0]) + pascal_rec(s.skip(1), false)
    } else {
        seq![s[0]] + pascal_rec(s.skip(1), false)
    }
}

/// The capitalized-word form of a lower-snake identifier: split on `_`,
/// drop the separators, uppercase each segment's first character, and
/// concatenate the segments.
pub open spec fn pascal_of(s: Seq<char>) -> Seq<char> {
    pascal_rec(s, true)
}

/// Converts a lower-snake identifier to its capitalized-word form.
pub fn snake_to_pascal(name: &str) -> (r: String)
    ensures
        r@ == pascal_of(name@),
{
    let n = name.unicode_len();
    let mut out = String::new();
    let mut at_start: bool = true;
    let mut i: usize = 0;
    proof {
        assert(name@.skip(0) =~= name@);
        assert(out@ + pascal_rec(name@, true) =~= pascal_rec(name@, true));
    }
    while i < n
        invariant
            i <= n,
            n == name@.len(),
            pascal_of(name@) == out@ + pascal_rec(name@.skip(i as int), at_start),
        decreases n - i,
    {
        let ghost rest = name@.skip(i as int);
        proof {
            assert(rest.len() > 0);
            assert(rest[0] == name@[i as int]);
            assert(rest.skip(1) =~= name@.skip(i as int + 1));
        }
        let c = name.get_char(i);
        if c == '_' {
            at_start = true;
        } else if at_start {
            let up = char_upper(c);
            let ghost out0 = out@;
            let mut j: usize = 0;
            while j < up.len()
                invariant
                    j <= up@.len(),
                    up@ == upper_of(c),
                    out@ == out0 + up@.take(j as int),
                decreases up@.len() - j,
            {
                push_char(&mut out, up[j]);
                proof {
                    assert(out0 + up@.take(j as int + 1) =~= (out0 + up@.take(j as int)).push(
                        up@[j as int],
                    ));
                }
                j = j + 1;
            }
            proof {
                assert(up@.take(up@.len() as int) =~= up@);
                assert(out@ =~= out0 + upper_of(c));
                assert(out@ + pascal_rec(rest.skip(1), false) =~= out0 + (upper_of(c)
                    + pascal_rec(rest.skip(1), false)));
            }
            at_start = false;
        } else {
            let ghost out1 = out@;
            push_char(&mut out, c);
            proof {
                assert(out@ =~= out1 + seq![c]);
                assert(out@ + pascal_rec(rest.skip(1), false) =~= out1 + (seq![c] + pascal_rec(
                    rest.skip(1),
                    false,
                )));
            }
            at_start = false;
        }
        i = i + 1;
    }
    proof {
        assert(name@.skip(n as int) =~= Seq::<char>::empty());
        assert(out@ + Seq::<char>::empty() =~= out@);
    }
    out
}

} // verus!
