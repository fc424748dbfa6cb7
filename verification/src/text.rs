//! Whitespace-insensitive comparison of rendered token text.
//!
//! Two renderings of the same declaration may differ in spacing and line
//! breaks; a transformer test treats them as equal when they agree after
//! every whitespace character is removed.

use vstd::prelude::*;

verus! {

/// A character with the Unicode `White_Space` property; these are exactly
/// the characters that `char::is_whitespace` reports.
pub open spec fn is_ws(c: char) -> bool {
    ||| c == ' '
    ||| c == '\t'
    ||| c == '\n'
    ||| c == '\u{b}'
    ||| c == '\u{c}'
    ||| c == '\r'
    ||| c == '\u{85}'
    ||| c == '\u{a0}'
    ||| c == '\u{1680}'
    ||| c == '\u{2000}'
    ||| c == '\u{2001}'
    ||| c == '\u{2002}'
    ||| c == '\u{2003}'
    ||| c == '\u{2004}'
    ||| c == '\u{2005}'
    ||| c == '\u{2006}'
    ||| c == '\u{2007}'
    ||| c == '\u{2008}'
    ||| c == '\u{2009}'
    ||| c == '\u{200a}'
    ||| c == '\u{2028}'
    ||| c == '\u{2029}'
    ||| c == '\u{202f}'
    ||| c == '\u{205f}'
    ||| c == '\u{3000}'
}

/// The text with every whitespace character removed.
pub open spec fn strip_ws(s: Seq<char>) -> Seq<char> {
    s.filter(|c: char| !is_ws(c))
}

/// Whether two texts are equal once whitespace is ignored.
pub open spec fn eq_modulo_ws(a: Seq<char>, b: Seq<char>) -> bool {
    strip_ws(a) == strip_ws(b)
}

/// Whether `c` has the Unicode `White_Space` property.
pub fn is_whitespace_char(c: char) -> (r: bool)
    ensures
        r == is_ws(c),
{
    c == ' ' || c == '\t' || c == '\n' || c == '\u{b}' || c == '\u{c}' || c == '\r'
        || c == '\u{85}' || c == '\u{a0}' || c == '\u{1680}' || c == '\u{2000}' || c == '\u{2001}'
        || c == '\u{2002}' || c == '\u{2003}' || c == '\u{2004}' || c == '\u{2005}'
        || c == '\u{2006}' || c == '\u{2007}' || c == '\u{2008}' || c == '\u{2009}'
        || c == '\u{200a}' || c == '\u{2028}' || c == '\u{2029}' || c == '\u{202f}'
        || c == '\u{205f}' || c == '\u{3000}'
}

/// Whether two string slices hold the same characters.
pub fn str_eq(a: &str, b: &str) -> (r: bool)
    ensures
        r == (a@ == b@),
{
    let sa = a.to_owned();
    let sb = b.to_owned();
    sa == sb
}

/// The characters of `s` that are not whitespace, in order.
pub fn remove_whitespace(s: &str) -> (r: Vec<char>)
    ensures
        r@ == strip_ws(s@),
{
    let len = s.unicode_len();
    let mut r: Vec<char> = Vec::new();
    let mut i: usize = 0;
    while i < len
        invariant
            len == s@.len(),
            i <= len,
            r@ == strip_ws(s@.subrange(0, i as int)),
        decreases len - i,
    {
        let c = s.get_char(i);
        proof {
            reveal(Seq::filter);
            assert(s@.subrange(0, i + 1).drop_last() =~= s@.subrange(0, i as int));
            assert(s@.subrange(0, i + 1).last() == c);
        }
        if !is_whitespace_char(c) {
            r.push(c);
        }
        i = i + 1;
    }
    proof {
        assert(s@.subrange(0, len as int) =~= s@);
    }
    r
}

/// Whether `a` and `b` are equal after every whitespace character is removed.
pub fn matches_modulo_whitespace(a: &str, b: &str) -> (r: bool)
    ensures
        r == eq_modulo_ws(a@, b@),
{
    let sa = remove_whitespace(a);
    let sb = remove_whitespace(b);
    if sa.len() != sb.len() {
        return false;
    }
    let mut i: usize = 0;
    while i < sa.len()
        invariant
            sa@ == strip_ws(a@),
            sb@ == strip_ws(b@),
            sa.len() == sb.len(),
            i <= sa.len(),
            forall|j: int| 0 <= j < i ==> sa@[j] == sb@[j],
        decreases sa.len() - i,
    {
        if sa[i] != sb[i] {
            proof {
                assert(strip_ws(a@)[i as int] != strip_ws(b@)[i as int]);
            }
            return false;
        }
        i = i + 1;
    }
    proof {
        assert(sa@ =~= sb@);
    }
    true
}

} // verus!
