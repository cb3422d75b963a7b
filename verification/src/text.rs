//! Text helpers shared by the listings: padding to a column width,
//! lowercasing, hyphenation and prefix tests, all stated over `Seq<char>`.

use vstd::prelude::*;
use vstd::std_specs::iter::IteratorSpec;

verus! {

/// A run of `n` spaces.
pub open spec fn spaces(n: nat) -> Seq<char> {
    Seq::new(n, |i: int| ' ')
}

/// `s` left-justified in a column of `width` characters: spaces are added on
/// the right until the column is full; a longer `s` is left as it is.
pub open spec fn padded(s: Seq<char>, width: nat) -> Seq<char> {
    if s.len() >= width {
        s
    } else {
        s + spaces((width - s.len()) as nat)
    }
}

/// `s` with every space replaced by a hyphen; all other characters stay.
pub open spec fn hyphenated(s: Seq<char>) -> Seq<char> {
    Seq::new(s.len(), |i: int| if s[i] == ' ' { '-' } else { s[i] })
}

/// The lowercase form of `s` as the standard library computes it
/// (`str::to_lowercase`, which goes by Unicode's definition of lowercase and
/// may change the number of characters).
pub uninterp spec fn lowercase(s: Seq<char>) -> Seq<char>;

/// `String::push` appends one character to the end of the string.
pub assume_specification[ String::push ](s: &mut String, ch: char)
    ensures
        final(s)@ == old(s)@.push(ch),
;

/// `str::to_lowercase`: the result is the lowercase form of the argument, a
/// function of the argument's characters alone.
#[verifier::external_body]
pub(crate) fn to_lowercase(s: &str) -> (r: String)
    ensures
        r@ == lowercase(s@),
{
    s.to_lowercase()
}

/// Left-justifies `s` in a column of `width` characters.
pub fn pad_right(s: &str, width: usize) -> (r: String)
    ensures
        r@ == padded(s@, width as nat),
{
    let n: usize = s.unicode_len();
    let mut out: String = String::new();
    out.append(s);
    let mut i: usize = n;
    while i < width
        invariant
            n == s@.len(),
            n <= i,
            i == n || i <= width,
            out@ == s@ + spaces((i - n) as nat),
        decreases width - i,
    {
        proof {
            reveal_strlit(" ");
        }
        out.append(" ");
        i = i + 1;
    }
    assert(out@ =~= padded(s@, width as nat));
    out
}

/// Replaces every space of `s` by a hyphen.
pub fn hyphenate(s: &str) -> (r: String)
    ensures
        r@ == hyphenated(s@),
{
    let mut out: String = String::new();
    for c in it: s.chars()
        invariant
            out@ == hyphenated(s@.take(it.index() as int)),
            it.seq() == s@,
    {
        if c == ' ' {
            out.push('-');
        } else {
            out.push(c);
        }
    }
    out
}

/// Whether `s` begins with `prefix`.
pub fn starts_with(s: &str, prefix: &str) -> (r: bool)
    ensures
        r == prefix@.is_prefix_of(s@),
{
    let mut rest = s.chars();
    for wanted in it: prefix.chars()
        invariant
            it.seq() == prefix@,
            it.index() <= s@.len(),
            rest.remaining() == s@.skip(it.index() as int),
            rest.obeys_prophetic_iter_laws(),
            s@.take(it.index() as int) == prefix@.take(it.index() as int),
    {
        match rest.next() {
            None => {
                return false;
            },
            Some(c) => {
                if c != wanted {
                    assert(s@[it.index() as int] != prefix@[it.index() as int]);
                    return false;
                }
            },
        }
    }
    true
}

} // verus!
