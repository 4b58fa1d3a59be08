//! ASCII upper-casing, as the answering tasks use it.

use vstd::prelude::*;

verus! {

/// The ASCII upper case of a character: `a` to `z` become `A` to `Z`, every
/// other character stays.
pub open spec fn ascii_upper(c: char) -> char {
    if 'a' <= c && c <= 'z' {
        ((c as int) - 32) as char
    } else {
        c
    }
}

/// The ASCII upper case of a string, character by character.
pub open spec fn ascii_upper_seq(s: Seq<char>) -> Seq<char> {
    s.map_values(|c: char| ascii_upper(c))
}

/// Upper-casing keeps the length, and maps each character on its own: a
/// letter from `a` to `z` moves 32 code points down to its capital, every
/// other character stays where it is, whatever stands before or after it.
pub proof fn law_ascii_upper_each_char(s: Seq<char>)
    ensures
        ascii_upper_seq(s).len() == s.len(),
        forall|i: int|
            0 <= i < s.len() && 'a' <= s[i] && s[i] <= 'z' ==> #[trigger] ascii_upper_seq(s)[i] as int
                == s[i] as int - 32,
        forall|i: int|
            0 <= i < s.len() && !('a' <= s[i] && s[i] <= 'z') ==> #[trigger] ascii_upper_seq(s)[i]
                == s[i],
{
}

/// Upper-casing a concatenation is concatenating the upper-cased parts: no
/// character's case depends on its neighbours.
pub proof fn law_ascii_upper_concat(s: Seq<char>, t: Seq<char>)
    ensures
        ascii_upper_seq(s + t) == ascii_upper_seq(s) + ascii_upper_seq(t),
{
    assert(ascii_upper_seq(s + t) =~= ascii_upper_seq(s) + ascii_upper_seq(t));
}

/// Calls `str::to_ascii_uppercase`, which maps `a` to `z` onto `A` to `Z`
/// and leaves every other character as it is.
#[verifier::external_body]
pub(crate) fn to_ascii_uppercase(s: &str) -> (upper: String)
    ensures
        upper@ == ascii_upper_seq(s@),
{
    s.to_ascii_uppercase()
}

} // verus!
