//! Upper and lower case.

use vstd::prelude::*;

verus! {

/// The lower-case form of an ASCII letter; any other character as it is.
pub open spec fn lower_char(c: char) -> char {
    if 'A' <= c && c <= 'Z' {
        (c as u32 + 32) as char
    } else {
        c
    }
}

/// The upper-case form of an ASCII letter; any other character as it is.
pub open spec fn upper_char(c: char) -> char {
    if 'a' <= c && c <= 'z' {
        (c as u32 - 32) as char
    } else {
        c
    }
}

/// `s` with its ASCII letters in lower case.
pub open spec fn lower_ascii(s: Seq<char>) -> Seq<char> {
    Seq::new(s.len(), |i: int| lower_char(s[i]))
}

/// `s` with its ASCII letters in upper case.
pub open spec fn upper_ascii(s: Seq<char>) -> Seq<char> {
    Seq::new(s.len(), |i: int| upper_char(s[i]))
}

/// Whether every character of `s` is an ASCII character.
pub open spec fn is_ascii_text(s: Seq<char>) -> bool {
    forall|i: int| 0 <= i < s.len() ==> (#[trigger] s[i] as u32) < 0x80
}

/// The lower-case equivalent of a text, as `str::to_lowercase` gives it.
pub uninterp spec fn lowercase(s: Seq<char>) -> Seq<char>;

/// The upper-case equivalent of a text, as `str::to_uppercase` gives it.
pub uninterp spec fn uppercase(s: Seq<char>) -> Seq<char>;

/// `str::to_lowercase` gives the lower-case equivalent of a text by Unicode's
/// rules, which depends on the text alone. In ASCII text it changes the letters
/// from A to Z and nothing else.
pub assume_specification[ str::to_lowercase ](s: &str) -> (r: String)
    ensures
        r@ == lowercase(s@),
        is_ascii_text(s@) ==> r@ == lower_ascii(s@),
;

/// `str::to_uppercase` gives the upper-case equivalent of a text by Unicode's
/// rules, which depends on the text alone. In ASCII text it changes the letters
/// from a to z and nothing else.
pub assume_specification[ str::to_uppercase ](s: &str) -> (r: String)
    ensures
        r@ == uppercase(s@),
        is_ascii_text(s@) ==> r@ == upper_ascii(s@),
;

fn lowered_char(c: char) -> (r: char)
    ensures
        r == lower_char(c),
{
    if 'A' <= c && c <= 'Z' {
        let u: u8 = c as u8;
        (u + 32) as char
    } else {
        c
    }
}

/// `v` with its ASCII letters in lower case.
pub fn lowered(v: &Vec<char>) -> (r: Vec<char>)
    ensures
        r@ == lower_ascii(v@),
{
    let mut out: Vec<char> = Vec::new();
    let n = v.len();
    for i in 0..n
        invariant
            n == v@.len(),
            out@ == lower_ascii(v@).take(i as int),
    {
        out.push(lowered_char(v[i]));
    }
    out
}

/// Upper-case letters become the lower-case ones at their place in the alphabet,
/// and back. Other characters stay.
pub proof fn law_case_follows_alphabet(c: char)
    ensures
        'A' <= c && c <= 'Z' ==> lower_char(c) as u32 == c as u32 + 32,
        'a' <= c && c <= 'z' ==> upper_char(c) as u32 == c as u32 - 32,
        !('A' <= c && c <= 'Z') ==> lower_char(c) == c,
        !('a' <= c && c <= 'z') ==> upper_char(c) == c,
        'a' <= c && c <= 'z' ==> lower_char(upper_char(c)) == c,
{
}

} // verus!
