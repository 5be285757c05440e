//! Names for embedded directories.
//!
//! Each embedded directory is stored in a static datum whose identifier is
//! derived from the path literal that names the directory.

use vstd::prelude::*;

verus! {

/// Whether `c` is one of `0-9`, `A-Z`, `a-z`.
pub open spec fn is_ascii_alphanumeric(c: char) -> bool {
    ||| '0' <= c <= '9'
    ||| 'A' <= c <= 'Z'
    ||| 'a' <= c <= 'z'
}

/// `c` with the letters `a-z` mapped to `A-Z`; any other character is unchanged.
pub open spec fn ascii_uppercase(c: char) -> char {
    if 'a' <= c <= 'z' {
        ((c as u32) - 32) as char
    } else {
        c
    }
}

/// The character that stands for `c` in an identifier.
pub open spec fn identifier_char(c: char) -> char {
    if is_ascii_alphanumeric(c) {
        ascii_uppercase(c)
    } else {
        '_'
    }
}

/// What every synthesized identifier starts with.
pub open spec fn identifier_prefix() -> Seq<char> {
    seq!['D', 'I', 'R', '_']
}

/// The identifier synthesized for the path `path`.
pub open spec fn identifier_of(path: Seq<char>) -> Seq<char> {
    identifier_prefix() + path.map_values(|c: char| identifier_char(c))
}

/// Whether `c` may stand in a synthesized identifier: `A-Z`, `0-9` or `_`.
pub open spec fn is_identifier_char(c: char) -> bool {
    ||| 'A' <= c <= 'Z'
    ||| '0' <= c <= '9'
    ||| c == '_'
}

/// A synthesized identifier can be written down as an identifier: it starts
/// with a letter, holds one character for each character of the path after
/// its prefix, and every character of it is an upper-case ASCII letter, a
/// digit or an underscore.
pub proof fn lemma_identifier_is_wellformed(path: Seq<char>)
    ensures
        identifier_of(path).len() == 4 + path.len(),
        identifier_of(path)[0] == 'D',
        forall|i: int|
            0 <= i < identifier_of(path).len() ==> is_identifier_char(
                #[trigger] identifier_of(path)[i],
            ),
{
}

/// `char::is_ascii_alphanumeric` is true exactly of `0-9`, `A-Z` and `a-z`.
pub assume_specification[ char::is_ascii_alphanumeric ](c: &char) -> (b: bool)
    ensures
        b == is_ascii_alphanumeric(*c),
;

/// `char::to_ascii_uppercase` maps `a-z` to `A-Z` and leaves every other
/// character as it is.
pub assume_specification[ char::to_ascii_uppercase ](c: &char) -> (u: char)
    ensures
        u == ascii_uppercase(*c),
;

/// `String::push` appends one character.
pub assume_specification[ String::push ](s: &mut String, c: char)
    ensures
        final(s)@ == old(s)@.push(c),
;

/// Synthesizes the identifier of the static datum that holds the directory
/// named by `s`: `DIR_`, then one character for each character of `s`, an
/// ASCII letter or digit in upper case and `_` for anything else.
pub fn sanitize_identifier(s: &str) -> (result: String)
    ensures
        result@ == identifier_of(s@),
{
    let mut result = "DIR_".to_owned();
    proof {
        reveal_strlit("DIR_");
    }
    for c in it: s.chars()
        invariant
            result@ == identifier_of(it.seq().take(it.index())),
    {
        if c.is_ascii_alphanumeric() {
            result.push(c.to_ascii_uppercase());
        } else {
            result.push('_');
        }
    }
    result
}

} // verus!
