//! The shape a guess must have before it is passed on.

use vstd::prelude::*;
use vstd::string::*;
use vstd::utf8::encode_utf8;

verus! {

/// Number of bytes a guess occupies.
pub const WORD_LENGTH: usize = 5;

/// Whether a character has Unicode's derived property `Lowercase`.
pub uninterp spec fn unicode_lowercase(c: char) -> bool;

/// `char::is_lowercase` of the standard library: the answer is the Unicode
/// property that `unicode_lowercase` names, for the same character.
#[verifier::external_body]
fn is_lowercase(c: char) -> (lower: bool)
    ensures
        lower == unicode_lowercase(c),
{
    c.is_lowercase()
}

/// A guess is well-formed when its UTF-8 encoding is five bytes long and
/// every character of it is lowercase.
pub open spec fn valid_word(word: Seq<char>) -> bool {
    &&& encode_utf8(word).len() == WORD_LENGTH
    &&& forall|i: int| 0 <= i < word.len() ==> unicode_lowercase(#[trigger] word[i])
}

/// Decides whether `word` is a well-formed guess.
pub fn is_valid_word(word: &str) -> (ok: bool)
    ensures
        ok == valid_word(word@),
{
    if word.as_bytes().len() != WORD_LENGTH {
        return false;
    }
    let n: usize = word.unicode_len();
    let mut i: usize = 0;
    while i < n
        invariant
            i <= n,
            n == word@.len(),
            forall|j: int| 0 <= j < i ==> unicode_lowercase(#[trigger] word@[j]),
        decreases n - i,
    {
        if !is_lowercase(word.get_char(i)) {
            return false;
        }
        i += 1;
    }
    true
}

} // verus!
