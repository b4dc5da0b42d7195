//! The console channel: text goes out as one character-output call per
//! Unicode scalar value, in order. The functions here compute the codes that
//! are handed to the character-output call; performing the calls is the
//! caller's part.

use vstd::prelude::*;
use vstd::string::*;

verus! {

/// The codes handed to the character-output call for the text `s`: one per
/// character, its scalar value, in the order of the text.
pub open spec fn codes_of(s: Seq<char>) -> Seq<usize> {
    s.map_values(|c: char| c as usize)
}

/// The characters of `text`, in order.
pub fn chars_of(text: &str) -> (r: Vec<char>)
    ensures
        r@ == text@,
{
    let n = text.unicode_len();
    let mut r: Vec<char> = Vec::new();
    let mut i: usize = 0;
    while i < n
        invariant
            n == text@.len(),
            i <= n,
            r@ == text@.subrange(0, i as int),
        decreases n - i,
    {
        r.push(text.get_char(i));
        i = i + 1;
        assert(r@ =~= text@.subrange(0, i as int));
    }
    assert(r@ =~= text@);
    r
}

/// Serializes the characters `s` into character-output codes, one per
/// character, losing none and adding none.
pub fn write_chars(s: &[char]) -> (r: Vec<usize>)
    ensures
        r@ == codes_of(s@),
{
    let mut r: Vec<usize> = Vec::new();
    let mut i: usize = 0;
    while i < s.len()
        invariant
            i <= s@.len(),
            r@ == codes_of(s@.subrange(0, i as int)),
        decreases s@.len() - i,
    {
        r.push(s[i] as usize);
        i = i + 1;
        assert(r@ =~= codes_of(s@.subrange(0, i as int)));
    }
    assert(s@.subrange(0, s@.len() as int) =~= s@);
    r
}

/// Plain-text output: the codes of `text`, exactly, with nothing added.
pub fn print(text: &str) -> (r: Vec<usize>)
    ensures
        r@ == codes_of(text@),
{
    let cs = chars_of(text);
    write_chars(cs.as_slice())
}

/// Line output: the codes of `text` followed by exactly one newline.
pub fn println(text: &str) -> (r: Vec<usize>)
    ensures
        r@ == codes_of(text@.push('\n')),
{
    let mut cs = chars_of(text);
    cs.push('\n');
    write_chars(cs.as_slice())
}

} // verus!
