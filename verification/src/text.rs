//! Character-level helpers on strings.
use vstd::prelude::*;
use vstd::string::*;

verus! {

/// The text of an optional string.
pub open spec fn opt_text(s: Option<String>) -> Option<Seq<char>> {
    match s {
        Some(t) => Some(t@),
        None => None,
    }
}

/// Appends one character to a string (`String::push`).
#[verifier::external_body]
pub(crate) fn push_char(s: &mut String, c: char)
    ensures
        final(s)@ == old(s)@.push(c),
{
    s.push(c);
}

/// The string made of the characters of `chars` from index `from` on.
pub fn string_from_chars(chars: &Vec<char>, from: usize) -> (s: String)
    requires
        from <= chars.len(),
    ensures
        s@ == chars@.skip(from as int),
{
    let mut s = String::new();
    let mut i = from;
    while i < chars.len()
        invariant
            from <= i <= chars.len(),
            s@ == chars@.subrange(from as int, i as int),
        decreases chars.len() - i,
    {
        push_char(&mut s, chars[i]);
        i = i + 1;
        assert(s@ =~= chars@.subrange(from as int, i as int));
    }
    assert(chars@.skip(from as int) =~= chars@.subrange(from as int, chars.len() as int));
    s
}

/// The characters of a string, in order.
pub fn chars_of(s: &str) -> (v: Vec<char>)
    ensures
        v@ == s@,
{
    let mut v: Vec<char> = Vec::new();
    for c in it: s.chars()
        invariant
            v@ == it.seq().take(it.index() as int),
    {
        v.push(c);
    }
    v
}

} // verus!
