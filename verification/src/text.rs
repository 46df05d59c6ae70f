//! Small verified helpers on text.

use vstd::prelude::*;

verus! {

broadcast use vstd::string::axiom_spec_iter;

/// The characters of `s`, in order.
pub fn chars_of(s: &str) -> (r: Vec<char>)
    ensures
        r@ == s@,
{
    let mut out: Vec<char> = Vec::new();
    for c in it: s.chars()
        invariant
            it.seq() == s@,
            out@ == it.seq().take(it.index() as int),
    {
        out.push(c);
    }
    out
}

/// Appends `c` to `s` with `String::push`.
#[verifier::external_body]
pub fn push_char(s: &mut String, c: char)
    ensures
        final(s)@ == old(s)@.push(c),
{
    s.push(c)
}

/// The string made of `chars[start..]`.
pub fn string_from(chars: &Vec<char>, start: usize) -> (r: String)
    requires
        start <= chars@.len(),
    ensures
        r@ == chars@.skip(start as int),
{
    let mut out = String::new();
    let mut i: usize = start;
    while i < chars.len()
        invariant
            start <= i <= chars@.len(),
            out@ == chars@.subrange(start as int, i as int),
        decreases chars@.len() - i,
    {
        push_char(&mut out, chars[i]);
        i = i + 1;
        assert(out@ =~= chars@.subrange(start as int, i as int));
    }
    assert(chars@.subrange(start as int, chars@.len() as int) =~= chars@.skip(start as int));
    out
}

} // verus!
