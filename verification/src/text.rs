//! Building text one character at a time.

use vstd::prelude::*;

verus! {

/// Calls `String::push`: the character is appended to the string.
#[verifier::external_body]
pub(crate) fn push_char(text: &mut String, c: char)
    ensures
        final(text)@ == old(text)@.push(c),
{
    text.push(c)
}

/// Appends `c` to `text` `times` times.
pub(crate) fn push_repeated(text: &mut String, c: char, times: usize)
    ensures
        final(text)@ == old(text)@ + Seq::new(times as nat, |i: int| c),
{
    let mut done: usize = 0;
    while done < times
        invariant
            done <= times,
            text@ == old(text)@ + Seq::new(done as nat, |i: int| c),
        decreases times - done,
    {
        push_char(text, c);
        done = done + 1;
        assert(text@ =~= old(text)@ + Seq::new(done as nat, |i: int| c));
    }
}

/// Appends every character of `tail` to `text`.
pub(crate) fn push_all(text: &mut String, tail: &Vec<char>)
    ensures
        final(text)@ == old(text)@ + tail@,
{
    let mut done: usize = 0;
    while done < tail.len()
        invariant
            done <= tail.len(),
            text@ == old(text)@ + tail@.subrange(0, done as int),
        decreases tail.len() - done,
    {
        push_char(text, tail[done]);
        done = done + 1;
        assert(text@ =~= old(text)@ + tail@.subrange(0, done as int));
    }
    assert(tail@.subrange(0, done as int) =~= tail@);
}

} // verus!
