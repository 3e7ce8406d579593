//! Text helpers shared by the item kinds.

use vstd::prelude::*;

verus! {

/// The character entity that stands for a line feed in an edit form.
pub open spec fn line_feed_entity() -> Seq<char> {
    seq!['&', '#', '1', '0', ';']
}

/// `s` with every line feed replaced by [`line_feed_entity`].
pub open spec fn broken_lines(s: Seq<char>) -> Seq<char>
    decreases s.len(),
{
    if s.len() == 0 {
        Seq::empty()
    } else if s.last() == '\n' {
        broken_lines(s.drop_last()) + line_feed_entity()
    } else {
        broken_lines(s.drop_last()).push(s.last())
    }
}

/// `String::push` of the standard library: the string grows by exactly the
/// character given, at its end.
#[verifier::external_body]
pub(crate) fn push_char(s: &mut String, c: char)
    ensures
        final(s)@ == old(s)@.push(c),
{
    s.push(c)
}

/// Replaces every line feed of `text` by the entity `&#10;`, so that the
/// text survives as the value of a form field.
pub fn break_lines(text: &str) -> (res: String)
    ensures
        res@ == broken_lines(text@),
{
    let mut out = String::new();
    for c in it: text.chars()
        invariant
            it.seq() == text@,
            out@ == broken_lines(text@.take(it.index() as int)),
    {
        proof {
            let n = it.index() as int;
            assert(text@.take(n + 1).drop_last() == text@.take(n));
            assert(text@.take(n + 1).last() == c);
        }
        if c == '\n' {
            out.append("&#10;");
            proof {
                reveal_strlit("&#10;");
                assert("&#10;"@ == line_feed_entity());
            }
        } else {
            push_char(&mut out, c);
        }
    }
    proof {
        assert(text@.take(text@.len() as int) == text@);
    }
    out
}

} // verus!
