use vstd::prelude::*;
use vstd::string::StringExecFns;
use crate::pool::views_of;

verus! {

/// The strings of `s` one after another, with a single space between each two
/// neighbours.
pub open spec fn joined(s: Seq<Seq<char>>) -> Seq<char>
    decreases s.len(),
{
    if s.len() == 0 {
        Seq::empty()
    } else if s.len() == 1 {
        s[0]
    } else {
        joined(s.drop_last()) + seq![' '] + s.last()
    }
}

/// Renders a draw as one line: the emojis in order, separated by single
/// spaces. An empty draw gives an empty line.
pub fn join_with_spaces(items: &[&str]) -> (r: String)
    ensures
        r@ == joined(views_of(items@)),
{
    let mut out = String::new();
    let mut i: usize = 0;
    while i < items.len()
        invariant
            i <= items@.len(),
            out@ == joined(views_of(items@.subrange(0, i as int))),
        decreases items@.len() - i,
    {
        let ghost before = views_of(items@.subrange(0, i as int));
        let ghost after = views_of(items@.subrange(0, i as int + 1));
        assert(after.drop_last() =~= before);
        assert(after.last() == items@[i as int]@);
        if i > 0 {
            proof {
                reveal_strlit(" ");
            }
            out.append(" ");
            assert(" "@ =~= seq![' ']);
        } else {
            assert(before.len() == 0);
            assert(after.len() == 1);
        }
        out.append(items[i]);
        i = i + 1;
    }
    assert(items@.subrange(0, i as int) =~= items@);
    out
}

} // verus!
