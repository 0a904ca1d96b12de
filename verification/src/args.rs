//! Building blocks for argument lists handed to the external tools.

use vstd::prelude::*;
use vstd::string::StringExecFns;

verus! {

/// `parts` strung together with `sep` between each two neighbours.
pub open spec fn join(parts: Seq<Seq<char>>, sep: Seq<char>) -> Seq<char>
    decreases parts.len(),
{
    if parts.len() == 0 {
        Seq::empty()
    } else if parts.len() == 1 {
        parts[0]
    } else {
        join(parts.drop_last(), sep) + sep + parts.last()
    }
}

/// Strings `parts` together with `sep` between each two neighbours.
pub fn join_texts(parts: &Vec<String>, sep: &str) -> (joined: String)
    ensures
        joined@ == join(parts.deep_view(), sep@),
{
    let mut joined = String::new();
    let mut i: usize = 0;
    while i < parts.len()
        invariant
            i <= parts.len(),
            joined@ == join(parts.deep_view().take(i as int), sep@),
        decreases parts.len() - i,
    {
        proof {
            let before = parts.deep_view().take(i as int);
            let after = parts.deep_view().take(i + 1);
            assert(after.drop_last() =~= before);
            assert(after.last() == parts[i as int]@);
            if i == 0 {
                assert(joined@ + parts[0]@ =~= parts[0]@);
            }
        }
        if i > 0 {
            joined.append(sep);
        }
        joined.append(parts[i].as_str());
        i += 1;
    }
    assert(parts.deep_view().take(parts.len() as int) =~= parts.deep_view());
    joined
}

/// Appends a copy of `text` to `args`.
pub fn push_text(args: &mut Vec<String>, text: &str)
    ensures
        final(args).deep_view() == old(args).deep_view().push(text@),
{
    let owned = String::from_str(text);
    args.push(owned);
    assert(args.deep_view() =~= old(args).deep_view().push(text@));
}

/// Appends `text` to `args`.
pub fn push_string(args: &mut Vec<String>, text: String)
    ensures
        final(args).deep_view() == old(args).deep_view().push(text@),
{
    args.push(text);
    assert(args.deep_view() =~= old(args).deep_view().push(text@));
}

/// Appends all of `group` to `args`, in order.
pub fn push_all(args: &mut Vec<String>, group: Vec<String>)
    ensures
        final(args).deep_view() == old(args).deep_view() + group.deep_view(),
{
    let mut group = group;
    let ghost added = group.deep_view();
    args.append(&mut group);
    assert(args.deep_view() =~= old(args).deep_view() + added);
}

} // verus!
