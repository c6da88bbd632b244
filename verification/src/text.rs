//! Names put together from parts.

use crate::model::views;
use vstd::prelude::*;

verus! {

/// `parts` in a row, with `separator` between each two neighbours.
pub open spec fn joined(parts: Seq<Seq<char>>, separator: Seq<char>) -> Seq<char>
    decreases parts.len(),
{
    if parts.len() == 0 {
        Seq::empty()
    } else if parts.len() == 1 {
        parts[0]
    } else {
        joined(parts.drop_last(), separator) + separator + parts.last()
    }
}

/// Two parts joined are the first, the separator and the second.
pub proof fn joined_pair(first: Seq<char>, second: Seq<char>, separator: Seq<char>)
    ensures
        joined(seq![first, second], separator) == first + separator + second,
{
    let parts = seq![first, second];
    assert(joined(parts.drop_last(), separator) == first);
}

/// One part joined is the part itself.
pub proof fn joined_single(only: Seq<char>, separator: Seq<char>)
    ensures
        joined(seq![only], separator) == only,
{
}

/// Joins `parts` with `separator` between each two neighbours.
pub fn join(parts: &Vec<String>, separator: &str) -> (text: String)
    ensures
        text@ == joined(views(parts@), separator@),
{
    let ghost all = views(parts@);
    let mut text = String::new();
    let mut done: usize = 0;
    while done < parts.len()
        invariant
            done <= parts@.len(),
            all == views(parts@),
            text@ == joined(all.take(done as int), separator@),
        decreases parts@.len() - done,
    {
        proof {
            assert(all.take(done + 1).drop_last() =~= all.take(done as int));
        }
        if done > 0 {
            text.append(separator);
        }
        text.append(parts[done].as_str());
        done += 1;
    }
    assert(all.take(done as int) =~= all);
    text
}

/// `first` and `second` with a hyphen between them.
pub open spec fn hyphenated(first: Seq<char>, second: Seq<char>) -> Seq<char> {
    first + "-"@ + second
}

/// Joins `first` and `second` with a hyphen.
pub fn hyphenate(first: &str, second: &str) -> (text: String)
    ensures
        text@ == hyphenated(first@, second@),
{
    let parts = vec![first.to_owned(), second.to_owned()];
    proof {
        assert(views(parts@) =~= seq![first@, second@]);
        joined_pair(first@, second@, "-"@);
    }
    join(&parts, "-")
}

} // verus!
