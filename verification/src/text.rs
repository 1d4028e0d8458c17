//! Putting texts together.

use vstd::prelude::*;
use vstd::string::StringExecFns;
use crate::idset::texts;

verus! {

/// `head` followed by `tail`.
pub fn joined(head: &str, tail: &str) -> (text: String)
    ensures
        text@ == head@ + tail@,
{
    String::from_str(head).concat(tail)
}

/// The words of a list in their order, with one space between neighbours.
pub open spec fn spaced(words: Seq<Seq<char>>) -> Seq<char>
    decreases words.len(),
{
    if words.len() == 0 {
        Seq::empty()
    } else if words.len() == 1 {
        words[0]
    } else {
        spaced(words.drop_last()) + seq![' '] + words.last()
    }
}

/// The strings of a list in their order, with one space between neighbours.
pub fn join_ids(ids: &Vec<String>) -> (line: String)
    ensures
        line@ == spaced(texts(ids@)),
{
    let mut line = String::new();
    let n = ids.len();
    let mut i: usize = 0;
    proof {
        reveal_strlit(" ");
    }
    while i < n
        invariant
            i <= n,
            n == ids.len(),
            " "@ == seq![' '],
            line@ == spaced(texts(ids@).take(i as int)),
        decreases n - i,
    {
        let ghost words = texts(ids@);
        proof {
            assert(words.take(i + 1).drop_last() =~= words.take(i as int));
        }
        if i > 0 {
            line.append(" ");
        }
        line.append(ids[i].as_str());
        i = i + 1;
    }
    proof {
        assert(texts(ids@).take(n as int) =~= texts(ids@));
    }
    line
}

} // verus!
