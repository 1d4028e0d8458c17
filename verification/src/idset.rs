//! Sets of instance identifiers, kept as a sorted list without repeats.

use vstd::prelude::*;
use crate::lexical::{lex_lt, str_lt, lemma_lex_lt_transitive, lemma_lex_lt_trichotomy};

verus! {

/// The texts of a list of strings, in the same order.
pub open spec fn texts(v: Seq<String>) -> Seq<Seq<char>> {
    Seq::new(v.len(), |i: int| v[i]@)
}

/// Every element comes strictly before each later one.
pub open spec fn strictly_sorted(s: Seq<Seq<char>>) -> bool {
    forall|i: int, j: int| 0 <= i < j < s.len() ==> lex_lt(#[trigger] s[i], #[trigger] s[j])
}

/// A strictly sorted list holds each of its elements exactly once.
pub proof fn lemma_strictly_sorted_no_duplicates(s: Seq<Seq<char>>)
    requires
        strictly_sorted(s),
    ensures
        s.no_duplicates(),
{
    assert forall|i: int, j: int| 0 <= i < s.len() && 0 <= j < s.len() && i != j implies s[i]
        != s[j] by {
        lemma_lex_lt_trichotomy(s[i], s[j]);
    }
}

/// The first index of `ids` whose element does not come before `id`.
fn lower_bound(ids: &Vec<String>, id: &str) -> (at: usize)
    requires
        strictly_sorted(texts(ids@)),
    ensures
        at <= ids.len(),
        forall|j: int| 0 <= j < at ==> lex_lt(#[trigger] texts(ids@)[j], id@),
        forall|j: int| at <= j < ids.len() ==> !lex_lt(#[trigger] texts(ids@)[j], id@),
{
    let mut low: usize = 0;
    let mut high: usize = ids.len();
    while low < high
        invariant
            low <= high <= ids.len(),
            strictly_sorted(texts(ids@)),
            forall|j: int| 0 <= j < low ==> lex_lt(#[trigger] texts(ids@)[j], id@),
            forall|j: int| high <= j < ids.len() ==> !lex_lt(#[trigger] texts(ids@)[j], id@),
        decreases high - low,
    {
        let mid: usize = low + (high - low) / 2;
        let ghost list = texts(ids@);
        if str_lt(ids[mid].as_str(), id) {
            assert forall|j: int| 0 <= j < mid + 1 implies lex_lt(#[trigger] list[j], id@) by {
                if j < mid {
                    lemma_lex_lt_transitive(list[j], list[mid as int], id@);
                }
            }
            low = mid + 1;
        } else {
            assert forall|j: int| mid <= j < ids.len() implies !lex_lt(#[trigger] list[j], id@) by {
                if mid < j && lex_lt(list[j], id@) {
                    lemma_lex_lt_transitive(list[mid as int], list[j], id@);
                }
            }
            high = mid;
        }
    }
    low
}

/// Putting `x` between the elements before it and those after it keeps a
/// list strictly sorted and adds `x` to its elements.
proof fn lemma_insert_sorted(list: Seq<Seq<char>>, at: int, x: Seq<char>)
    requires
        strictly_sorted(list),
        0 <= at <= list.len(),
        forall|j: int| 0 <= j < at ==> lex_lt(#[trigger] list[j], x),
        forall|j: int| at <= j < list.len() ==> lex_lt(x, #[trigger] list[j]),
    ensures
        strictly_sorted(list.insert(at, x)),
        list.insert(at, x).to_set() == list.to_set().insert(x),
{
    let grown = list.insert(at, x);
    assert forall|i: int, j: int| 0 <= i < j < grown.len() implies lex_lt(
        #[trigger] grown[i],
        #[trigger] grown[j],
    ) by {}
    assert forall|t: Seq<char>| grown.to_set().contains(t) == list.to_set().insert(x).contains(
        t,
    ) by {
        if list.contains(t) {
            let k = choose|k: int| 0 <= k < list.len() && list[k] == t;
            if k < at {
                assert(grown[k] == t);
            } else {
                assert(grown[k + 1] == t);
            }
        }
        if t == x {
            assert(grown[at] == t);
        }
    }
}

/// The tail of a strictly sorted list is strictly sorted and holds the
/// elements of the list but the first.
proof fn lemma_sorted_tail(s: Seq<Seq<char>>)
    requires
        strictly_sorted(s),
        s.len() > 0,
    ensures
        strictly_sorted(s.drop_first()),
        s.drop_first().to_set() == s.to_set().remove(s[0]),
{
    let tail = s.drop_first();
    assert forall|i: int, j: int| 0 <= i < j < tail.len() implies lex_lt(
        #[trigger] tail[i],
        #[trigger] tail[j],
    ) by {}
    lemma_strictly_sorted_no_duplicates(s);
    assert forall|t: Seq<char>| tail.to_set().contains(t) == s.to_set().remove(s[0]).contains(
        t,
    ) by {
        if s.contains(t) && t != s[0] {
            let k = choose|k: int| 0 <= k < s.len() && s[k] == t;
            assert(tail[k - 1] == t);
        }
    }
}

/// A set has one strictly sorted listing: two strictly sorted lists with the
/// same elements are the same list.
pub proof fn lemma_sorted_listing_unique(a: Seq<Seq<char>>, b: Seq<Seq<char>>)
    requires
        strictly_sorted(a),
        strictly_sorted(b),
        a.to_set() == b.to_set(),
    ensures
        a == b,
    decreases a.len(),
{
    if a.len() == 0 {
        if b.len() > 0 {
            assert(a.to_set().contains(b[0]));
        }
    } else {
        assert(b.to_set().contains(a[0]));
        let j = choose|j: int| 0 <= j < b.len() && b[j] == a[0];
        assert(a.to_set().contains(b[0]));
        let i = choose|i: int| 0 <= i < a.len() && a[i] == b[0];
        if i > 0 && j > 0 {
            lemma_lex_lt_trichotomy(a[0], b[0]);
        }
        lemma_sorted_tail(a);
        lemma_sorted_tail(b);
        lemma_sorted_listing_unique(a.drop_first(), b.drop_first());
        assert(b =~= seq![b[0]] + b.drop_first());
    }
}

/// The elements of a list up to and with place `i` are those before `i` and
/// the one at `i`.
proof fn lemma_to_set_next(list: Seq<Seq<char>>, i: int)
    requires
        0 <= i < list.len(),
    ensures
        list.take(i + 1).to_set() == list.take(i).to_set().insert(list[i]),
{
    let shorter = list.take(i);
    let longer = list.take(i + 1);
    assert forall|t: Seq<char>| longer.contains(t) == (shorter.contains(t) || t == list[i]) by {
        if shorter.contains(t) {
            let k = choose|k: int| 0 <= k < shorter.len() && shorter[k] == t;
            assert(longer[k] == t);
        }
        if t == list[i] {
            assert(longer[i] == t);
        }
    }
    assert(longer.to_set() =~= shorter.to_set().insert(list[i]));
}

/// A finite set of identifiers.
#[derive(Debug)]
pub struct IdSet {
    ids: Vec<String>,
}

impl View for IdSet {
    type V = Set<Seq<char>>;

    closed spec fn view(&self) -> Set<Seq<char>> {
        texts(self.ids@).to_set()
    }
}

impl IdSet {
    /// The elements in ascending order.
    pub closed spec fn listing(&self) -> Seq<Seq<char>> {
        texts(self.ids@)
    }

    #[verifier::type_invariant]
    spec fn sorted(self) -> bool {
        strictly_sorted(texts(self.ids@))
    }

    /// The empty set.
    pub fn new() -> (set: IdSet)
        ensures
            set@ == Set::<Seq<char>>::empty(),
    {
        let set = IdSet { ids: Vec::new() };
        set
    }

    /// The number of elements.
    pub fn len(&self) -> (n: usize)
        ensures
            n == self@.len(),
    {
        proof {
            use_type_invariant(self);
            lemma_strictly_sorted_no_duplicates(texts(self.ids@));
            texts(self.ids@).unique_seq_to_set();
        }
        self.ids.len()
    }

    /// Tells whether `id` is an element.
    pub fn contains(&self, id: &str) -> (found: bool)
        ensures
            found == self@.contains(id@),
    {
        proof {
            use_type_invariant(self);
        }
        let at = lower_bound(&self.ids, id);
        let ghost list = texts(self.ids@);
        if at < self.ids.len() && !str_lt(id, self.ids[at].as_str()) {
            proof {
                lemma_lex_lt_trichotomy(list[at as int], id@);
            }
            true
        } else {
            proof {
                if list.contains(id@) {
                    let k = choose|k: int| 0 <= k < list.len() && list[k] == id@;
                    lemma_lex_lt_trichotomy(list[k], id@);
                    if k > at {
                        assert(lex_lt(list[at as int], list[k]));
                    }
                }
            }
            false
        }
    }

    /// Tells whether the set has no element.
    pub fn is_empty(&self) -> (empty: bool)
        ensures
            empty == (self@ == Set::<Seq<char>>::empty()),
    {
        let n = self.len();
        proof {
            texts(self.ids@).lemma_cardinality_of_set();
            if n == 0 {
                assert(self@ =~= Set::<Seq<char>>::empty());
            }
        }
        n == 0
    }

    /// Adds `id`; tells whether it was new.
    pub fn insert(&mut self, id: String) -> (fresh: bool)
        ensures
            final(self)@ == old(self)@.insert(id@),
            fresh == !old(self)@.contains(id@),
    {
        proof {
            use_type_invariant(&*self);
        }
        let at = lower_bound(&self.ids, id.as_str());
        let ghost list = texts(self.ids@);
        if at < self.ids.len() && !str_lt(id.as_str(), self.ids[at].as_str()) {
            proof {
                lemma_lex_lt_trichotomy(list[at as int], id@);
            }
            false
        } else {
            proof {
                assert forall|j: int| at <= j < list.len() implies lex_lt(
                    id@,
                    #[trigger] list[j],
                ) by {
                    lemma_lex_lt_trichotomy(list[j], id@);
                    if j > at {
                        lemma_lex_lt_trichotomy(list[at as int], id@);
                        if list[at as int] != id@ {
                            lemma_lex_lt_transitive(id@, list[at as int], list[j]);
                        }
                    }
                }
                lemma_insert_sorted(list, at as int, id@);
                assert(texts(self.ids@.insert(at as int, id)) =~= list.insert(at as int, id@));
                if list.contains(id@) {
                    let k = choose|k: int| 0 <= k < list.len() && list[k] == id@;
                    lemma_lex_lt_trichotomy(list[k], id@);
                }
            }
            let mut ids: Vec<String> = Vec::new();
            std::mem::swap(&mut ids, &mut self.ids);
            ids.insert(at, id);
            self.ids = ids;
            true
        }
    }

    /// Adds every element of `other`.
    pub fn absorb(&mut self, other: &IdSet)
        ensures
            final(self)@ == old(self)@.union(other@),
    {
        let n = other.ids.len();
        let mut i: usize = 0;
        while i < n
            invariant
                i <= n,
                n == other.ids.len(),
                self@ == old(self)@.union(texts(other.ids@).take(i as int).to_set()),
            decreases n - i,
        {
            self.insert(other.ids[i].clone());
            proof {
                lemma_to_set_next(texts(other.ids@), i as int);
            }
            i = i + 1;
        }
        proof {
            assert(texts(other.ids@).take(n as int) =~= texts(other.ids@));
        }
    }

    /// The elements in ascending order, each once.
    pub fn to_sorted_vec(&self) -> (list: Vec<String>)
        ensures
            texts(list@) == self.listing(),
            strictly_sorted(texts(list@)),
            texts(list@).to_set() == self@,
    {
        proof {
            use_type_invariant(self);
        }
        let n = self.ids.len();
        let mut list: Vec<String> = Vec::new();
        let mut i: usize = 0;
        while i < n
            invariant
                i <= n,
                n == self.ids.len(),
                list.len() == i,
                forall|j: int| 0 <= j < i ==> list@[j]@ == self.ids@[j]@,
            decreases n - i,
        {
            list.push(self.ids[i].clone());
            i = i + 1;
        }
        assert(texts(list@) =~= texts(self.ids@));
        list
    }

    /// The set of the strings in `list`.
    pub fn from_vec(list: &Vec<String>) -> (set: IdSet)
        ensures
            set@ == texts(list@).to_set(),
    {
        let mut set = IdSet::new();
        let n = list.len();
        let mut i: usize = 0;
        while i < n
            invariant
                i <= n,
                n == list.len(),
                set@ == texts(list@).take(i as int).to_set(),
            decreases n - i,
        {
            set.insert(list[i].clone());
            proof {
                lemma_to_set_next(texts(list@), i as int);
            }
            i = i + 1;
        }
        proof {
            assert(texts(list@).take(n as int) =~= texts(list@));
        }
        set
    }
}

} // verus!
