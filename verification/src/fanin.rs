//! Gathering the results of branches that run side by side: one gatherer
//! that gives up at the first failure, one that hears every branch out.

use vstd::prelude::*;
use crate::error::Error;
use crate::idset::IdSet;

verus! {

/// The list fails at `at`, and at no place before it.
pub open spec fn fails_first_at<T>(results: Seq<Result<T, Error>>, at: int) -> bool {
    &&& 0 <= at < results.len()
    &&& results[at] is Err
    &&& forall|k: int| 0 <= k < at ==> (#[trigger] results[k]) is Ok
}

/// No place of the list holds a failure.
pub open spec fn all_ok<T>(results: Seq<Result<T, Error>>) -> bool {
    forall|k: int| 0 <= k < results.len() ==> (#[trigger] results[k]) is Ok
}

/// The identifiers of all the sets that the list holds.
pub open spec fn union_of(results: Seq<Result<IdSet, Error>>) -> Set<Seq<char>> {
    Set::new(
        |t: Seq<char>|
            exists|k: int|
                0 <= k < results.len() && (#[trigger] results[k]) is Ok
                    && results[k]->Ok_0@.contains(t),
    )
}

/// The identifiers of a list up to and with place `k` are those before `k`
/// and those of the set at `k`.
pub proof fn lemma_union_of_next(results: Seq<Result<IdSet, Error>>, k: int)
    requires
        0 <= k < results.len(),
    ensures
        union_of(results.take(k + 1)) == union_of(results.take(k)).union(
            if results[k] is Ok {
                results[k]->Ok_0@
            } else {
                Set::empty()
            },
        ),
{
    let shorter = results.take(k);
    let longer = results.take(k + 1);
    let added = if results[k] is Ok {
        results[k]->Ok_0@
    } else {
        Set::empty()
    };
    assert forall|t: Seq<char>| union_of(longer).contains(t) == (union_of(shorter).contains(t)
        || added.contains(t)) by {
        if union_of(longer).contains(t) {
            let j = choose|j: int|
                0 <= j < longer.len() && (#[trigger] longer[j]) is Ok
                    && longer[j]->Ok_0@.contains(t);
            assert(j < k ==> shorter[j] == longer[j]);
        }
        if union_of(shorter).contains(t) {
            let j = choose|j: int|
                0 <= j < shorter.len() && (#[trigger] shorter[j]) is Ok
                    && shorter[j]->Ok_0@.contains(t);
            assert(longer[j] == shorter[j]);
        }
        if added.contains(t) {
            assert(longer[k] == results[k]);
        }
    }
}

/// Whatever one branch found is in what all of them found.
pub proof fn lemma_union_of_holds_each(results: Seq<Result<IdSet, Error>>, k: int)
    requires
        0 <= k < results.len(),
        results[k] is Ok,
    ensures
        results[k]->Ok_0@.subset_of(union_of(results)),
{
}

/// The order in which the branches end does not matter to what they found
/// together: two lists of the same results, in any order, hold the same
/// identifiers.
pub proof fn lemma_union_of_reordered(
    one: Seq<Result<IdSet, Error>>,
    other: Seq<Result<IdSet, Error>>,
)
    requires
        one.to_multiset() == other.to_multiset(),
    ensures
        union_of(one) == union_of(other),
{
    one.to_multiset_ensures();
    other.to_multiset_ensures();
    assert forall|t: Seq<char>| union_of(one).contains(t) == union_of(other).contains(t) by {
        if union_of(one).contains(t) {
            let k = choose|k: int|
                0 <= k < one.len() && (#[trigger] one[k]) is Ok && one[k]->Ok_0@.contains(t);
            assert(other.to_multiset().count(one[k]) > 0);
        }
        if union_of(other).contains(t) {
            let k = choose|k: int|
                0 <= k < other.len() && (#[trigger] other[k]) is Ok && other[k]->Ok_0@.contains(t);
            assert(one.to_multiset().count(other[k]) > 0);
        }
    }
}

/// What a gatherer does next.
#[derive(Debug)]
pub enum Turn<G> {
    /// It waits for the next branch to end.
    Await(G),
    /// It has its result, and waits for no branch any more.
    Finish(Result<IdSet, Error>),
}

/// Gathers the sets of its branches until one of them fails.
#[derive(Debug)]
pub struct FailFast {
    pending: usize,
    merged: IdSet,
}

impl FailFast {
    #[verifier::type_invariant]
    spec fn waiting(self) -> bool {
        self.pending > 0
    }

    /// The number of branches that have not ended yet.
    pub closed spec fn pending(&self) -> nat {
        self.pending as nat
    }

    /// The identifiers gathered so far.
    pub closed spec fn merged(&self) -> Set<Seq<char>> {
        self.merged@
    }

    /// Begins to gather from `branches` branches. With none there is
    /// nothing to wait for: the result is the empty set.
    pub fn start(branches: usize) -> (turn: Turn<FailFast>)
        ensures
            branches == 0 ==> (turn matches Turn::Finish(Ok(set)) && set@ == Set::<
                Seq<char>,
            >::empty()),
            branches > 0 ==> (turn matches Turn::Await(g) && g.pending() == branches && g.merged()
                == Set::<Seq<char>>::empty()),
    {
        if branches == 0 {
            Turn::Finish(Ok(IdSet::new()))
        } else {
            Turn::Await(FailFast { pending: branches, merged: IdSet::new() })
        }
    }

    /// Takes the result of the branch that ended. A failure is the result of
    /// the whole, at once and unchanged, and the other branches are left
    /// behind. A set is added to what was gathered, which is the result
    /// once the last branch has ended.
    pub fn on_result(self, result: Result<IdSet, Error>) -> (turn: Turn<FailFast>)
        ensures
            match result {
                Err(e) => turn == Turn::<FailFast>::Finish(Err(e)),
                Ok(ids) => if self.pending() == 1 {
                    turn matches Turn::Finish(Ok(set)) && set@ == self.merged().union(ids@)
                } else {
                    turn matches Turn::Await(g) && g.pending() == self.pending() - 1 && g.merged()
                        == self.merged().union(ids@)
                },
            },
    {
        proof {
            use_type_invariant(&self);
        }
        match result {
            Err(e) => Turn::Finish(Err(e)),
            Ok(ids) => {
                let mut merged = self.merged;
                merged.absorb(&ids);
                if self.pending == 1 {
                    Turn::Finish(Ok(merged))
                } else {
                    Turn::Await(FailFast { pending: self.pending - 1, merged })
                }
            },
        }
    }
}

/// Gathers the sets of its branches and hears every branch out: it keeps the
/// first failure and goes on until the last branch has ended.
#[derive(Debug)]
pub struct DrainAll {
    pending: usize,
    merged: IdSet,
    first_error: Option<Error>,
}

impl DrainAll {
    #[verifier::type_invariant]
    spec fn waiting(self) -> bool {
        self.pending > 0
    }

    /// The number of branches that have not ended yet.
    pub closed spec fn pending(&self) -> nat {
        self.pending as nat
    }

    /// The identifiers gathered so far.
    pub closed spec fn merged(&self) -> Set<Seq<char>> {
        self.merged@
    }

    /// The first failure seen so far.
    pub closed spec fn first_error(&self) -> Option<Error> {
        self.first_error
    }

    /// What the gatherer ends with once nothing is pending: the first
    /// failure if there was one, else the identifiers.
    pub open spec fn verdict(
        first_error: Option<Error>,
        result: Result<IdSet, Error>,
        merged: Set<Seq<char>>,
    ) -> bool {
        match first_error {
            Some(e) => result == Err::<IdSet, Error>(e),
            None => result matches Ok(set) && set@ == merged,
        }
    }

    /// Begins to gather from `branches` branches. With none there is
    /// nothing to wait for: the result is the empty set.
    pub fn start(branches: usize) -> (turn: Turn<DrainAll>)
        ensures
            branches == 0 ==> (turn matches Turn::Finish(Ok(set)) && set@ == Set::<
                Seq<char>,
            >::empty()),
            branches > 0 ==> (turn matches Turn::Await(g) && g.pending() == branches && g.merged()
                == Set::<Seq<char>>::empty() && g.first_error() is None),
    {
        if branches == 0 {
            Turn::Finish(Ok(IdSet::new()))
        } else {
            Turn::Await(DrainAll { pending: branches, merged: IdSet::new(), first_error: None })
        }
    }

    /// Takes the result of the branch that ended. A set is added to what was
    /// gathered. A failure is kept if it is the first, and dropped if not.
    /// Either way the gatherer waits on while a branch is pending; after the
    /// last one it ends with the first failure, or with the identifiers
    /// where no branch failed.
    pub fn on_result(self, result: Result<IdSet, Error>) -> (turn: Turn<DrainAll>)
        ensures
            ({
                let merged = match result {
                    Ok(ids) => self.merged().union(ids@),
                    Err(_) => self.merged(),
                };
                let first_error = match (self.first_error(), result) {
                    (None, Err(e)) => Some(e),
                    (kept, _) => kept,
                };
                if self.pending() == 1 {
                    turn matches Turn::Finish(r) && DrainAll::verdict(first_error, r, merged)
                } else {
                    turn matches Turn::Await(g) && g.pending() == self.pending() - 1 && g.merged()
                        == merged && g.first_error() == first_error
                }
            }),
    {
        proof {
            use_type_invariant(&self);
        }
        let pending = self.pending;
        let mut merged = self.merged;
        let mut first_error = self.first_error;
        match result {
            Ok(ids) => {
                merged.absorb(&ids);
            },
            Err(e) => {
                if first_error.is_none() {
                    first_error = Some(e);
                }
            },
        }
        if pending == 1 {
            match first_error {
                Some(e) => Turn::Finish(Err(e)),
                None => Turn::Finish(Ok(merged)),
            }
        } else {
            Turn::Await(DrainAll { pending: pending - 1, merged, first_error })
        }
    }
}

/// The end of a gathering: its result, and how many branches were heard
/// before it was given.
#[derive(Debug)]
pub struct Gathered {
    pub awaited: usize,
    pub result: Result<IdSet, Error>,
}

/// Gathers, giving up at the first failure, from branches whose results are
/// listed in the order in which they ended. Where none failed, all are heard
/// and the result is all that they found. Where one failed, the first
/// failure is the result, and no branch after it is heard.
pub fn merge_fail_fast(results: Vec<Result<IdSet, Error>>) -> (end: Gathered)
    ensures
        all_ok(results@) ==> end.awaited == results.len(),
        all_ok(results@) ==> (end.result matches Ok(set) && set@ == union_of(results@)),
        forall|at: int|
            fails_first_at(results@, at) ==> end.awaited == at + 1 && end.result == Err::<
                IdSet,
                Error,
            >(results[at]->Err_0),
{
    let ghost all = results@;
    let n = results.len();
    let mut turn = FailFast::start(n);
    let mut awaited: usize = 0;
    for result in iter: results
        invariant
            iter.seq() == all,
            n == all.len(),
            awaited == iter.index(),
            all_ok(all.take(iter.index())),
            iter.index() < n ==> (turn matches Turn::Await(g) && g.pending() == n - iter.index()
                && g.merged() == union_of(all.take(iter.index()))),
            iter.index() == n ==> (turn matches Turn::Finish(Ok(set)) && set@ == union_of(all)),
    {
        let ghost k = iter.index();
        proof {
            lemma_union_of_next(all, k);
            if k + 1 == n {
                assert(all.take(k + 1) =~= all);
            }
        }
        awaited = awaited + 1;
        turn = match turn {
            Turn::Await(gatherer) => gatherer.on_result(result),
            Turn::Finish(_) => unreached(),
        };
        match turn {
            Turn::Finish(Err(e)) => {
                assert(fails_first_at(all, k)) by {
                    assert forall|j: int| 0 <= j < k implies (#[trigger] all[j]) is Ok by {
                        assert(all.take(k)[j] == all[j]);
                    }
                }
                return Gathered { awaited, result: Err(e) };
            },
            _ => {},
        }
    }
    proof {
        assert(all.take(n as int) =~= all);
    }
    match turn {
        Turn::Finish(result) => Gathered { awaited, result },
        Turn::Await(_) => unreached(),
    }
}

/// Gathers, hearing every branch out, from branches whose results are listed
/// in the order in which they ended. All are heard, whatever they ended
/// with. Where none failed the result is all that they found; where one
/// failed, it is the first failure.
pub fn merge_drain_all(results: Vec<Result<IdSet, Error>>) -> (end: Gathered)
    ensures
        end.awaited == results.len(),
        all_ok(results@) ==> (end.result matches Ok(set) && set@ == union_of(results@)),
        forall|at: int|
            fails_first_at(results@, at) ==> end.result == Err::<IdSet, Error>(
                results[at]->Err_0,
            ),
{
    let ghost all = results@;
    let n = results.len();
    let mut turn = DrainAll::start(n);
    let mut awaited: usize = 0;
    proof {
        assert(union_of(all.take(0)) =~= Set::<Seq<char>>::empty());
        if n == 0 {
            assert(all.take(0) =~= all);
            assert(heard(all, None) && DrainAll::verdict(None, turn->Finish_0, union_of(all)));
        }
    }
    for result in iter: results
        invariant
            iter.seq() == all,
            n == all.len(),
            awaited == iter.index(),
            iter.index() < n ==> (turn matches Turn::Await(g) && g.pending() == n - iter.index()
                && g.merged() == union_of(all.take(iter.index())) && heard(
                all.take(iter.index()),
                g.first_error(),
            )),
            iter.index() == n ==> (turn matches Turn::Finish(r) && exists|first: Option<Error>|
                heard(all, first) && DrainAll::verdict(first, r, union_of(all))),
    {
        let ghost k = iter.index();
        let ghost before = kept_by(turn);
        proof {
            lemma_union_of_next(all, k);
            lemma_heard_next(all, k, before);
            if k + 1 == n {
                assert(all.take(k + 1) =~= all);
            }
        }
        awaited = awaited + 1;
        turn = match turn {
            Turn::Await(gatherer) => gatherer.on_result(result),
            Turn::Finish(_) => unreached(),
        };
    }
    proof {
        let first = choose|first: Option<Error>|
            heard(all, first) && (turn matches Turn::Finish(r) && DrainAll::verdict(
                first,
                r,
                union_of(all),
            ));
        assert forall|at: int| fails_first_at(all, at) implies first == Some(all[at]->Err_0) by {
            if first is Some {
                let other = choose|other: int|
                    fails_first_at(all, other) && all[other]->Err_0 == first->0;
                assert(other == at);
            }
        }
    }
    match turn {
        Turn::Finish(result) => Gathered { awaited, result },
        Turn::Await(_) => unreached(),
    }
}

/// The failure that a gatherer keeps while it waits.
spec fn kept_by(turn: Turn<DrainAll>) -> Option<Error> {
    match turn {
        Turn::Await(g) => g.first_error(),
        Turn::Finish(_) => None,
    }
}

/// `first` is the first failure of the list, or nothing where it has none.
spec fn heard(results: Seq<Result<IdSet, Error>>, first: Option<Error>) -> bool {
    match first {
        Some(e) => exists|at: int| fails_first_at(results, at) && results[at]->Err_0 == e,
        None => all_ok(results),
    }
}

/// The first failure of a list up to and with place `k` is the one before
/// `k`, or else the one at `k`.
proof fn lemma_heard_next(results: Seq<Result<IdSet, Error>>, k: int, before: Option<Error>)
    requires
        0 <= k < results.len(),
        heard(results.take(k), before),
    ensures
        heard(
            results.take(k + 1),
            match (before, results[k]) {
                (None, Err(e)) => Some(e),
                (kept, _) => kept,
            },
        ),
{
    let shorter = results.take(k);
    let longer = results.take(k + 1);
    assert forall|j: int| 0 <= j < k implies shorter[j] == longer[j] by {}
    match before {
        Some(e) => {
            let at = choose|at: int| fails_first_at(shorter, at) && shorter[at]->Err_0 == e;
            assert(fails_first_at(longer, at)) by {
                assert forall|j: int| 0 <= j < at implies (#[trigger] longer[j]) is Ok by {
                    assert(shorter[j] is Ok);
                }
            }
        },
        None => {
            assert forall|j: int| 0 <= j < k implies (#[trigger] longer[j]) is Ok by {
                assert(shorter[j] is Ok);
            }
            if results[k] is Err {
                assert(fails_first_at(longer, k));
            }
        },
    }
}

} // verus!
