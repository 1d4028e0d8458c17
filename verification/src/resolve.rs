//! The three levels of a resolution: one address, one host name, and the
//! list of names that the operator gave.

use vstd::prelude::*;
use crate::address::IpAddress;
use crate::error::Error;
use crate::fanin::{all_ok, fails_first_at, merge_drain_all, union_of, DrainAll, FailFast, Turn};
use crate::filter::{all_strategies, strategies, Filter, Strategy};
use crate::idset::{lemma_strictly_sorted_no_duplicates, strictly_sorted, texts, IdSet};
use crate::inventory::PageCollector;

verus! {

/// How one strategy begins for one address.
#[derive(Debug)]
pub enum Lookup {
    /// It queries the inventory with the filter, and collects the pages.
    Ask(Filter, PageCollector),
    /// It does not apply to the address: it has found the empty set, and no
    /// query is made.
    Settled(IdSet),
}

/// Begins the lookup of `address` by `strategy`.
pub fn begin_lookup(strategy: Strategy, address: &IpAddress) -> (lookup: Lookup)
    ensures
        match strategy.query(*address) {
            Some(query) => lookup matches Lookup::Ask(filter, collector) && filter@ == query
                && collector.found() == Set::<Seq<char>>::empty(),
            None => lookup matches Lookup::Settled(set) && set@ == Set::<Seq<char>>::empty(),
        },
{
    match strategy.filter_for(address) {
        Some(filter) => Lookup::Ask(filter, PageCollector::new()),
        None => Lookup::Settled(IdSet::new()),
    }
}

/// How the resolution of one address begins: a lookup by each strategy, all
/// of them to run side by side, and the gatherer of their results.
#[derive(Debug)]
pub struct AddressStart {
    pub lookups: Vec<Lookup>,
    pub turn: Turn<FailFast>,
}

/// Begins the resolution of `address`. Every strategy gets its lookup, in
/// the order of the strategies; the gatherer waits for all of them, and
/// gives up at the first that fails.
pub fn begin_address(address: &IpAddress) -> (start: AddressStart)
    ensures
        start.lookups.len() == all_strategies().len(),
        forall|i: int|
            0 <= i < start.lookups.len() ==> match all_strategies()[i].query(*address) {
                Some(query) => (#[trigger] start.lookups[i]) matches Lookup::Ask(filter, collector)
                    && filter@ == query && collector.found() == Set::<Seq<char>>::empty(),
                None => start.lookups[i] matches Lookup::Settled(set) && set@ == Set::<
                    Seq<char>,
                >::empty(),
            },
        start.turn matches Turn::Await(g) && g.pending() == all_strategies().len() && g.merged()
            == Set::<Seq<char>>::empty(),
{
    let order = strategies();
    let mut lookups: Vec<Lookup> = Vec::new();
    let mut i: usize = 0;
    while i < order.len()
        invariant
            i <= order.len(),
            order@ == all_strategies(),
            lookups.len() == i,
            forall|k: int|
                0 <= k < i ==> match all_strategies()[k].query(*address) {
                    Some(query) => (#[trigger] lookups[k]) matches Lookup::Ask(filter, collector)
                        && filter@ == query && collector.found() == Set::<Seq<char>>::empty(),
                    None => lookups[k] matches Lookup::Settled(set) && set@ == Set::<
                        Seq<char>,
                    >::empty(),
                },
        decreases order.len() - i,
    {
        lookups.push(begin_lookup(order[i], address));
        i = i + 1;
    }
    AddressStart { lookups, turn: FailFast::start(order.len()) }
}

/// How the resolution of one host name begins.
#[derive(Debug)]
pub enum NameStart {
    /// The name resolved to these addresses: each is resolved in turn, all
    /// side by side, and their results gathered.
    Dispatch(Vec<IpAddress>, Turn<FailFast>),
    /// The name could not be resolved.
    Failed(Error),
}

/// Begins the resolution of a host name with the answer of the name
/// service. A failure of the service is the failure of the name. A name
/// with no address has found the empty set, which is no failure.
pub fn begin_name(resolved: Result<Vec<IpAddress>, Error>) -> (start: NameStart)
    ensures
        match resolved {
            Err(e) => start == NameStart::Failed(e),
            Ok(addresses) => start matches NameStart::Dispatch(list, turn) && list == addresses && (
            if addresses.len() == 0 {
                turn matches Turn::Finish(Ok(set)) && set@ == Set::<Seq<char>>::empty()
            } else {
                turn matches Turn::Await(g) && g.pending() == addresses.len() && g.merged()
                    == Set::<Seq<char>>::empty()
            }),
        },
{
    match resolved {
        Err(e) => NameStart::Failed(e),
        Ok(addresses) => {
            let turn = FailFast::start(addresses.len());
            NameStart::Dispatch(addresses, turn)
        },
    }
}

/// Begins the resolution of the names that the operator gave: one branch
/// for each, gathered by one that hears every branch out.
pub fn begin_names(names: &Vec<String>) -> (turn: Turn<DrainAll>)
    ensures
        names.len() == 0 ==> (turn matches Turn::Finish(Ok(set)) && set@ == Set::<
            Seq<char>,
        >::empty()),
        names.len() > 0 ==> (turn matches Turn::Await(g) && g.pending() == names.len()
            && g.merged() == Set::<Seq<char>>::empty() && g.first_error() is None),
{
    DrainAll::start(names.len())
}

/// What follows a resolution.
#[derive(Debug)]
pub enum Outcome {
    /// The operation goes on, once, with these identifiers.
    Invoke(Vec<String>),
    /// The run fails, and the operation is not begun.
    Fail(Error),
}

/// Settles what follows a resolution that has ended. After a failure the
/// operation is not begun. Else it gets the identifiers that were found,
/// each once and in ascending order, and gets them also where none was
/// found.
pub fn conclude(result: Result<IdSet, Error>) -> (outcome: Outcome)
    ensures
        match result {
            Ok(set) => outcome matches Outcome::Invoke(list) && strictly_sorted(texts(list@))
                && texts(list@).to_set() == set@ && texts(list@).no_duplicates(),
            Err(e) => outcome == Outcome::Fail(e),
        },
{
    match result {
        Ok(set) => {
            let list = set.to_sorted_vec();
            proof {
                lemma_strictly_sorted_no_duplicates(texts(list@));
            }
            Outcome::Invoke(list)
        },
        Err(e) => Outcome::Fail(e),
    }
}

/// The end of the resolution of a list of names.
#[derive(Debug)]
pub struct Resolution {
    /// How many branches were heard before the end.
    pub awaited: usize,
    /// What follows.
    pub outcome: Outcome,
}

/// Resolves a list of names from the results of their branches, listed in
/// the order in which the branches ended. Every branch is heard, also after
/// one has failed. The first failure, if there is one, is the outcome.
/// Else the operation gets what the branches found, each identifier once
/// and in ascending order; with no name at all it gets the empty list.
pub fn orchestrate(results: Vec<Result<IdSet, Error>>) -> (end: Resolution)
    ensures
        end.awaited == results.len(),
        all_ok(results@) ==> (end.outcome matches Outcome::Invoke(list) && strictly_sorted(
            texts(list@),
        ) && texts(list@).no_duplicates() && texts(list@).to_set() == union_of(results@)),
        results.len() == 0 ==> (end.outcome matches Outcome::Invoke(list) && list.len() == 0),
        forall|at: int|
            fails_first_at(results@, at) ==> end.outcome == Outcome::Fail(results[at]->Err_0),
{
    let ghost all = results@;
    let gathered = merge_drain_all(results);
    let outcome = conclude(gathered.result);
    proof {
        if all.len() == 0 {
            // a list with an element would put it among what no branch found
            let list = outcome->Invoke_0;
            if list.len() > 0 {
                assert(union_of(all).contains(texts(list@)[0]));
            }
        }
    }
    Resolution { awaited: gathered.awaited, outcome }
}

} // verus!
