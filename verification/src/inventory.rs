//! Pages of an inventory query, and the collector that drains them.

use vstd::prelude::*;
use crate::error::Error;
use crate::fanin::{all_ok, fails_first_at};
use crate::idset::IdSet;

verus! {

/// One instance of a page, as far as it is read: its identifier, if it has one.
#[derive(Debug, Clone, PartialEq, Eq)]
pub struct Instance {
    pub instance_id: Option<String>,
}

/// A group of instances that the inventory reports together.
#[derive(Debug, Clone, PartialEq, Eq)]
pub struct Reservation {
    pub instances: Option<Vec<Instance>>,
}

/// One page of the answer to a query.
#[derive(Debug, Clone, PartialEq, Eq)]
pub struct Page {
    pub reservations: Option<Vec<Reservation>>,
}

impl Instance {
    /// The text of the identifier, if the instance has one.
    pub open spec fn id_text(&self) -> Option<Seq<char>> {
        match self.instance_id {
            Some(id) => Some(id@),
            None => None,
        }
    }
}

/// The identifiers that the instances of a list have.
pub open spec fn instance_ids(instances: Seq<Instance>) -> Set<Seq<char>> {
    Set::new(
        |t: Seq<char>|
            exists|i: int| 0 <= i < instances.len() && (#[trigger] instances[i]).id_text() == Some(t),
    )
}

/// The identifiers that the instances of a reservation have.
pub open spec fn reservation_ids(reservation: Reservation) -> Set<Seq<char>> {
    match reservation.instances {
        Some(instances) => instance_ids(instances@),
        None => Set::empty(),
    }
}

/// The identifiers found in the reservations of a list.
pub open spec fn reservations_ids(reservations: Seq<Reservation>) -> Set<Seq<char>> {
    Set::new(
        |t: Seq<char>|
            exists|k: int|
                0 <= k < reservations.len() && reservation_ids(#[trigger] reservations[k]).contains(
                    t,
                ),
    )
}

/// The identifiers found on a page.
pub open spec fn page_ids(page: Page) -> Set<Seq<char>> {
    match page.reservations {
        Some(reservations) => reservations_ids(reservations@),
        None => Set::empty(),
    }
}

/// The identifiers of a list of instances up to and with place `i` are
/// those before `i` and the one of the instance at `i`, if it has one.
proof fn lemma_instance_ids_next(instances: Seq<Instance>, i: int)
    requires
        0 <= i < instances.len(),
    ensures
        instance_ids(instances.take(i + 1)) == instance_ids(instances.take(i)).union(
            match instances[i].id_text() {
                Some(id) => set![id],
                None => Set::empty(),
            },
        ),
{
    let shorter = instances.take(i);
    let longer = instances.take(i + 1);
    let added = match instances[i].id_text() {
        Some(id) => set![id],
        None => Set::empty(),
    };
    assert forall|t: Seq<char>| instance_ids(longer).contains(t) == (instance_ids(
        shorter,
    ).contains(t) || added.contains(t)) by {
        if instance_ids(longer).contains(t) {
            let k = choose|k: int|
                0 <= k < longer.len() && (#[trigger] longer[k]).id_text() == Some(t);
            assert(k < i ==> shorter[k] == longer[k]);
        }
        if instance_ids(shorter).contains(t) {
            let k = choose|k: int|
                0 <= k < shorter.len() && (#[trigger] shorter[k]).id_text() == Some(t);
            assert(longer[k] == shorter[k]);
        }
        if added.contains(t) {
            assert(longer[i] == instances[i]);
        }
    }
    assert(instance_ids(longer) =~= instance_ids(shorter).union(added));
}

/// The identifiers of a list of reservations up to and with place `k` are
/// those before `k` and those of the reservation at `k`.
proof fn lemma_reservations_ids_next(reservations: Seq<Reservation>, k: int)
    requires
        0 <= k < reservations.len(),
    ensures
        reservations_ids(reservations.take(k + 1)) == reservations_ids(
            reservations.take(k),
        ).union(reservation_ids(reservations[k])),
{
    let shorter = reservations.take(k);
    let longer = reservations.take(k + 1);
    let added = reservation_ids(reservations[k]);
    assert forall|t: Seq<char>| reservations_ids(longer).contains(t) == (reservations_ids(
        shorter,
    ).contains(t) || added.contains(t)) by {
        if reservations_ids(longer).contains(t) {
            let j = choose|j: int|
                0 <= j < longer.len() && reservation_ids(#[trigger] longer[j]).contains(t);
            assert(j < k ==> shorter[j] == longer[j]);
        }
        if reservations_ids(shorter).contains(t) {
            let j = choose|j: int|
                0 <= j < shorter.len() && reservation_ids(#[trigger] shorter[j]).contains(t);
            assert(longer[j] == shorter[j]);
        }
        if added.contains(t) {
            assert(longer[k] == reservations[k]);
        }
    }
    assert(reservations_ids(longer) =~= reservations_ids(shorter).union(added));
}

/// Adds the identifiers of the instances of `reservation` to `found`.
fn collect_reservation(found: &mut IdSet, reservation: &Reservation)
    ensures
        final(found)@ == old(found)@.union(reservation_ids(*reservation)),
{
    match &reservation.instances {
        None => {},
        Some(instances) => {
            let n = instances.len();
            let mut i: usize = 0;
            while i < n
                invariant
                    i <= n,
                    n == instances.len(),
                    found@ == old(found)@.union(instance_ids(instances@.take(i as int))),
                decreases n - i,
            {
                match &instances[i].instance_id {
                    Some(id) => {
                        found.insert(id.clone());
                    },
                    None => {},
                }
                proof {
                    lemma_instance_ids_next(instances@, i as int);
                }
                i = i + 1;
            }
            assert(instances@.take(n as int) =~= instances@);
        },
    }
}

/// Adds the identifiers found on `page` to `found`.
pub fn collect_page(found: &mut IdSet, page: &Page)
    ensures
        final(found)@ == old(found)@.union(page_ids(*page)),
{
    match &page.reservations {
        None => {},
        Some(reservations) => {
            let n = reservations.len();
            let mut k: usize = 0;
            while k < n
                invariant
                    k <= n,
                    n == reservations.len(),
                    found@ == old(found)@.union(reservations_ids(reservations@.take(k as int))),
                decreases n - k,
            {
                collect_reservation(found, &reservations[k]);
                proof {
                    lemma_reservations_ids_next(reservations@, k as int);
                }
                k = k + 1;
            }
            assert(reservations@.take(n as int) =~= reservations@);
        },
    }
}

/// The identifiers found on the pages of a stream.
pub open spec fn stream_ids(stream: Seq<Result<Page, Error>>) -> Set<Seq<char>> {
    Set::new(
        |t: Seq<char>|
            exists|k: int|
                0 <= k < stream.len() && (#[trigger] stream[k]) is Ok && page_ids(
                    stream[k]->Ok_0,
                ).contains(t),
    )
}

/// What has been collected from the pages of one query so far.
#[derive(Debug)]
pub struct PageCollector {
    found: IdSet,
}

/// What the collector does next.
#[derive(Debug)]
pub enum Progress {
    /// It waits for the next page.
    More(PageCollector),
    /// The query has ended, with its identifiers or with the failure of a page.
    Done(Result<IdSet, Error>),
}

impl PageCollector {
    /// The identifiers collected so far.
    pub closed spec fn found(&self) -> Set<Seq<char>> {
        self.found@
    }

    /// A collector that has seen no page.
    pub fn new() -> (collector: PageCollector)
        ensures
            collector.found() == Set::<Seq<char>>::empty(),
    {
        PageCollector { found: IdSet::new() }
    }

    /// Takes what the stream gave: a page, whose identifiers are added; a
    /// failure, which ends the query with nothing but that failure; or the
    /// end of the stream, which ends it with all that was collected.
    pub fn step(self, event: Option<Result<Page, Error>>) -> (next: Progress)
        ensures
            match event {
                Some(Ok(page)) => next matches Progress::More(c) && c.found() == self.found().union(
                    page_ids(page),
                ),
                Some(Err(e)) => next == Progress::Done(Err(e)),
                None => next matches Progress::Done(Ok(set)) && set@ == self.found(),
            },
    {
        match event {
            Some(Ok(page)) => {
                let mut found = self.found;
                collect_page(&mut found, &page);
                Progress::More(PageCollector { found })
            },
            Some(Err(e)) => Progress::Done(Err(e)),
            None => Progress::Done(Ok(self.found)),
        }
    }
}

/// Drains a stream of pages that has been recorded: the identifiers of all
/// its pages where none failed, else the first failure and nothing more.
pub fn collect_pages(stream: Vec<Result<Page, Error>>) -> (result: Result<IdSet, Error>)
    ensures
        all_ok(stream@) ==> (result matches Ok(set) && set@ == stream_ids(stream@)),
        forall|at: int| fails_first_at(stream@, at) ==> result == Err::<IdSet, Error>(stream[at]->Err_0),
{
    let mut collector = PageCollector::new();
    let ghost all = stream@;
    for event in iter: stream
        invariant
            iter.seq() == all,
            forall|k: int| 0 <= k < iter.index() ==> (#[trigger] all[k]) is Ok,
            collector.found() == stream_ids(all.take(iter.index())),
    {
        let ghost k = iter.index();
        match collector.step(Some(event)) {
            Progress::More(c) => {
                collector = c;
            },
            Progress::Done(result) => {
                return result;
            },
        }
        proof {
            lemma_stream_ids_push(all, k);
        }
    }
    proof {
        assert(all.take(all.len() as int) =~= all);
    }
    match collector.step(None) {
        Progress::Done(result) => result,
        Progress::More(_) => unreached(),
    }
}

/// The identifiers of a stream up to and with place `k` are those before
/// `k` and those of the page at `k`.
proof fn lemma_stream_ids_push(stream: Seq<Result<Page, Error>>, k: int)
    requires
        0 <= k < stream.len(),
    ensures
        stream_ids(stream.take(k + 1)) == stream_ids(stream.take(k)).union(
            if stream[k] is Ok {
                page_ids(stream[k]->Ok_0)
            } else {
                Set::empty()
            },
        ),
{
    let shorter = stream.take(k);
    let longer = stream.take(k + 1);
    let added = if stream[k] is Ok {
        page_ids(stream[k]->Ok_0)
    } else {
        Set::empty()
    };
    assert forall|t: Seq<char>| stream_ids(longer).contains(t) == (stream_ids(shorter).contains(t)
        || added.contains(t)) by {
        if stream_ids(longer).contains(t) {
            let j = choose|j: int|
                0 <= j < longer.len() && (#[trigger] longer[j]) is Ok && page_ids(
                    longer[j]->Ok_0,
                ).contains(t);
            assert(j < k ==> shorter[j] == longer[j]);
        }
        if stream_ids(shorter).contains(t) {
            let j = choose|j: int|
                0 <= j < shorter.len() && (#[trigger] shorter[j]) is Ok && page_ids(
                    shorter[j]->Ok_0,
                ).contains(t);
            assert(longer[j] == shorter[j]);
        }
        if added.contains(t) {
            assert(longer[k] == stream[k]);
        }
    }
    assert(stream_ids(longer) =~= stream_ids(shorter).union(added));
}

} // verus!
