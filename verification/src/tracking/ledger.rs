use crate::number::Sign;
use crate::tracking::date_costs::{
    distinct_dates, latest_by_date, lemma_dates_of, lemma_record_is_entry, lists_exactly, DateCosts,
};
use crate::wbseller::models::cost::{clone_costs, Cost};
use crate::wbseller::models::supply::Supply;
use std::collections::HashMap;
use vstd::prelude::*;
use vstd::std_specs::hash::spec_keys_iter;
use vstd::std_specs::iter::IteratorSpec;

verus! {

broadcast use vstd::std_specs::hash::group_hash_axioms;

/// The costs of one supply by date, as a mathematical map.
pub type DateMap = Map<Seq<char>, Cost>;

/// The supplies of one poll by their id.
pub type SupplyIndex = HashMap<i64, Supply>;

/// The cost lists of one poll by the id of their supply.
pub type CostLists = HashMap<i64, Vec<Cost>>;

/// What is told about one supply: the supply itself and the costs of the dates
/// on which acceptance became available.
#[derive(Debug)]
pub struct SupplyUpdateAcceptanceCosts {
    pub supply: Supply,
    pub costs: Vec<Cost>,
}

impl Clone for SupplyUpdateAcceptanceCosts {
    fn clone(&self) -> (r: Self)
        ensures
            r.supply == self.supply,
            r.costs@ == self.costs@,
    {
        SupplyUpdateAcceptanceCosts { supply: self.supply.clone(), costs: clone_costs(&self.costs) }
    }
}

impl Default for SupplyUpdateAcceptanceCosts {
    fn default() -> (r: Self)
        ensures
            r.supply.is_blank(),
            r.costs@.len() == 0,
    {
        SupplyUpdateAcceptanceCosts { supply: Supply::default(), costs: Vec::new() }
    }
}

/// The changes of one poll by the id of their supply.
pub type Updates = HashMap<i64, SupplyUpdateAcceptanceCosts>;

/// The supplies of a list by their id. A supply without an id is left out; of
/// two supplies with one id the later stays.
pub open spec fn supplies_by_id(s: Seq<Supply>) -> Map<i64, Supply>
    decreases s.len(),
{
    if s.len() == 0 {
        Map::empty()
    } else {
        match s.last().preorder_id {
            Some(id) => supplies_by_id(s.drop_last()).insert(id, s.last()),
            None => supplies_by_id(s.drop_last()),
        }
    }
}

/// An id is in the index exactly if a supply of the list carries it.
pub proof fn lemma_indexed_ids(s: Seq<Supply>, k: i64)
    ensures
        supplies_by_id(s).contains_key(k) <==> exists|i: int|
            0 <= i < s.len() && (#[trigger] s[i]).preorder_id == Some(k),
    decreases s.len(),
{
    if s.len() > 0 {
        let t = s.drop_last();
        lemma_indexed_ids(t, k);
        if supplies_by_id(s).contains_key(k) {
            if s.last().preorder_id == Some(k) {
                assert(s[s.len() - 1].preorder_id == Some(k));
            } else {
                let i = choose|i: int| 0 <= i < t.len() && (#[trigger] t[i]).preorder_id == Some(k);
                assert(s[i].preorder_id == Some(k));
            }
        }
        if exists|i: int| 0 <= i < s.len() && (#[trigger] s[i]).preorder_id == Some(k) {
            let i = choose|i: int| 0 <= i < s.len() && (#[trigger] s[i]).preorder_id == Some(k);
            if i < s.len() - 1 {
                assert(t[i].preorder_id == Some(k));
            }
        }
    }
}

/// The keys of a map, each once, in the order in which the map hands them
/// out.
pub fn keys_of<V>(map: &HashMap<i64, V>) -> (keys: Vec<i64>)
    ensures
        keys@.no_duplicates(),
        keys@.to_set() == map@.dom(),
{
    let mut keys: Vec<i64> = Vec::new();
    let ghost all = spec_keys_iter(map).remaining().unref();
    for key in it: map.keys()
        invariant
            it.seq().unref() == all,
            keys@ == all.take(it.index() as int),
    {
        assert(all.take(it.index() + 1) =~= all.take(it.index() as int).push(all[it.index() as int]));
        keys.push(*key);
    }
    assert(keys@ =~= all);
    keys
}

/// With no key twice in a list, the keys up to and with the one at a place
/// are the keys before it and that one, which is not among them.
pub proof fn lemma_next_key(keys: Seq<i64>, j: int)
    requires
        keys.no_duplicates(),
        0 <= j < keys.len(),
    ensures
        keys.take(j + 1).to_set() == keys.take(j).to_set().insert(keys[j]),
        !keys.take(j).to_set().contains(keys[j]),
{
    let before = keys.take(j);
    let with = keys.take(j + 1);
    assert(with =~= before.push(keys[j]));
    assert forall|k: i64| with.to_set().contains(k) <==> before.to_set().insert(keys[j]).contains(k) by {
        if with.contains(k) {
            let i = choose|i: int| 0 <= i < with.len() && with[i] == k;
            if i < j {
                assert(before[i] == k);
            }
        }
        if before.contains(k) {
            let i = choose|i: int| 0 <= i < before.len() && before[i] == k;
            assert(with[i] == k);
        }
        if k == keys[j] {
            assert(with[j] == k);
        }
    }
    assert(with.to_set() =~= before.to_set().insert(keys[j]));
    if before.contains(keys[j]) {
        let i = choose|i: int| 0 <= i < before.len() && before[i] == keys[j];
        assert(keys[i] == keys[j]);
    }
}

/// Builds the lookup of a poll's supplies by id.
pub fn index_supplies(supplies: &Vec<Supply>) -> (index: SupplyIndex)
    ensures
        index@ == supplies_by_id(supplies@),
{
    let mut index: SupplyIndex = HashMap::new();
    let mut i: usize = 0;
    while i < supplies.len()
        invariant
            i <= supplies@.len(),
            index@ == supplies_by_id(supplies@.take(i as int)),
        decreases supplies@.len() - i,
    {
        assert(supplies@.take(i + 1).drop_last() == supplies@.take(i as int));
        match supplies[i].preorder_id {
            Some(id) => {
                index.insert(id, supplies[i].clone());
            },
            None => {},
        }
        i += 1;
    }
    assert(supplies@.take(supplies@.len() as int) == supplies@);
    index
}

/// Whether a record that stood at `before` and now stands at `after` has become
/// available: its coefficient was below zero and is zero or above.
pub open spec fn turned_available(before: Cost, after: Cost) -> bool {
    before.coefficient.sign() == Sign::Negative && after.coefficient.sign() == Sign::NonNegative
}

/// The new records of the dates that were known before and have become
/// available.
pub open spec fn became_available(before: DateMap, after: DateMap) -> DateMap {
    Map::new(
        |d: Seq<char>|
            before.contains_key(d) && after.contains_key(d) && turned_available(before[d], after[d]),
        |d: Seq<char>| after[d],
    )
}

/// The cost lists of a poll as plain sequences.
pub open spec fn lists_of(data: Map<i64, Vec<Cost>>) -> Map<i64, Seq<Cost>> {
    Map::new(|k: i64| data.contains_key(k), |k: i64| data[k]@)
}

/// The new records of the dates of a supply that have become available since
/// the ledger was last written.
pub open spec fn news_of(ledger: Map<i64, DateMap>, fetched: Map<i64, Seq<Cost>>, k: i64) -> DateMap {
    became_available(ledger[k], latest_by_date(fetched[k]))
}

/// Whether there is anything to tell about a supply: it is listed, the ledger
/// knew it, costs were fetched for it, and some date of it has become
/// available.
pub open spec fn has_news(
    ledger: Map<i64, DateMap>,
    listed: Map<i64, Supply>,
    fetched: Map<i64, Seq<Cost>>,
    k: i64,
) -> bool {
    &&& listed.contains_key(k)
    &&& ledger.contains_key(k)
    &&& fetched.contains_key(k)
    &&& exists|d: Seq<char>| #[trigger] news_of(ledger, fetched, k).contains_key(d)
}

/// The updates tell exactly the news: one entry for each supply that has any,
/// with the supply as listed and the new record of each date that has become
/// available, each once.
pub open spec fn reports(
    updates: Map<i64, SupplyUpdateAcceptanceCosts>,
    ledger: Map<i64, DateMap>,
    listed: Map<i64, Supply>,
    fetched: Map<i64, Seq<Cost>>,
) -> bool {
    &&& forall|k: i64| #[trigger] updates.contains_key(k) <==> has_news(ledger, listed, fetched, k)
    &&& forall|k: i64| #[trigger]
        updates.contains_key(k) ==> {
            &&& updates[k].supply == listed[k]
            &&& lists_exactly(updates[k].costs@, news_of(ledger, fetched, k))
        }
}

/// The ledger after a poll: the supplies that are no longer listed are gone,
/// and each supply for which costs were fetched has exactly those.
pub open spec fn next_ledger(
    ledger: Map<i64, DateMap>,
    listed: Set<i64>,
    fetched: Map<i64, Seq<Cost>>,
) -> Map<i64, DateMap> {
    Map::new(
        |k: i64| fetched.contains_key(k) || (ledger.contains_key(k) && listed.contains(k)),
        |k: i64|
            if fetched.contains_key(k) {
                latest_by_date(fetched[k])
            } else {
                ledger[k]
            },
    )
}

/// After a poll the ledger knows exactly the listed supplies, whenever costs
/// were fetched for exactly those: nothing stale stays and nothing listed is
/// missing.
pub proof fn lemma_ledger_ids_are_listed(
    ledger: Map<i64, DateMap>,
    listed: Set<i64>,
    fetched: Map<i64, Seq<Cost>>,
)
    requires
        fetched.dom() == listed,
    ensures
        next_ledger(ledger, listed, fetched).dom() == listed,
{
    assert(next_ledger(ledger, listed, fetched).dom() =~= listed);
}

/// After a poll the ledger holds, for each supply for which costs were
/// fetched, those costs by date and nothing of what it held before.
pub proof fn lemma_ledger_holds_fetched(
    ledger: Map<i64, DateMap>,
    listed: Set<i64>,
    fetched: Map<i64, Seq<Cost>>,
    k: i64,
)
    requires
        fetched.contains_key(k),
    ensures
        next_ledger(ledger, listed, fetched).contains_key(k),
        next_ledger(ledger, listed, fetched)[k] == latest_by_date(fetched[k]),
{
}

/// A record is told for a supply and a date exactly if the ledger held a
/// record for that supply and date with a coefficient below zero and the new
/// record for them has a coefficient of zero or above. No other change is told:
/// not one between two available coefficients, not a date that is new, not a
/// date that stopped being available.
pub proof fn lemma_update_iff_turned_available(
    updates: Map<i64, SupplyUpdateAcceptanceCosts>,
    ledger: Map<i64, DateMap>,
    listed: Map<i64, Supply>,
    fetched: Map<i64, Seq<Cost>>,
    k: i64,
    d: Seq<char>,
)
    requires
        reports(updates, ledger.restrict(listed.dom()), listed, fetched),
    ensures
        (updates.contains_key(k) && exists|i: int|
            0 <= i < updates[k].costs@.len() && (#[trigger] updates[k].costs@[i]).date@ == d) <==> ({
            &&& listed.contains_key(k)
            &&& ledger.contains_key(k)
            &&& fetched.contains_key(k)
            &&& ledger[k].contains_key(d)
            &&& latest_by_date(fetched[k]).contains_key(d)
            &&& turned_available(ledger[k][d], latest_by_date(fetched[k])[d])
        }),
        updates.contains_key(k) ==> forall|i: int|
            0 <= i < updates[k].costs@.len() && (#[trigger] updates[k].costs@[i]).date@ == d
                ==> updates[k].costs@[i] == latest_by_date(fetched[k])[d],
{
    let kept = ledger.restrict(listed.dom());
    let news = news_of(kept, fetched, k);
    if updates.contains_key(k) {
        let costs = updates[k].costs@;
        lemma_dates_of(costs, d);
        assert(has_news(kept, listed, fetched, k));
        assert forall|i: int| 0 <= i < costs.len() && (#[trigger] costs[i]).date@ == d implies costs[i]
            == latest_by_date(fetched[k])[d] by {
            lemma_record_is_entry(costs, i);
        }
    } else {
        if listed.contains_key(k) && ledger.contains_key(k) && fetched.contains_key(k)
            && ledger[k].contains_key(d) && latest_by_date(fetched[k]).contains_key(d)
            && turned_available(ledger[k][d], latest_by_date(fetched[k])[d]) {
            assert(kept.contains_key(k));
            assert(news.contains_key(d));
            assert(has_news(kept, listed, fetched, k));
        }
    }
}

/// Nothing is told of a supply that the ledger did not know: its first costs
/// are written down in silence.
pub proof fn lemma_first_sight_is_silent(
    updates: Map<i64, SupplyUpdateAcceptanceCosts>,
    ledger: Map<i64, DateMap>,
    listed: Map<i64, Supply>,
    fetched: Map<i64, Seq<Cost>>,
    k: i64,
)
    requires
        reports(updates, ledger.restrict(listed.dom()), listed, fetched),
        !ledger.contains_key(k),
    ensures
        !updates.contains_key(k),
        fetched.contains_key(k) ==> next_ledger(ledger, listed.dom(), fetched)[k] == latest_by_date(
            fetched[k],
        ),
{
    assert(!has_news(ledger.restrict(listed.dom()), listed, fetched, k));
}

/// The new records of the dates that were known before and have become
/// available.
pub fn newly_available(before: &DateCosts, after: &DateCosts) -> (news: DateCosts)
    requires
        before.wf(),
        after.wf(),
    ensures
        news.wf(),
        news@ == became_available(before@, after@),
{
    let records = after.records();
    let mut news = DateCosts::new();
    let mut i: usize = 0;
    while i < records.len()
        invariant
            i <= records@.len(),
            before.wf(),
            distinct_dates(records@),
            news.wf(),
            news@ == became_available(before@, latest_by_date(records@.take(i as int))),
        decreases records@.len() - i,
    {
        let ghost seen = records@.take(i as int);
        proof {
            assert(records@.take(i + 1).drop_last() == seen);
            assert(records@.take(i + 1).last() == records@[i as int]);
            lemma_dates_of(seen, records@[i as int].date@);
            assert(!latest_by_date(seen).contains_key(records@[i as int].date@)) by {
                if latest_by_date(seen).contains_key(records@[i as int].date@) {
                    let j = choose|j: int|
                        0 <= j < seen.len() && (#[trigger] seen[j]).date@ == records@[i as int].date@;
                    assert(records@[j] == seen[j]);
                }
            }
        }
        let after_record = &records[i];
        match before.get(&after_record.date) {
            Some(before_record) => {
                if before_record.coefficient.is_negative() && after_record.coefficient.is_non_negative() {
                    news.insert(after_record.clone());
                }
            },
            None => {},
        }
        assert(news@ =~= became_available(before@, latest_by_date(records@.take(i + 1))));
        i += 1;
    }
    assert(records@.take(records@.len() as int) == records@);
    news
}

/// The last known costs: for each supply, by date.
#[derive(Debug)]
pub struct AcceptanceCosts {
    items: HashMap<i64, DateCosts>,
}

impl View for AcceptanceCosts {
    type V = Map<i64, DateMap>;

    closed spec fn view(&self) -> Map<i64, DateMap> {
        Map::new(|k: i64| self.items@.contains_key(k), |k: i64| self.items@[k]@)
    }
}

impl AcceptanceCosts {
    /// Within a supply, no date is held twice. Every ledger that this type
    /// hands out is well formed.
    pub closed spec fn wf(self) -> bool {
        forall|k: i64| #[trigger] self.items@.contains_key(k) ==> self.items@[k].wf()
    }

    /// The empty ledger.
    pub fn new() -> (ledger: Self)
        ensures
            ledger.wf(),
            ledger@ == Map::<i64, DateMap>::empty(),
    {
        let ledger = AcceptanceCosts { items: HashMap::new() };
        assert(ledger@ =~= Map::<i64, DateMap>::empty());
        ledger
    }

    /// Whether the ledger knows no supply.
    pub fn is_empty(&self) -> (b: bool)
        ensures
            b == (self@ == Map::<i64, DateMap>::empty()),
    {
        let b = self.items.is_empty();
        proof {
            assert(self@.dom() =~= self.items@.dom());
            if b {
                assert(self@ =~= Map::<i64, DateMap>::empty());
            } else {
                assert(self@.dom() != Set::<i64>::empty());
            }
        }
        b
    }

    /// The number of supplies that the ledger knows.
    pub fn len(&self) -> (n: usize)
        ensures
            self@.dom().finite(),
            n == self@.dom().len(),
    {
        let n = self.items.len();
        assert(self@.dom() =~= self.items@.dom());
        n
    }

    /// Whether the ledger knows the supply.
    pub fn contains_key(&self, k: i64) -> (b: bool)
        ensures
            b == self@.contains_key(k),
    {
        self.items.contains_key(&k)
    }

    /// The costs of a supply by date, if the ledger knows it.
    pub fn get(&self, k: i64) -> (costs: Option<&DateCosts>)
        requires
            self.wf(),
        ensures
            match costs {
                Some(c) => self@.contains_key(k) && self@[k] == c@ && c.wf(),
                None => !self@.contains_key(k),
            },
    {
        self.items.get(&k)
    }

    /// The ids of the supplies that the ledger knows, each once.
    pub fn keys(&self) -> (ks: Vec<i64>)
        ensures
            ks@.no_duplicates(),
            ks@.to_set() == self@.dom(),
    {
        let ks = keys_of(&self.items);
        assert(self@.dom() =~= self.items@.dom());
        ks
    }

    /// Writes the costs of a supply, in place of what the ledger held for it.
    pub fn insert(&mut self, k: i64, costs: DateCosts)
        requires
            old(self).wf(),
            costs.wf(),
        ensures
            final(self).wf(),
            final(self)@ == old(self)@.insert(k, costs@),
    {
        self.items.insert(k, costs);
        assert(self@ =~= old(self)@.insert(k, costs@));
    }

    /// A copy of the ledger as it stands.
    pub fn snapshot(&self) -> (copy: Self)
        requires
            self.wf(),
        ensures
            copy.wf(),
            copy@ == self@,
    {
        let ks = keys_of(&self.items);
        let mut copy = AcceptanceCosts::new();
        let mut i: usize = 0;
        while i < ks.len()
            invariant
                i <= ks@.len(),
                ks@.no_duplicates(),
                ks@.to_set() == self.items@.dom(),
                self.wf(),
                copy.wf(),
                copy@ == self@.restrict(ks@.take(i as int).to_set()),
            decreases ks@.len() - i,
        {
            let k = ks[i];
            proof {
                lemma_next_key(ks@, i as int);
                assert(ks@.to_set().contains(ks@[i as int]));
            }
            if let Some(costs) = self.items.get(&k) {
                copy.insert(k, costs.clone());
            }
            assert(copy@ =~= self@.restrict(ks@.take(i + 1).to_set()));
            i += 1;
        }
        proof {
            assert(ks@.take(ks@.len() as int) == ks@);
            assert(copy@ =~= self@);
        }
        copy
    }

    /// Forgets every supply that is not in the index.
    pub fn retain_listed(&mut self, index: &SupplyIndex)
        requires
            old(self).wf(),
        ensures
            final(self).wf(),
            final(self)@ == old(self)@.restrict(index@.dom()),
    {
        let ks = keys_of(&self.items);
        let ghost before = self.items@;
        let mut i: usize = 0;
        while i < ks.len()
            invariant
                i <= ks@.len(),
                ks@.no_duplicates(),
                ks@.to_set() == before.dom(),
                forall|k: i64| #[trigger] before.contains_key(k) ==> before[k].wf(),
                forall|k: i64|
                    #[trigger] self.items@.contains_key(k) <==> before.contains_key(k) && (ks@.take(
                        i as int,
                    ).to_set().contains(k) ==> index@.contains_key(k)),
                forall|k: i64| #[trigger] self.items@.contains_key(k) ==> self.items@[k] == before[k],
            decreases ks@.len() - i,
        {
            let k = ks[i];
            proof {
                lemma_next_key(ks@, i as int);
            }
            if !index.contains_key(&k) {
                self.items.remove(&k);
            }
            i += 1;
        }
        proof {
            assert(ks@.take(ks@.len() as int) == ks@);
            assert forall|k: i64| before.contains_key(k) implies ks@.to_set().contains(k) by {
                assert(before.dom().contains(k));
            }
            assert(self@ =~= old(self)@.restrict(index@.dom()));
        }
    }

    /// Brings the ledger up to a poll and says what has become available.
    ///
    /// Supplies that are no longer listed are forgotten. A supply that the
    /// ledger did not know is written down and nothing is told of it. For a
    /// supply that it knew, the new record of every date whose coefficient went
    /// from below zero to zero or above is told, and the new costs take the
    /// place of the old ones.
    pub fn apply(&mut self, index: &SupplyIndex, data: &CostLists) -> (updates: Updates)
        requires
            old(self).wf(),
        ensures
            final(self).wf(),
            final(self)@ == next_ledger(old(self)@, index@.dom(), lists_of(data@)),
            reports(updates@, old(self)@.restrict(index@.dom()), index@, lists_of(data@)),
    {
        self.retain_listed(index);
        let ghost kept = self@;
        let ghost fetched = lists_of(data@);
        let ks = keys_of(data);
        let mut updates: Updates = HashMap::new();
        let mut j: usize = 0;
        assert(self@ =~= next_ledger(kept, Set::full(), fetched.restrict(ks@.take(0).to_set())));
        while j < ks.len()
            invariant
                j <= ks@.len(),
                ks@.no_duplicates(),
                ks@.to_set() == data@.dom(),
                fetched == lists_of(data@),
                forall|k: i64| #[trigger] kept.contains_key(k) ==> index@.contains_key(k),
                self.wf(),
                self@ == next_ledger(kept, Set::full(), fetched.restrict(ks@.take(j as int).to_set())),
                reports(updates@, kept, index@, fetched.restrict(ks@.take(j as int).to_set())),
            decreases ks@.len() - j,
        {
            let ghost seen = fetched.restrict(ks@.take(j as int).to_set());
            let k = ks[j];
            proof {
                lemma_next_key(ks@, j as int);
                assert(ks@.to_set().contains(ks@[j as int]));
                assert(data@.contains_key(k));
                assert(!seen.contains_key(k));
            }
            let ghost now = seen.insert(k, data@[k]@);
            assert(now =~= fetched.restrict(ks@.take(j + 1).to_set()));
            if let Some(costs) = data.get(&k) {
                let after = DateCosts::from_costs(costs);
                let mut told = false;
                match self.get(k) {
                    Some(before) => {
                        let news = newly_available(before, &after);
                        assert(news@ == news_of(kept, now, k));
                        if !news.is_empty() {
                            match index.get(&k) {
                                Some(supply) => {
                                    proof {
                                        if !has_news(kept, index@, now, k) {
                                            assert forall|d: Seq<char>| !news@.contains_key(d) by {}
                                            assert(news@ =~= Map::<Seq<char>, Cost>::empty());
                                        }
                                    }
                                    updates.insert(
                                        k,
                                        SupplyUpdateAcceptanceCosts {
                                            supply: supply.clone(),
                                            costs: news.into_vec(),
                                        },
                                    );
                                    told = true;
                                },
                                None => {},
                            }
                        } else {
                            assert(!has_news(kept, index@, now, k));
                        }
                    },
                    None => {
                        assert(!has_news(kept, index@, now, k));
                    },
                }
                assert(told == has_news(kept, index@, now, k));
                self.insert(k, after);
            }
            proof {
                assert(self@ =~= next_ledger(kept, Set::full(), now));
                assert forall|x: i64| x != k implies has_news(kept, index@, now, x) == has_news(
                    kept,
                    index@,
                    seen,
                    x,
                ) by {
                    assert(news_of(kept, now, x) == news_of(kept, seen, x));
                }
                assert forall|x: i64| x != k implies news_of(kept, now, x) == news_of(kept, seen, x) by {}
                assert(reports(updates@, kept, index@, now));
            }
            j += 1;
        }
        proof {
            assert(ks@.take(ks@.len() as int) == ks@);
            assert(fetched.restrict(ks@.to_set()) =~= fetched);
            assert(self@ =~= next_ledger(old(self)@, index@.dom(), lists_of(data@)));
        }
        updates
    }
}

} // verus!
