use crate::wbseller::models::cost::Cost;
use vstd::prelude::*;

verus! {

/// No date occurs twice in the list.
pub open spec fn distinct_dates(s: Seq<Cost>) -> bool {
    forall|i: int, j: int| 0 <= i < j < s.len() ==> s[i].date@ != s[j].date@
}

/// The costs of a list by their date: each date maps to the last record that
/// carries it.
pub open spec fn latest_by_date(s: Seq<Cost>) -> Map<Seq<char>, Cost>
    decreases s.len(),
{
    if s.len() == 0 {
        Map::empty()
    } else {
        latest_by_date(s.drop_last()).insert(s.last().date@, s.last())
    }
}

/// The list holds the records of the map, each date once.
pub open spec fn lists_exactly(s: Seq<Cost>, m: Map<Seq<char>, Cost>) -> bool {
    distinct_dates(s) && latest_by_date(s) == m
}

/// A date is in the map exactly if some record carries it.
pub proof fn lemma_dates_of(s: Seq<Cost>, d: Seq<char>)
    ensures
        latest_by_date(s).contains_key(d) <==> exists|i: int| 0 <= i < s.len() && (#[trigger] s[i]).date@ == d,
    decreases s.len(),
{
    if s.len() > 0 {
        let t = s.drop_last();
        lemma_dates_of(t, d);
        if latest_by_date(s).contains_key(d) {
            if s.last().date@ == d {
                assert(s[s.len() - 1].date@ == d);
            } else {
                let i = choose|i: int| 0 <= i < t.len() && (#[trigger] t[i]).date@ == d;
                assert(s[i].date@ == d);
            }
        }
        if exists|i: int| 0 <= i < s.len() && (#[trigger] s[i]).date@ == d {
            let i = choose|i: int| 0 <= i < s.len() && (#[trigger] s[i]).date@ == d;
            if i < s.len() - 1 {
                assert(t[i].date@ == d);
            }
        }
    }
}

/// With distinct dates, every record of the list is an entry of the map.
pub proof fn lemma_record_is_entry(s: Seq<Cost>, i: int)
    requires
        distinct_dates(s),
        0 <= i < s.len(),
    ensures
        latest_by_date(s).contains_key(s[i].date@),
        latest_by_date(s)[s[i].date@] == s[i],
    decreases s.len(),
{
    let t = s.drop_last();
    if i < s.len() - 1 {
        assert(distinct_dates(t));
        lemma_record_is_entry(t, i);
        assert(t[i] == s[i]);
    }
}

/// With distinct dates, replacing a record by one of the same date replaces
/// the entry of that date.
pub proof fn lemma_replace_record(s: Seq<Cost>, i: int, c: Cost)
    requires
        distinct_dates(s),
        0 <= i < s.len(),
        s[i].date@ == c.date@,
    ensures
        distinct_dates(s.update(i, c)),
        latest_by_date(s.update(i, c)) == latest_by_date(s).insert(c.date@, c),
    decreases s.len(),
{
    let u = s.update(i, c);
    let t = s.drop_last();
    assert(distinct_dates(u));
    if i == s.len() - 1 {
        assert(u.drop_last() == t);
        assert(latest_by_date(u) =~= latest_by_date(s).insert(c.date@, c));
    } else {
        assert(distinct_dates(t));
        lemma_replace_record(t, i, c);
        assert(u.drop_last() == t.update(i, c));
        assert(u.last() == s.last());
        assert(latest_by_date(u) =~= latest_by_date(s).insert(c.date@, c));
    }
}

/// With distinct dates, the map has as many dates as the list has records.
pub proof fn lemma_date_count(s: Seq<Cost>)
    requires
        distinct_dates(s),
    ensures
        latest_by_date(s).dom().finite(),
        latest_by_date(s).dom().len() == s.len(),
    decreases s.len(),
{
    if s.len() > 0 {
        let t = s.drop_last();
        assert(distinct_dates(t));
        lemma_date_count(t);
        lemma_dates_of(t, s.last().date@);
        assert(latest_by_date(s).dom() =~= latest_by_date(t).dom().insert(s.last().date@));
    } else {
        assert(latest_by_date(s).dom() =~= Set::empty());
    }
}

/// The costs of one supply by date, kept as a list of records with distinct
/// dates.
#[derive(Debug)]
pub struct DateCosts {
    records: Vec<Cost>,
}

impl View for DateCosts {
    type V = Map<Seq<char>, Cost>;

    closed spec fn view(&self) -> Map<Seq<char>, Cost> {
        latest_by_date(self.records@)
    }
}

impl DateCosts {
    /// No date is held twice. Every value that this type hands out is well formed.
    pub closed spec fn wf(self) -> bool {
        distinct_dates(self.records@)
    }

    /// The records in the order in which the map holds them.
    pub closed spec fn entries(self) -> Seq<Cost> {
        self.records@
    }

    /// The empty map.
    pub fn new() -> (m: Self)
        ensures
            m.wf(),
            m@ == Map::<Seq<char>, Cost>::empty(),
            m.entries().len() == 0,
    {
        DateCosts { records: Vec::new() }
    }

    /// The number of dates.
    pub fn len(&self) -> (n: usize)
        requires
            self.wf(),
        ensures
            self@.dom().finite(),
            n == self@.dom().len(),
            n == self.entries().len(),
    {
        proof {
            lemma_date_count(self.records@);
        }
        self.records.len()
    }

    /// Whether the map has no date.
    pub fn is_empty(&self) -> (b: bool)
        requires
            self.wf(),
        ensures
            b == (self@ == Map::<Seq<char>, Cost>::empty()),
            b == (self.entries().len() == 0),
    {
        proof {
            if self.records@.len() > 0 {
                lemma_record_is_entry(self.records@, 0);
            } else {
                assert(self@ =~= Map::<Seq<char>, Cost>::empty());
            }
        }
        self.records.len() == 0
    }

    fn position(&self, date: &String) -> (at: Option<usize>)
        ensures
            match at {
                Some(i) => i < self.records@.len() && self.records@[i as int].date@ == date@,
                None => forall|j: int| 0 <= j < self.records@.len() ==> self.records@[j].date@ != date@,
            },
    {
        let mut i: usize = 0;
        while i < self.records.len()
            invariant
                i <= self.records@.len(),
                forall|j: int| 0 <= j < i ==> self.records@[j].date@ != date@,
            decreases self.records@.len() - i,
        {
            if self.records[i].date == *date {
                return Some(i);
            }
            i += 1;
        }
        None
    }

    /// Whether the map has a record for the date.
    pub fn contains_date(&self, date: &String) -> (b: bool)
        ensures
            b == self@.contains_key(date@),
    {
        proof {
            lemma_dates_of(self.records@, date@);
        }
        self.position(date).is_some()
    }

    /// The record of a date, if the map has one.
    pub fn get(&self, date: &String) -> (c: Option<&Cost>)
        requires
            self.wf(),
        ensures
            match c {
                Some(c) => self@.contains_key(date@) && self@[date@] == *c,
                None => !self@.contains_key(date@),
            },
    {
        proof {
            lemma_dates_of(self.records@, date@);
        }
        match self.position(date) {
            Some(i) => {
                proof {
                    lemma_record_is_entry(self.records@, i as int);
                }
                Some(&self.records[i])
            },
            None => None,
        }
    }

    /// Files a record under its date, in place of the one that was there.
    pub fn insert(&mut self, c: Cost)
        requires
            old(self).wf(),
        ensures
            final(self).wf(),
            final(self)@ == old(self)@.insert(c.date@, c),
    {
        match self.position(&c.date) {
            Some(i) => {
                proof {
                    lemma_replace_record(self.records@, i as int, c);
                }
                self.records.set(i, c);
            },
            None => {
                let ghost before = self.records@;
                assert(before.push(c).drop_last() == before);
                self.records.push(c);
            },
        }
    }

    /// The costs of a list by date; of two records with one date the later stays.
    pub fn from_costs(costs: &Vec<Cost>) -> (m: Self)
        ensures
            m.wf(),
            m@ == latest_by_date(costs@),
    {
        let mut m = DateCosts::new();
        let mut i: usize = 0;
        while i < costs.len()
            invariant
                i <= costs@.len(),
                m.wf(),
                m@ == latest_by_date(costs@.take(i as int)),
            decreases costs@.len() - i,
        {
            assert(costs@.take(i + 1).drop_last() == costs@.take(i as int));
            m.insert(costs[i].clone());
            i += 1;
        }
        assert(costs@.take(costs@.len() as int) == costs@);
        m
    }

    /// The records, each date once.
    pub fn records(&self) -> (rs: &Vec<Cost>)
        ensures
            rs@ == self.entries(),
            distinct_dates(rs@) == self.wf(),
            latest_by_date(rs@) == self@,
    {
        &self.records
    }

    /// Gives up the map for its records, each date once.
    pub fn into_vec(self) -> (rs: Vec<Cost>)
        requires
            self.wf(),
        ensures
            rs@ == self.entries(),
            lists_exactly(rs@, self@),
    {
        self.records
    }
}

impl Clone for DateCosts {
    fn clone(&self) -> (r: Self)
        ensures
            r.entries() == self.entries(),
            r@ == self@,
            r.wf() == self.wf(),
    {
        DateCosts { records: crate::wbseller::models::cost::clone_costs(&self.records) }
    }
}

} // verus!
