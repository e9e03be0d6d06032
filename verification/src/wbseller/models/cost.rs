use crate::number::Number;
use vstd::prelude::*;

verus! {

/// How the delivery and storage part of a cost was worked out, as the remote
/// side words it.
#[derive(Debug)]
pub struct DeliveryAndStorage {
    pub delivery_and_storage_expr: String,
    pub delivery_coef: String,
    pub delivery_value_base: String,
    pub delivery_value_liter: String,
    pub storage_coef: String,
    pub storage_liter: String,
    pub storage_value: String,
    pub storage_volume_cut: String,
}

impl DeliveryAndStorage {
    /// Every text is empty.
    pub open spec fn is_blank(self) -> bool {
        &&& self.delivery_and_storage_expr@.len() == 0
        &&& self.delivery_coef@.len() == 0
        &&& self.delivery_value_base@.len() == 0
        &&& self.delivery_value_liter@.len() == 0
        &&& self.storage_coef@.len() == 0
        &&& self.storage_liter@.len() == 0
        &&& self.storage_value@.len() == 0
        &&& self.storage_volume_cut@.len() == 0
    }
}

impl Clone for DeliveryAndStorage {
    fn clone(&self) -> (r: Self)
        ensures
            r == *self,
    {
        DeliveryAndStorage {
            delivery_and_storage_expr: self.delivery_and_storage_expr.clone(),
            delivery_coef: self.delivery_coef.clone(),
            delivery_value_base: self.delivery_value_base.clone(),
            delivery_value_liter: self.delivery_value_liter.clone(),
            storage_coef: self.storage_coef.clone(),
            storage_liter: self.storage_liter.clone(),
            storage_value: self.storage_value.clone(),
            storage_volume_cut: self.storage_volume_cut.clone(),
        }
    }
}

impl Default for DeliveryAndStorage {
    fn default() -> (r: Self)
        ensures
            r.is_blank(),
    {
        DeliveryAndStorage {
            delivery_and_storage_expr: String::new(),
            delivery_coef: String::new(),
            delivery_value_base: String::new(),
            delivery_value_liter: String::new(),
            storage_coef: String::new(),
            storage_liter: String::new(),
            storage_value: String::new(),
            storage_volume_cut: String::new(),
        }
    }
}

/// The cost of accepting one supply on one calendar date.
///
/// A coefficient below zero means that acceptance is not yet available on that
/// date; zero or above means that it is.
#[derive(Debug)]
pub struct Cost {
    pub coefficient: Number,
    pub cost: Number,
    pub date: String,
    pub delivery_and_storage: DeliveryAndStorage,
}

impl Cost {
    /// Zero numbers and empty texts.
    pub open spec fn is_blank(self) -> bool {
        &&& self.coefficient.bits == 0
        &&& self.cost.bits == 0
        &&& self.date@.len() == 0
        &&& self.delivery_and_storage.is_blank()
    }
}

impl Clone for Cost {
    fn clone(&self) -> (r: Self)
        ensures
            r == *self,
    {
        Cost {
            coefficient: self.coefficient,
            cost: self.cost,
            date: self.date.clone(),
            delivery_and_storage: self.delivery_and_storage.clone(),
        }
    }
}

impl Default for Cost {
    fn default() -> (r: Self)
        ensures
            r.is_blank(),
    {
        Cost {
            coefficient: Number::zero(),
            cost: Number::zero(),
            date: String::new(),
            delivery_and_storage: DeliveryAndStorage::default(),
        }
    }
}

/// The costs of one supply, one per date, as the remote side listed them.
#[derive(Debug)]
pub struct AcceptanceCostsResult {
    pub costs: Vec<Cost>,
}

impl Clone for AcceptanceCostsResult {
    fn clone(&self) -> (r: Self)
        ensures
            r.costs@ == self.costs@,
    {
        AcceptanceCostsResult { costs: clone_costs(&self.costs) }
    }
}

impl Default for AcceptanceCostsResult {
    fn default() -> (r: Self)
        ensures
            r.costs@.len() == 0,
    {
        AcceptanceCostsResult { costs: Vec::new() }
    }
}

/// The answer to a cost lookup.
#[derive(Debug)]
pub struct AcceptanceCostsResponse {
    pub result: AcceptanceCostsResult,
}

impl Clone for AcceptanceCostsResponse {
    fn clone(&self) -> (r: Self)
        ensures
            r.result.costs@ == self.result.costs@,
    {
        AcceptanceCostsResponse { result: self.result.clone() }
    }
}

impl Default for AcceptanceCostsResponse {
    fn default() -> (r: Self)
        ensures
            r.result.costs@.len() == 0,
    {
        AcceptanceCostsResponse { result: AcceptanceCostsResult::default() }
    }
}

/// Whether the character stands at the place and nowhere before it.
pub open spec fn is_first(text: Seq<char>, c: char, i: int) -> bool {
    &&& 0 <= i < text.len()
    &&& text[i] == c
    &&& forall|j: int| 0 <= j < i ==> text[j] != c
}

/// The day of a date that is written with its time: what stands before the
/// first `T`, and the whole where there is none.
pub fn short_date(date: &str) -> (day: &str)
    ensures
        (forall|i: int| 0 <= i < date@.len() ==> date@[i] != 'T') ==> day@ == date@,
        forall|i: int| is_first(date@, 'T', i) ==> day@ == date@.take(i),
{
    let n = date.unicode_len();
    let mut i: usize = 0;
    while i < n
        invariant
            n == date@.len(),
            i <= n,
            forall|j: int| 0 <= j < i ==> date@[j] != 'T',
        decreases n - i,
    {
        if date.get_char(i) == 'T' {
            let day = date.substring_char(0, i);
            assert(day@ =~= date@.take(i as int));
            assert forall|k: int| is_first(date@, 'T', k) implies day@ == date@.take(k) by {
                if k < i {
                    assert(date@[k] != 'T');
                }
                if i < k {
                    assert(date@[i as int] == 'T');
                }
            }
            return day;
        }
        i += 1;
    }
    date
}

/// A copy of a list of costs, record for record.
pub fn clone_costs(costs: &Vec<Cost>) -> (r: Vec<Cost>)
    ensures
        r@ == costs@,
{
    let mut out: Vec<Cost> = Vec::new();
    let mut i: usize = 0;
    while i < costs.len()
        invariant
            i <= costs.len(),
            out@ == costs@.take(i as int),
        decreases costs.len() - i,
    {
        out.push(costs[i].clone());
        assert(costs@.take(i + 1) == costs@.take(i as int).push(costs@[i as int]));
        i += 1;
    }
    assert(costs@.take(costs.len() as int) == costs@);
    out
}

} // verus!
