use wb_supplies::number::Number;
use wb_supplies::tracking::date_costs::DateCosts;
use std::collections::HashMap;
use wb_supplies::tracking::ledger::{
    index_supplies, keys_of, newly_available, AcceptanceCosts, CostLists, Updates,
};
use wb_supplies::wbseller::models::cost::{short_date, Cost};
use wb_supplies::wbseller::models::supply::Supply;

fn cost(date: &str, coefficient: f64) -> Cost {
    let mut c = Cost::default();
    c.date = date.to_string();
    c.coefficient = Number::from_bits(coefficient.to_bits());
    c.cost = Number::from_bits((coefficient * 10.0).to_bits());
    c
}

fn supply(id: Option<i64>, warehouse: &str) -> Supply {
    let mut s = Supply::default();
    s.preorder_id = id;
    s.warehouse_name = warehouse.to_string();
    s
}

fn lists(entries: Vec<(i64, Vec<Cost>)>) -> CostLists {
    let mut data: CostLists = HashMap::new();
    for (k, v) in entries {
        data.insert(k, v);
    }
    data
}

fn coefficient_at(ledger: &AcceptanceCosts, id: i64, date: &str) -> Option<f64> {
    ledger.get(id).and_then(|costs| costs.get(&date.to_string())).map(|c| f64::from_bits(c.coefficient.bits))
}

fn sorted(mut keys: Vec<i64>) -> Vec<i64> {
    keys.sort();
    keys
}

fn told_ids(updates: &Updates) -> Vec<i64> {
    sorted(updates.keys().copied().collect())
}

#[test]
fn date_costs_keep_the_later_of_two_records_with_one_date() {
    let costs = DateCosts::from_costs(&vec![cost("2024-01-01", -1.0), cost("2024-01-02", 2.0), cost("2024-01-01", 3.0)]);
    assert_eq!(costs.len(), 2);
    let first = costs.get(&"2024-01-01".to_string()).unwrap();
    assert_eq!(f64::from_bits(first.coefficient.bits), 3.0);
    assert!(costs.contains_date(&"2024-01-02".to_string()));
    assert!(!costs.contains_date(&"2024-01-03".to_string()));
    assert!(costs.get(&"2024-01-03".to_string()).is_none());
    let dates: Vec<String> = costs.records().iter().map(|c| c.date.clone()).collect();
    assert_eq!(dates, vec!["2024-01-01".to_string(), "2024-01-02".to_string()]);
}

#[test]
fn date_costs_start_empty_and_grow_by_date() {
    let mut costs = DateCosts::new();
    assert!(costs.is_empty());
    assert_eq!(costs.len(), 0);
    costs.insert(cost("a", 1.0));
    costs.insert(cost("b", 1.0));
    costs.insert(cost("a", 2.0));
    assert!(!costs.is_empty());
    assert_eq!(costs.len(), 2);
    let copy = costs.clone();
    assert_eq!(copy.len(), 2);
    let records = costs.into_vec();
    assert_eq!(records.len(), 2);
    assert_eq!(f64::from_bits(records[0].coefficient.bits), 2.0);
}

#[test]
fn the_keys_of_a_map_come_each_once() {
    let mut m: HashMap<i64, u8> = HashMap::new();
    assert!(keys_of(&m).is_empty());
    for k in [7, -3, 9, 7, 0] {
        m.insert(k, 1);
    }
    assert_eq!(sorted(keys_of(&m)), vec![-3, 0, 7, 9]);
}

#[test]
fn index_drops_supplies_without_an_id_and_keeps_the_later_of_two() {
    let index = index_supplies(&vec![
        supply(Some(1), "first"),
        supply(None, "nameless"),
        supply(Some(2), "second"),
        supply(Some(1), "third"),
    ]);
    assert_eq!(index.len(), 2);
    assert_eq!(index.get(&1).unwrap().warehouse_name, "third");
    assert_eq!(index.get(&2).unwrap().warehouse_name, "second");
}

#[test]
fn only_a_move_from_below_zero_to_zero_or_above_is_news() {
    let before = DateCosts::from_costs(&vec![
        cost("became", -1.0),
        cost("became-zero", -0.5),
        cost("lower", 5.0),
        cost("worse", 0.0),
        cost("still", -1.0),
        cost("gone", -1.0),
        cost("nan-after", -1.0),
        cost("nan-before", f64::NAN),
    ]);
    let after = DateCosts::from_costs(&vec![
        cost("became", 0.5),
        cost("became-zero", 0.0),
        cost("lower", 3.0),
        cost("worse", -1.0),
        cost("still", -2.0),
        cost("fresh", 1.0),
        cost("nan-after", f64::NAN),
        cost("nan-before", 1.0),
    ]);
    let news = newly_available(&before, &after);
    let mut dates: Vec<String> = news.records().iter().map(|c| c.date.clone()).collect();
    dates.sort();
    assert_eq!(dates, vec!["became".to_string(), "became-zero".to_string()]);
    assert_eq!(f64::from_bits(news.get(&"became".to_string()).unwrap().coefficient.bits), 0.5);
    assert_eq!(f64::from_bits(news.get(&"became".to_string()).unwrap().cost.bits), 5.0);
}

#[test]
fn a_known_date_that_became_available_is_told_and_a_new_supply_is_not() {
    let supplies = vec![supply(Some(101), "A"), supply(Some(102), "B")];
    let mut ledger = AcceptanceCosts::new();
    ledger.insert(101, DateCosts::from_costs(&vec![cost("2024-01-01", -1.0)]));

    let index = index_supplies(&supplies);
    let data = lists(vec![(101, vec![cost("2024-01-01", 0.5)]), (102, vec![cost("2024-01-01", 1.0)])]);
    let updates = ledger.apply(&index, &data);

    assert_eq!(told_ids(&updates), vec![101]);
    let told = updates.get(&101).unwrap();
    assert_eq!(told.supply.warehouse_name, "A");
    assert_eq!(told.supply.preorder_id, Some(101));
    assert_eq!(told.costs.len(), 1);
    assert_eq!(told.costs[0].date, "2024-01-01");
    assert_eq!(f64::from_bits(told.costs[0].coefficient.bits), 0.5);
    assert!(updates.get(&102).is_none());
    assert_eq!(sorted(ledger.keys()), vec![101, 102]);
    assert_eq!(coefficient_at(&ledger, 101, "2024-01-01"), Some(0.5));
    assert_eq!(coefficient_at(&ledger, 102, "2024-01-01"), Some(1.0));

    let next = vec![supply(Some(102), "B")];
    let index = index_supplies(&next);
    let data = lists(vec![(102, vec![cost("2024-01-01", 1.0)])]);
    let updates = ledger.apply(&index, &data);
    assert!(updates.is_empty());
    assert_eq!(ledger.keys(), vec![102]);
    assert!(!ledger.contains_key(101));
    assert!(ledger.get(101).is_none());
}

#[test]
fn the_ledger_knows_exactly_the_listed_supplies_after_a_poll() {
    let mut ledger = AcceptanceCosts::new();
    for id in [1, 2, 3, 4] {
        ledger.insert(id, DateCosts::from_costs(&vec![cost("d", -1.0)]));
    }
    let supplies = vec![supply(Some(2), "two"), supply(Some(4), "four"), supply(Some(5), "five")];
    let index = index_supplies(&supplies);
    let data = lists(vec![(2, vec![cost("d", -1.0)]), (4, vec![]), (5, vec![cost("d", 3.0)])]);
    let updates = ledger.apply(&index, &data);
    assert!(updates.is_empty());
    assert_eq!(sorted(ledger.keys()), vec![2, 4, 5]);
    assert_eq!(ledger.len(), 3);
    assert!(ledger.get(4).unwrap().is_empty());
}

#[test]
fn the_new_costs_take_the_place_of_the_old_ones_altogether() {
    let mut ledger = AcceptanceCosts::new();
    ledger.insert(1, DateCosts::from_costs(&vec![cost("old", -1.0), cost("both", -1.0)]));
    let index = index_supplies(&vec![supply(Some(1), "one")]);
    let data = lists(vec![(1, vec![cost("both", -1.0), cost("new", 2.0)])]);
    let updates = ledger.apply(&index, &data);
    assert!(updates.is_empty());
    assert_eq!(coefficient_at(&ledger, 1, "old"), None);
    assert_eq!(coefficient_at(&ledger, 1, "both"), Some(-1.0));
    assert_eq!(coefficient_at(&ledger, 1, "new"), Some(2.0));
}

#[test]
fn several_dates_of_one_supply_are_told_together() {
    let mut ledger = AcceptanceCosts::new();
    ledger.insert(1, DateCosts::from_costs(&vec![cost("a", -1.0), cost("b", -1.0), cost("c", 1.0)]));
    let index = index_supplies(&vec![supply(Some(1), "one")]);
    let data = lists(vec![(1, vec![cost("a", 0.0), cost("b", 4.0), cost("c", 2.0)])]);
    let updates = ledger.apply(&index, &data);
    let told = updates.get(&1).unwrap();
    let mut dates: Vec<String> = told.costs.iter().map(|c| c.date.clone()).collect();
    dates.sort();
    assert_eq!(dates, vec!["a".to_string(), "b".to_string()]);
}

#[test]
fn retain_listed_forgets_what_is_not_in_the_index() {
    let mut ledger = AcceptanceCosts::new();
    assert!(ledger.is_empty());
    for id in [10, 20, 30] {
        ledger.insert(id, DateCosts::new());
    }
    ledger.retain_listed(&index_supplies(&vec![supply(Some(20), "x"), supply(Some(40), "y")]));
    assert_eq!(ledger.keys(), vec![20]);
    let copy = ledger.snapshot();
    assert_eq!(copy.keys(), vec![20]);
    assert!(!ledger.is_empty());
}

#[test]
fn the_day_of_a_date_stands_before_the_first_t() {
    assert_eq!(short_date("2024-01-26T00:00:00Z"), "2024-01-26");
    assert_eq!(short_date("2024-01-26"), "2024-01-26");
    assert_eq!(short_date(""), "");
    assert_eq!(short_date("T"), "");
    assert_eq!(short_date("aTbTc"), "a");
    assert_eq!(short_date("\u{434}\u{430}\u{442}\u{430}T12"), "\u{434}\u{430}\u{442}\u{430}");
    for text in ["2024-01-26T00:00:00Z", "no time", "T", "", "xT", "Tx", "a\u{e9}Tb"] {
        assert_eq!(short_date(text), text.split_once('T').map_or(text, |(day, _)| day));
    }
}
