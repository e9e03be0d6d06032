pub mod date_costs;
pub mod ledger;
pub mod supplies;
