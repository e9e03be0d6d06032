use crate::number::Number;
use vstd::prelude::*;

verus! {

/// One supply as the remote list shows it. The engine reads `preorder_id` alone
/// and carries the rest to whoever is told of a change.
#[derive(Debug)]
pub struct Supply {
    pub acceptance_cost: Number,
    pub acceptance_liter_base: Number,
    pub acceptance_liter_value: Number,
    pub actual_warehouse_address: Option<String>,
    pub actual_warehouse_id: Option<i64>,
    pub actual_warehouse_map_id: Option<i64>,
    pub actual_warehouse_name: String,
    pub box_type_id: i64,
    pub box_type_name: String,
    pub can_show_quantity: bool,
    pub change_date: String,
    pub create_date: String,
    pub details_quantity: i64,
    pub fact_date: Option<String>,
    pub feedback_allowed: bool,
    pub feedback_arrangement_allowed: bool,
    pub feedback_dispatchment_allowed: bool,
    pub has_boxes: bool,
    pub has_pass: bool,
    pub has_unload_problems: bool,
    pub income_quantity: i64,
    pub is_split_feedback_for_warehouse: bool,
    pub is_wrong_date: bool,
    pub monopallet_acceptance_cost: Number,
    pub monopallet_quantity: Option<i64>,
    pub old_acceptance_cost: Option<Number>,
    pub old_feedback_allowed: bool,
    pub old_paid_acceptance_coefficient: Option<Number>,
    pub paid_acceptance_coefficient: Option<Number>,
    pub pass_monopallet_quantity: Option<i64>,
    pub preorder_id: Option<i64>,
    pub reject_reason: Option<String>,
    pub status_id: i64,
    pub status_name: String,
    pub supplier_assign_name: Option<String>,
    pub supplier_assign_uuid: Option<String>,
    pub supplier_box_amount: Option<i64>,
    pub supply_date: Option<String>,
    pub supply_id: Option<i64>,
    pub tariff_pallet: Option<Number>,
    pub tariff_volume: Option<Number>,
    pub transit_cost: Option<Number>,
    pub transit_warehouse_address: Option<String>,
    pub transit_warehouse_id: Option<i64>,
    pub transit_warehouse_map_id: Option<i64>,
    pub transit_warehouse_name: Option<String>,
    pub user_uid: String,
    pub virtual_type: Option<String>,
    pub volume: Option<Number>,
    pub warehouse_address: String,
    pub warehouse_id: i64,
    pub warehouse_map_id: i64,
    pub warehouse_name: String,
}

fn clone_text(o: &Option<String>) -> (r: Option<String>)
    ensures
        r == *o,
{
    match o {
        Some(s) => Some(s.clone()),
        None => None,
    }
}

impl Supply {
    /// Every number is zero, every flag is off, every text is empty and every
    /// optional field is absent.
    pub open spec fn is_blank(self) -> bool {
        &&& self.acceptance_cost.bits == 0
        &&& self.acceptance_liter_base.bits == 0
        &&& self.acceptance_liter_value.bits == 0
        &&& self.actual_warehouse_address is None
        &&& self.actual_warehouse_id is None
        &&& self.actual_warehouse_map_id is None
        &&& self.actual_warehouse_name@.len() == 0
        &&& self.box_type_id == 0
        &&& self.box_type_name@.len() == 0
        &&& !self.can_show_quantity
        &&& self.change_date@.len() == 0
        &&& self.create_date@.len() == 0
        &&& self.details_quantity == 0
        &&& self.fact_date is None
        &&& !self.feedback_allowed
        &&& !self.feedback_arrangement_allowed
        &&& !self.feedback_dispatchment_allowed
        &&& !self.has_boxes
        &&& !self.has_pass
        &&& !self.has_unload_problems
        &&& self.income_quantity == 0
        &&& !self.is_split_feedback_for_warehouse
        &&& !self.is_wrong_date
        &&& self.monopallet_acceptance_cost.bits == 0
        &&& self.monopallet_quantity is None
        &&& self.old_acceptance_cost is None
        &&& !self.old_feedback_allowed
        &&& self.old_paid_acceptance_coefficient is None
        &&& self.paid_acceptance_coefficient is None
        &&& self.pass_monopallet_quantity is None
        &&& self.preorder_id is None
        &&& self.reject_reason is None
        &&& self.status_id == 0
        &&& self.status_name@.len() == 0
        &&& self.supplier_assign_name is None
        &&& self.supplier_assign_uuid is None
        &&& self.supplier_box_amount is None
        &&& self.supply_date is None
        &&& self.supply_id is None
        &&& self.tariff_pallet is None
        &&& self.tariff_volume is None
        &&& self.transit_cost is None
        &&& self.transit_warehouse_address is None
        &&& self.transit_warehouse_id is None
        &&& self.transit_warehouse_map_id is None
        &&& self.transit_warehouse_name is None
        &&& self.user_uid@.len() == 0
        &&& self.virtual_type is None
        &&& self.volume is None
        &&& self.warehouse_address@.len() == 0
        &&& self.warehouse_id == 0
        &&& self.warehouse_map_id == 0
        &&& self.warehouse_name@.len() == 0
    }
}

impl Clone for Supply {
    fn clone(&self) -> (r: Self)
        ensures
            r == *self,
    {
        Supply {
            acceptance_cost: self.acceptance_cost,
            acceptance_liter_base: self.acceptance_liter_base,
            acceptance_liter_value: self.acceptance_liter_value,
            actual_warehouse_address: clone_text(&self.actual_warehouse_address),
            actual_warehouse_id: self.actual_warehouse_id,
            actual_warehouse_map_id: self.actual_warehouse_map_id,
            actual_warehouse_name: self.actual_warehouse_name.clone(),
            box_type_id: self.box_type_id,
            box_type_name: self.box_type_name.clone(),
            can_show_quantity: self.can_show_quantity,
            change_date: self.change_date.clone(),
            create_date: self.create_date.clone(),
            details_quantity: self.details_quantity,
            fact_date: clone_text(&self.fact_date),
            feedback_allowed: self.feedback_allowed,
            feedback_arrangement_allowed: self.feedback_arrangement_allowed,
            feedback_dispatchment_allowed: self.feedback_dispatchment_allowed,
            has_boxes: self.has_boxes,
            has_pass: self.has_pass,
            has_unload_problems: self.has_unload_problems,
            income_quantity: self.income_quantity,
            is_split_feedback_for_warehouse: self.is_split_feedback_for_warehouse,
            is_wrong_date: self.is_wrong_date,
            monopallet_acceptance_cost: self.monopallet_acceptance_cost,
            monopallet_quantity: self.monopallet_quantity,
            old_acceptance_cost: self.old_acceptance_cost,
            old_feedback_allowed: self.old_feedback_allowed,
            old_paid_acceptance_coefficient: self.old_paid_acceptance_coefficient,
            paid_acceptance_coefficient: self.paid_acceptance_coefficient,
            pass_monopallet_quantity: self.pass_monopallet_quantity,
            preorder_id: self.preorder_id,
            reject_reason: clone_text(&self.reject_reason),
            status_id: self.status_id,
            status_name: self.status_name.clone(),
            supplier_assign_name: clone_text(&self.supplier_assign_name),
            supplier_assign_uuid: clone_text(&self.supplier_assign_uuid),
            supplier_box_amount: self.supplier_box_amount,
            supply_date: clone_text(&self.supply_date),
            supply_id: self.supply_id,
            tariff_pallet: self.tariff_pallet,
            tariff_volume: self.tariff_volume,
            transit_cost: self.transit_cost,
            transit_warehouse_address: clone_text(&self.transit_warehouse_address),
            transit_warehouse_id: self.transit_warehouse_id,
            transit_warehouse_map_id: self.transit_warehouse_map_id,
            transit_warehouse_name: clone_text(&self.transit_warehouse_name),
            user_uid: self.user_uid.clone(),
            virtual_type: clone_text(&self.virtual_type),
            volume: self.volume,
            warehouse_address: self.warehouse_address.clone(),
            warehouse_id: self.warehouse_id,
            warehouse_map_id: self.warehouse_map_id,
            warehouse_name: self.warehouse_name.clone(),
        }
    }
}

impl Default for Supply {
    fn default() -> (r: Self)
        ensures
            r.is_blank(),
    {
        Supply {
            acceptance_cost: Number::zero(),
            acceptance_liter_base: Number::zero(),
            acceptance_liter_value: Number::zero(),
            actual_warehouse_address: None,
            actual_warehouse_id: None,
            actual_warehouse_map_id: None,
            actual_warehouse_name: String::new(),
            box_type_id: 0,
            box_type_name: String::new(),
            can_show_quantity: false,
            change_date: String::new(),
            create_date: String::new(),
            details_quantity: 0,
            fact_date: None,
            feedback_allowed: false,
            feedback_arrangement_allowed: false,
            feedback_dispatchment_allowed: false,
            has_boxes: false,
            has_pass: false,
            has_unload_problems: false,
            income_quantity: 0,
            is_split_feedback_for_warehouse: false,
            is_wrong_date: false,
            monopallet_acceptance_cost: Number::zero(),
            monopallet_quantity: None,
            old_acceptance_cost: None,
            old_feedback_allowed: false,
            old_paid_acceptance_coefficient: None,
            paid_acceptance_coefficient: None,
            pass_monopallet_quantity: None,
            preorder_id: None,
            reject_reason: None,
            status_id: 0,
            status_name: String::new(),
            supplier_assign_name: None,
            supplier_assign_uuid: None,
            supplier_box_amount: None,
            supply_date: None,
            supply_id: None,
            tariff_pallet: None,
            tariff_volume: None,
            transit_cost: None,
            transit_warehouse_address: None,
            transit_warehouse_id: None,
            transit_warehouse_map_id: None,
            transit_warehouse_name: None,
            user_uid: String::new(),
            virtual_type: None,
            volume: None,
            warehouse_address: String::new(),
            warehouse_id: 0,
            warehouse_map_id: 0,
            warehouse_name: String::new(),
        }
    }
}

/// The supplies of one page of the remote list.
#[derive(Debug)]
pub struct ListSuppliesResult {
    pub data: Vec<Supply>,
}

impl Clone for ListSuppliesResult {
    fn clone(&self) -> (r: Self)
        ensures
            r.data@ == self.data@,
    {
        ListSuppliesResult { data: clone_supplies(&self.data) }
    }
}

impl Default for ListSuppliesResult {
    fn default() -> (r: Self)
        ensures
            r.data@.len() == 0,
    {
        ListSuppliesResult { data: Vec::new() }
    }
}

/// The answer to a list request.
#[derive(Debug)]
pub struct ListSuppliesResponse {
    pub result: ListSuppliesResult,
}

impl Clone for ListSuppliesResponse {
    fn clone(&self) -> (r: Self)
        ensures
            r.result.data@ == self.result.data@,
    {
        ListSuppliesResponse { result: self.result.clone() }
    }
}

impl Default for ListSuppliesResponse {
    fn default() -> (r: Self)
        ensures
            r.result.data@.len() == 0,
    {
        ListSuppliesResponse { result: ListSuppliesResult::default() }
    }
}

/// A copy of a list of supplies, record for record.
pub fn clone_supplies(supplies: &Vec<Supply>) -> (r: Vec<Supply>)
    ensures
        r@ == supplies@,
{
    let mut out: Vec<Supply> = Vec::new();
    let mut i: usize = 0;
    while i < supplies.len()
        invariant
            i <= supplies.len(),
            out@ == supplies@.take(i as int),
        decreases supplies.len() - i,
    {
        out.push(supplies[i].clone());
        assert(supplies@.take(i + 1) == supplies@.take(i as int).push(supplies@[i as int]));
        i += 1;
    }
    assert(supplies@.take(supplies.len() as int) == supplies@);
    out
}

} // verus!
