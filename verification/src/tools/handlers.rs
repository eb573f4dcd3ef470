//! The status oracle, and what the tool operations decide before and after
//! storage is asked.

use vstd::prelude::*;
use crate::delegations::models::{copy_text, text_of};
use crate::errors::AppError;
use crate::select::{is_selection, selection_grows};
use crate::text::{contains, to_lowercase, trim, trimmed};
use crate::tools::models::{
    CreateToolRequest,
    NewTool,
    Tool,
    ToolFilters,
    ToolStatus,
    UpdateToolRequest,
    tools_kept,
};

verus! {

/// The status that follows from a tool's counters.
///
/// With `available = quantity - issued_qty`: nothing available is out of
/// stock; up to `threshold` available is low stock; more than that with some
/// units out is partially issued; otherwise the tool is available.
pub open spec fn derive_status(quantity: int, issued_qty: int, threshold: int) -> ToolStatus {
    let available = quantity - issued_qty;
    if available <= 0 {
        ToolStatus::OutOfStock
    } else if available <= threshold {
        ToolStatus::LowStock
    } else if issued_qty > 0 {
        ToolStatus::PartiallyIssued
    } else {
        ToolStatus::Available
    }
}

/// Derives a tool's status from its counters.
pub fn status_of(quantity: i32, issued_qty: i32, threshold: i32) -> (status: ToolStatus)
    ensures
        status == derive_status(quantity as int, issued_qty as int, threshold as int),
{
    let available: i64 = quantity as i64 - issued_qty as i64;
    if available <= 0 {
        ToolStatus::OutOfStock
    } else if available <= threshold as i64 {
        ToolStatus::LowStock
    } else if issued_qty > 0 {
        ToolStatus::PartiallyIssued
    } else {
        ToolStatus::Available
    }
}

/// Derives a tool's status from its counters, as the text under which it is
/// stored.
pub fn compute_status(quantity: i32, issued_qty: i32, threshold: i32) -> (label: &'static str)
    ensures
        label@ == derive_status(quantity as int, issued_qty as int, threshold as int).label(),
{
    status_of(quantity, issued_qty, threshold).as_str()
}

/// Checks a creation request and fills in what it leaves out: a tool is
/// not consumable unless the request says so, is counted in pieces, has a
/// threshold of five, and starts with no units out.
pub fn create(body: &CreateToolRequest) -> (outcome: Result<NewTool, AppError>)
    ensures
        body.defect() is Some ==> (outcome matches Err(AppError::Validation(m)) && Some(m@)
            == body.defect()),
        body.defect() is None ==> (outcome matches Ok(row) && {
            &&& row.name@ == trimmed(body.name@)
            &&& row.category == body.category
            &&& text_of(row.subcategory) == text_of(body.subcategory)
            &&& row.quantity == body.quantity
            &&& row.unit@ == body.unit_text()
            &&& row.lab_id == body.lab_id
            &&& text_of(row.description) == text_of(body.description)
            &&& row.is_consumable == (body.is_consumable == Some(true))
            &&& text_of(row.consumable_type) == text_of(body.consumable_type)
            &&& row.low_stock_threshold == body.threshold()
            &&& row.status == derive_status(body.quantity as int, 0, body.threshold())
        }),
{
    let name = trim(body.name.as_str());
    if name.is_empty() {
        return Err(AppError::Validation("Tool name required".to_owned()));
    }
    if body.quantity < 0 {
        return Err(AppError::Validation("Quantity cannot be negative".to_owned()));
    }
    let is_consumable: bool = match body.is_consumable {
        Some(flag) => flag,
        None => false,
    };
    let unit: String = match &body.unit {
        Some(unit) => unit.clone(),
        None => "pcs".to_owned(),
    };
    let threshold: i32 = match body.low_stock_threshold {
        Some(threshold) => threshold,
        None => 5,
    };
    Ok(
        NewTool {
            name: name.to_owned(),
            category: body.category,
            subcategory: copy_text(&body.subcategory),
            quantity: body.quantity,
            unit,
            lab_id: body.lab_id,
            description: copy_text(&body.description),
            is_consumable,
            consumable_type: copy_text(&body.consumable_type),
            low_stock_threshold: threshold,
            status: status_of(body.quantity, 0, threshold),
        },
    )
}

/// The status a tool has after a change: the one that follows from the
/// quantity and the threshold after the change and the units out now.
pub fn update(
    body: &UpdateToolRequest,
    quantity: i32,
    issued_qty: i32,
    threshold: i32,
) -> (status: ToolStatus)
    ensures
        status == derive_status(
            body.quantity_over(quantity as int),
            issued_qty as int,
            body.threshold_over(threshold as int),
        ),
{
    let new_quantity: i32 = match body.quantity {
        Some(q) => q,
        None => quantity,
    };
    let new_threshold: i32 = match body.low_stock_threshold {
        Some(t) => t,
        None => threshold,
    };
    status_of(new_quantity, issued_qty, new_threshold)
}

/// Whether a tool passes the filters.
pub fn passes(filters: &ToolFilters, tool: &Tool) -> (kept: bool)
    ensures
        kept == filters.accepts(tool),
{
    match &filters.category {
        Some(wanted) => {
            let name = to_lowercase(tool.category.name());
            let wanted = to_lowercase(wanted.as_str());
            if !contains(name.as_str(), wanted.as_str()) {
                return false;
            }
        },
        None => {},
    }
    match &filters.search {
        Some(wanted) => {
            let wanted = to_lowercase(wanted.as_str());
            let name = to_lowercase(tool.name.as_str());
            let description = match &tool.description {
                Some(text) => to_lowercase(text.as_str()),
                None => {
                    proof {
                        reveal_strlit("");
                        assert(""@ =~= Seq::<char>::empty());
                    }
                    to_lowercase("")
                },
            };
            if !contains(name.as_str(), wanted.as_str()) && !contains(
                description.as_str(),
                wanted.as_str(),
            ) {
                return false;
            }
        },
        None => {},
    }
    true
}

/// The positions of the tools that pass the filters, in rising order.
pub fn list(tools: &Vec<Tool>, filters: &ToolFilters) -> (picked: Vec<usize>)
    ensures
        is_selection(picked@, tools@.len(), tools_kept(tools@, *filters)),
{
    let mut picked: Vec<usize> = Vec::new();
    let total: usize = tools.len();
    let mut position: usize = 0;
    while position < total
        invariant
            total == tools@.len(),
            position <= total,
            is_selection(picked@, position as nat, tools_kept(tools@, *filters)),
        decreases total - position,
    {
        let ghost before = picked@;
        if passes(filters, &tools[position]) {
            picked.push(position);
        }
        proof {
            selection_grows(before, picked@, position as nat, tools_kept(tools@, *filters));
        }
        position = position + 1;
    }
    picked
}

} // verus!
