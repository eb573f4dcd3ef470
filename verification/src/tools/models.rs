//! Tool rows and the closed sets of values some of their columns take.

use vstd::prelude::*;
use crate::clock::{Date, Timestamp};
use crate::text::{lowercase, occurs_in, text_eq, trimmed};

verus! {

/// What kind of item a tool is.
#[derive(Debug, Clone, Copy, PartialEq, Eq, Structural)]
pub enum ToolCategory {
    HandTool,
    ElectricalTool,
    ElectronicComponent,
    Mechatronics,
    Consumable,
}

impl ToolCategory {
    /// The text under which the category is stored and sent.
    pub open spec fn label(self) -> Seq<char> {
        match self {
            ToolCategory::HandTool => "Hand Tool"@,
            ToolCategory::ElectricalTool => "Electrical Tool"@,
            ToolCategory::ElectronicComponent => "Electronic Component"@,
            ToolCategory::Mechatronics => "Mechatronics"@,
            ToolCategory::Consumable => "Consumable"@,
        }
    }

    /// The category a stored text stands for, if any.
    pub open spec fn of_label(text: Seq<char>) -> Option<ToolCategory> {
        if text == "Hand Tool"@ {
            Some(ToolCategory::HandTool)
        } else if text == "Electrical Tool"@ {
            Some(ToolCategory::ElectricalTool)
        } else if text == "Electronic Component"@ {
            Some(ToolCategory::ElectronicComponent)
        } else if text == "Mechatronics"@ {
            Some(ToolCategory::Mechatronics)
        } else if text == "Consumable"@ {
            Some(ToolCategory::Consumable)
        } else {
            None
        }
    }

    /// The variant's own name, as a debug print shows it.
    pub open spec fn variant_name(self) -> Seq<char> {
        match self {
            ToolCategory::HandTool => "HandTool"@,
            ToolCategory::ElectricalTool => "ElectricalTool"@,
            ToolCategory::ElectronicComponent => "ElectronicComponent"@,
            ToolCategory::Mechatronics => "Mechatronics"@,
            ToolCategory::Consumable => "Consumable"@,
        }
    }

    pub fn as_str(&self) -> (text: &'static str)
        ensures
            text@ == self.label(),
    {
        match self {
            ToolCategory::HandTool => "Hand Tool",
            ToolCategory::ElectricalTool => "Electrical Tool",
            ToolCategory::ElectronicComponent => "Electronic Component",
            ToolCategory::Mechatronics => "Mechatronics",
            ToolCategory::Consumable => "Consumable",
        }
    }

    pub fn from_label(text: &str) -> (category: Option<ToolCategory>)
        ensures
            category == ToolCategory::of_label(text@),
    {
        if text_eq(text, "Hand Tool") {
            Some(ToolCategory::HandTool)
        } else if text_eq(text, "Electrical Tool") {
            Some(ToolCategory::ElectricalTool)
        } else if text_eq(text, "Electronic Component") {
            Some(ToolCategory::ElectronicComponent)
        } else if text_eq(text, "Mechatronics") {
            Some(ToolCategory::Mechatronics)
        } else if text_eq(text, "Consumable") {
            Some(ToolCategory::Consumable)
        } else {
            None
        }
    }

    pub fn name(&self) -> (text: &'static str)
        ensures
            text@ == self.variant_name(),
    {
        match self {
            ToolCategory::HandTool => "HandTool",
            ToolCategory::ElectricalTool => "ElectricalTool",
            ToolCategory::ElectronicComponent => "ElectronicComponent",
            ToolCategory::Mechatronics => "Mechatronics",
            ToolCategory::Consumable => "Consumable",
        }
    }

    /// Every category is found again from its stored text.
    pub proof fn label_round_trip(category: ToolCategory)
        ensures
            ToolCategory::of_label(category.label()) == Some(category),
    {
        reveal_strlit("Hand Tool");
        reveal_strlit("Electrical Tool");
        reveal_strlit("Electronic Component");
        reveal_strlit("Mechatronics");
        reveal_strlit("Consumable");
        assert("Hand Tool"@.len() == 9);
        assert("Electrical Tool"@.len() == 15);
        assert("Electronic Component"@.len() == 20);
        assert("Mechatronics"@.len() == 12);
        assert("Consumable"@.len() == 10);
    }
}

/// What a tool's counters say about its stock.
#[derive(Debug, Clone, Copy, PartialEq, Eq, Structural)]
pub enum ToolStatus {
    Available,
    PartiallyIssued,
    LowStock,
    OutOfStock,
}

impl ToolStatus {
    /// The text under which the status is stored and sent.
    pub open spec fn label(self) -> Seq<char> {
        match self {
            ToolStatus::Available => "Available"@,
            ToolStatus::PartiallyIssued => "Partially Issued"@,
            ToolStatus::LowStock => "Low Stock"@,
            ToolStatus::OutOfStock => "Out of Stock"@,
        }
    }

    /// The status a stored text stands for, if any.
    pub open spec fn of_label(text: Seq<char>) -> Option<ToolStatus> {
        if text == "Available"@ {
            Some(ToolStatus::Available)
        } else if text == "Partially Issued"@ {
            Some(ToolStatus::PartiallyIssued)
        } else if text == "Low Stock"@ {
            Some(ToolStatus::LowStock)
        } else if text == "Out of Stock"@ {
            Some(ToolStatus::OutOfStock)
        } else {
            None
        }
    }

    pub fn as_str(&self) -> (text: &'static str)
        ensures
            text@ == self.label(),
    {
        match self {
            ToolStatus::Available => "Available",
            ToolStatus::PartiallyIssued => "Partially Issued",
            ToolStatus::LowStock => "Low Stock",
            ToolStatus::OutOfStock => "Out of Stock",
        }
    }

    pub fn from_label(text: &str) -> (status: Option<ToolStatus>)
        ensures
            status == ToolStatus::of_label(text@),
    {
        if text_eq(text, "Available") {
            Some(ToolStatus::Available)
        } else if text_eq(text, "Partially Issued") {
            Some(ToolStatus::PartiallyIssued)
        } else if text_eq(text, "Low Stock") {
            Some(ToolStatus::LowStock)
        } else if text_eq(text, "Out of Stock") {
            Some(ToolStatus::OutOfStock)
        } else {
            None
        }
    }

    /// Every status is found again from its stored text.
    pub proof fn label_round_trip(status: ToolStatus)
        ensures
            ToolStatus::of_label(status.label()) == Some(status),
    {
        reveal_strlit("Available");
        reveal_strlit("Partially Issued");
        reveal_strlit("Low Stock");
        reveal_strlit("Out of Stock");
        assert("Available"@.len() == 9);
        assert("Partially Issued"@.len() == 16);
        assert("Low Stock"@.len() == 9);
        assert("Out of Stock"@.len() == 12);
        assert("Available"@[0] == 'A');
        assert("Low Stock"@[0] == 'L');
    }
}

/// The characters of an optional text; none for a missing one.
pub open spec fn text_or_empty(text: Option<String>) -> Seq<char> {
    match text {
        Some(t) => t@,
        None => Seq::empty(),
    }
}

/// One tool, with the name of the lab that keeps it.
#[derive(Debug)]
pub struct Tool {
    pub id: i32,
    pub name: String,
    pub category: ToolCategory,
    pub subcategory: Option<String>,
    pub quantity: i32,
    pub issued_qty: i32,
    pub unit: String,
    pub lab_id: Option<i32>,
    pub lab_name: Option<String>,
    pub description: Option<String>,
    pub is_consumable: bool,
    pub consumable_type: Option<String>,
    pub low_stock_threshold: i32,
    pub status: ToolStatus,
    pub date_added: Date,
    pub created_at: Timestamp,
    pub updated_at: Timestamp,
}

/// What is asked when a tool is created.
#[derive(Debug)]
pub struct CreateToolRequest {
    pub name: String,
    pub category: ToolCategory,
    pub subcategory: Option<String>,
    pub quantity: i32,
    pub unit: Option<String>,
    pub lab_id: Option<i32>,
    pub description: Option<String>,
    pub is_consumable: Option<bool>,
    pub consumable_type: Option<String>,
    pub low_stock_threshold: Option<i32>,
}

impl CreateToolRequest {
    /// Why the request is malformed, if it is: the name is blank, or the
    /// quantity is negative.
    pub open spec fn defect(&self) -> Option<Seq<char>> {
        if trimmed(self.name@).len() == 0 {
            Some("Tool name required"@)
        } else if self.quantity < 0 {
            Some("Quantity cannot be negative"@)
        } else {
            None
        }
    }

    /// The threshold the new tool gets: the one asked for, or five.
    pub open spec fn threshold(&self) -> int {
        match self.low_stock_threshold {
            Some(t) => t as int,
            None => 5,
        }
    }

    /// The unit the new tool is counted in: the one asked for, or pieces.
    pub open spec fn unit_text(&self) -> Seq<char> {
        match self.unit {
            Some(u) => u@,
            None => "pcs"@,
        }
    }
}

/// The row that a well-formed creation request asks to be stored.
#[derive(Debug)]
pub struct NewTool {
    pub name: String,
    pub category: ToolCategory,
    pub subcategory: Option<String>,
    pub quantity: i32,
    pub unit: String,
    pub lab_id: Option<i32>,
    pub description: Option<String>,
    pub is_consumable: bool,
    pub consumable_type: Option<String>,
    pub low_stock_threshold: i32,
    pub status: ToolStatus,
}

/// What is asked when a tool is changed. A field left out keeps its value.
#[derive(Debug)]
pub struct UpdateToolRequest {
    pub name: Option<String>,
    pub category: Option<ToolCategory>,
    pub subcategory: Option<String>,
    pub quantity: Option<i32>,
    pub unit: Option<String>,
    pub lab_id: Option<i32>,
    pub description: Option<String>,
    pub is_consumable: Option<bool>,
    pub consumable_type: Option<String>,
    pub low_stock_threshold: Option<i32>,
}

impl UpdateToolRequest {
    /// The quantity after the change.
    pub open spec fn quantity_over(&self, current: int) -> int {
        match self.quantity {
            Some(q) => q as int,
            None => current,
        }
    }

    /// The threshold after the change.
    pub open spec fn threshold_over(&self, current: int) -> int {
        match self.low_stock_threshold {
            Some(t) => t as int,
            None => current,
        }
    }
}

/// What narrows a listing of tools. Only the category and the search text
/// narrow it; the other fields are carried and not read.
#[derive(Debug)]
pub struct ToolFilters {
    pub category: Option<String>,
    pub subcategory: Option<String>,
    pub lab: Option<String>,
    pub status: Option<String>,
    pub search: Option<String>,
    pub sort: Option<String>,
    pub order: Option<String>,
}

impl ToolFilters {
    /// Whether a tool passes: its category's name holds the category text,
    /// and its name or its description holds the search text, both without
    /// regard to case. A filter that is left out lets every tool pass.
    pub open spec fn accepts(&self, tool: &Tool) -> bool {
        &&& (self.category matches Some(wanted) ==> occurs_in(
            lowercase(wanted@),
            lowercase(tool.category.variant_name()),
        ))
        &&& (self.search matches Some(wanted) ==> (occurs_in(
            lowercase(wanted@),
            lowercase(tool.name@),
        ) || occurs_in(lowercase(wanted@), lowercase(text_or_empty(tool.description)))))
    }
}

/// Which of the tools pass the filters, position by position.
pub open spec fn tools_kept(tools: Seq<Tool>, filters: ToolFilters) -> Seq<bool> {
    Seq::new(tools.len(), |i: int| filters.accepts(&tools[i]))
}

} // verus!
