use toolport::errors::AppError;
use toolport::labs::handlers::create as create_lab;
use toolport::labs::models::CreateLabRequest;
use toolport::lecturers::handlers::create as create_lecturer;
use toolport::lecturers::models::CreateLecturerRequest;
use toolport::students::handlers::create as create_student;
use toolport::students::models::CreateStudentRequest;
use toolport::tools::handlers::{create as create_tool, update as update_tool};
use toolport::tools::models::{CreateToolRequest, ToolCategory, ToolStatus, UpdateToolRequest};

fn invalid(message: &str) -> AppError {
    AppError::Validation(message.to_string())
}

fn tool_request(name: &str, quantity: i32) -> CreateToolRequest {
    CreateToolRequest {
        name: name.to_string(),
        category: ToolCategory::HandTool,
        subcategory: None,
        quantity,
        unit: None,
        lab_id: None,
        description: None,
        is_consumable: None,
        consumable_type: None,
        low_stock_threshold: None,
    }
}

fn no_change() -> UpdateToolRequest {
    UpdateToolRequest {
        name: None,
        category: None,
        subcategory: None,
        quantity: None,
        unit: None,
        lab_id: None,
        description: None,
        is_consumable: None,
        consumable_type: None,
        low_stock_threshold: None,
    }
}

#[test]
fn tool_creation_fills_in_what_is_left_out() {
    let row = create_tool(&tool_request("  Torque wrench \n", 12)).unwrap();
    assert_eq!(row.name, "Torque wrench");
    assert_eq!(row.category, ToolCategory::HandTool);
    assert_eq!(row.quantity, 12);
    assert_eq!(row.unit, "pcs");
    assert!(!row.is_consumable);
    assert_eq!(row.low_stock_threshold, 5);
    assert_eq!(row.status, ToolStatus::Available);
    assert_eq!(row.subcategory, None);
    assert_eq!(row.lab_id, None);
}

#[test]
fn tool_creation_keeps_what_is_given() {
    let mut body = tool_request("Solder", 3);
    body.category = ToolCategory::Consumable;
    body.subcategory = Some("Lead-free".to_string());
    body.unit = Some("reels".to_string());
    body.lab_id = Some(4);
    body.description = Some("0.8 mm".to_string());
    body.is_consumable = Some(true);
    body.consumable_type = Some("wire".to_string());
    body.low_stock_threshold = Some(3);
    let row = create_tool(&body).unwrap();
    assert_eq!(row.name, "Solder");
    assert_eq!(row.category, ToolCategory::Consumable);
    assert_eq!(row.subcategory.as_deref(), Some("Lead-free"));
    assert_eq!(row.unit, "reels");
    assert_eq!(row.lab_id, Some(4));
    assert_eq!(row.description.as_deref(), Some("0.8 mm"));
    assert!(row.is_consumable);
    assert_eq!(row.consumable_type.as_deref(), Some("wire"));
    assert_eq!(row.low_stock_threshold, 3);
    assert_eq!(row.status, ToolStatus::LowStock);
}

#[test]
fn tool_creation_starts_an_empty_stock_out_of_stock() {
    assert_eq!(create_tool(&tool_request("Vise", 0)).unwrap().status, ToolStatus::OutOfStock);
    assert_eq!(create_tool(&tool_request("Vise", 5)).unwrap().status, ToolStatus::LowStock);
    assert_eq!(create_tool(&tool_request("Vise", 6)).unwrap().status, ToolStatus::Available);
}

#[test]
fn tool_creation_refuses_a_blank_name_and_a_negative_quantity() {
    assert_eq!(create_tool(&tool_request("", 1)).unwrap_err(), invalid("Tool name required"));
    assert_eq!(create_tool(&tool_request(" \t ", 1)).unwrap_err(), invalid("Tool name required"));
    assert_eq!(create_tool(&tool_request("   ", -1)).unwrap_err(), invalid("Tool name required"));
    assert_eq!(
        create_tool(&tool_request("Vise", -1)).unwrap_err(),
        invalid("Quantity cannot be negative")
    );
}

#[test]
fn tool_update_derives_the_status_from_the_new_values() {
    assert_eq!(update_tool(&no_change(), 10, 4, 2), ToolStatus::PartiallyIssued);
    let mut fewer = no_change();
    fewer.quantity = Some(5);
    assert_eq!(update_tool(&fewer, 10, 4, 2), ToolStatus::LowStock);
    let mut lower = no_change();
    lower.quantity = Some(3);
    assert_eq!(update_tool(&lower, 10, 4, 2), ToolStatus::OutOfStock);
    let mut careful = no_change();
    careful.low_stock_threshold = Some(6);
    assert_eq!(update_tool(&careful, 10, 4, 2), ToolStatus::LowStock);
    let mut both = no_change();
    both.quantity = Some(20);
    both.low_stock_threshold = Some(0);
    assert_eq!(update_tool(&both, 10, 0, 2), ToolStatus::Available);
}

#[test]
fn student_creation_tidies_the_fields() {
    let body = CreateStudentRequest {
        student_id: "  dim/0245/25 ".to_string(),
        name: " Newton Kamau ".to_string(),
        class_name: Some("DIM 2".to_string()),
        department: " Mechatronics ".to_string(),
        email: "  Newton@Example.COM ".to_string(),
        units: Some(vec!["Robotics".to_string(), "Control".to_string()]),
    };
    let row = create_student(&body).unwrap();
    assert_eq!(row.student_id, "DIM/0245/25");
    assert_eq!(row.name, "Newton Kamau");
    assert_eq!(row.class_name.as_deref(), Some("DIM 2"));
    assert_eq!(row.department, "Mechatronics");
    assert_eq!(row.email, "newton@example.com");
    assert_eq!(row.units, Some(vec!["Robotics".to_string(), "Control".to_string()]));
}

#[test]
fn student_creation_refuses_malformed_requests_in_order() {
    let body = |student_id: &str, name: &str, email: &str| CreateStudentRequest {
        student_id: student_id.to_string(),
        name: name.to_string(),
        class_name: None,
        department: "Mechatronics".to_string(),
        email: email.to_string(),
        units: None,
    };
    assert_eq!(create_student(&body("  ", "", "x")).unwrap_err(), invalid("student_id required"));
    assert_eq!(create_student(&body("S1", " ", "x")).unwrap_err(), invalid("name required"));
    assert_eq!(create_student(&body("S1", "Ann", "ann.example.com")).unwrap_err(), invalid("Invalid email"));
    let row = create_student(&body("s1", "Ann", "@")).unwrap();
    assert_eq!(row.student_id, "S1");
    assert_eq!(row.email, "@");
    assert_eq!(row.units, None);
}

#[test]
fn lab_creation_trims_and_checks() {
    let body = CreateLabRequest {
        name: "  Robotics Lab ".to_string(),
        location: Some(" Block C ".to_string()),
        department: " Mechatronics".to_string(),
        description: None,
    };
    let row = create_lab(&body).unwrap();
    assert_eq!(row.name, "Robotics Lab");
    assert_eq!(row.location.as_deref(), Some(" Block C "));
    assert_eq!(row.department, "Mechatronics");
    assert_eq!(row.description, None);

    let blank_name = CreateLabRequest {
        name: " ".to_string(),
        location: None,
        department: "".to_string(),
        description: None,
    };
    assert_eq!(create_lab(&blank_name).unwrap_err(), invalid("Lab name is required"));
    let blank_department = CreateLabRequest {
        name: "Lab".to_string(),
        location: None,
        department: "  ".to_string(),
        description: None,
    };
    assert_eq!(create_lab(&blank_department).unwrap_err(), invalid("Department is required"));
}

#[test]
fn lecturer_creation_tidies_and_checks() {
    let body = CreateLecturerRequest {
        name: " Dr. Achieng ".to_string(),
        department: " Electrical ".to_string(),
        email: " Achieng@Uni.AC.KE ".to_string(),
    };
    let row = create_lecturer(&body).unwrap();
    assert_eq!(row.name, "Dr. Achieng");
    assert_eq!(row.department, "Electrical");
    assert_eq!(row.email, "achieng@uni.ac.ke");

    let blank = CreateLecturerRequest {
        name: "   ".to_string(),
        department: "Electrical".to_string(),
        email: "nobody".to_string(),
    };
    assert_eq!(create_lecturer(&blank).unwrap_err(), invalid("Name required"));
    let no_at = CreateLecturerRequest {
        name: "Dr. Achieng".to_string(),
        department: "Electrical".to_string(),
        email: "achieng.uni.ac.ke".to_string(),
    };
    assert_eq!(create_lecturer(&no_at).unwrap_err(), invalid("Invalid email"));
}
