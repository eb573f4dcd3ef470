use toolport::clock::{Date, Moment, TimeOfDay, Timestamp};
use toolport::delegations::handlers::{list as list_delegations, passes as delegation_passes};
use toolport::delegations::models::{
    ConditionGrade, CreateDelegationRequest, Delegation, DelegationFilters, DelegationStatus,
};
use toolport::students::handlers::{list as list_students, passes as student_passes};
use toolport::students::models::{AccountStatus, Student, StudentFilters};
use toolport::tools::handlers::{list as list_tools, passes as tool_passes};
use toolport::tools::models::{Tool, ToolCategory, ToolFilters, ToolStatus};

fn stamp() -> Timestamp {
    Timestamp { seconds: 1_700_000_000, nanos: 0 }
}

fn tool(id: i32, name: &str, category: ToolCategory, description: Option<&str>) -> Tool {
    Tool {
        id,
        name: name.to_string(),
        category,
        subcategory: None,
        quantity: 5,
        issued_qty: 0,
        unit: "pcs".to_string(),
        lab_id: None,
        lab_name: None,
        description: description.map(|d| d.to_string()),
        is_consumable: false,
        consumable_type: None,
        low_stock_threshold: 1,
        status: ToolStatus::Available,
        date_added: Date { days: 738_000 },
        created_at: stamp(),
        updated_at: stamp(),
    }
}

fn tool_filters(category: Option<&str>, search: Option<&str>) -> ToolFilters {
    ToolFilters {
        category: category.map(|c| c.to_string()),
        subcategory: None,
        lab: None,
        status: None,
        search: search.map(|c| c.to_string()),
        sort: None,
        order: None,
    }
}

fn tools() -> Vec<Tool> {
    vec![
        tool(1, "Claw Hammer", ToolCategory::HandTool, Some("16 oz steel")),
        tool(2, "Multimeter", ToolCategory::ElectricalTool, None),
        tool(3, "Resistor kit", ToolCategory::ElectronicComponent, Some("For the HAMMER drill")),
        tool(4, "Servo", ToolCategory::Mechatronics, Some("")),
        tool(5, "Hand drill", ToolCategory::HandTool, None),
    ]
}

#[test]
fn tools_are_listed_whole_without_filters() {
    assert_eq!(list_tools(&tools(), &tool_filters(None, None)), vec![0, 1, 2, 3, 4]);
    assert_eq!(list_tools(&Vec::new(), &tool_filters(None, None)), Vec::<usize>::new());
}

#[test]
fn tools_are_narrowed_by_category_name() {
    assert_eq!(list_tools(&tools(), &tool_filters(Some("handtool"), None)), vec![0, 4]);
    assert_eq!(list_tools(&tools(), &tool_filters(Some("TOOL"), None)), vec![0, 1, 4]);
    assert_eq!(list_tools(&tools(), &tool_filters(Some("Electr"), None)), vec![1, 2]);
    assert_eq!(list_tools(&tools(), &tool_filters(Some("hand tool"), None)), Vec::<usize>::new());
    assert_eq!(list_tools(&tools(), &tool_filters(Some(""), None)), vec![0, 1, 2, 3, 4]);
}

#[test]
fn tools_are_narrowed_by_search_in_name_or_description() {
    assert_eq!(list_tools(&tools(), &tool_filters(None, Some("hammer"))), vec![0, 2]);
    assert_eq!(list_tools(&tools(), &tool_filters(None, Some("DRILL"))), vec![2, 4]);
    assert_eq!(list_tools(&tools(), &tool_filters(None, Some("steel"))), vec![0]);
    assert_eq!(list_tools(&tools(), &tool_filters(None, Some("lathe"))), Vec::<usize>::new());
    assert_eq!(list_tools(&tools(), &tool_filters(Some("hand"), Some("drill"))), vec![4]);
    let all = tools();
    assert!(tool_passes(&tool_filters(None, Some("")), &all[1]));
    assert!(!tool_passes(&tool_filters(None, Some("x")), &all[3]));
}

fn student(student_id: &str, name: &str, status: AccountStatus, lost: i32) -> Student {
    Student {
        student_id: student_id.to_string(),
        name: name.to_string(),
        class_name: None,
        department: "Mechatronics".to_string(),
        email: "s@example.com".to_string(),
        account_status: status,
        lost_tool_count: lost,
        units: None,
        created_at: stamp(),
    }
}

fn students() -> Vec<Student> {
    vec![
        student("DIM/0001/25", "Amina Otieno", AccountStatus::Active, 0),
        student("DIM/0002/25", "Brian Mwangi", AccountStatus::Banned, 6),
        student("DEE/0003/24", "Dimitri Amani", AccountStatus::Active, 1),
    ]
}

fn student_filters(status: Option<&str>, search: Option<&str>) -> StudentFilters {
    StudentFilters { status: status.map(|s| s.to_string()), search: search.map(|s| s.to_string()) }
}

#[test]
fn students_are_narrowed_by_status_and_search() {
    assert_eq!(list_students(&students(), &student_filters(None, None)), vec![0, 1, 2]);
    assert_eq!(list_students(&students(), &student_filters(Some("banned"), None)), vec![1]);
    assert_eq!(list_students(&students(), &student_filters(Some("ACTIVE"), None)), vec![0, 2]);
    assert_eq!(list_students(&students(), &student_filters(Some("act"), None)), Vec::<usize>::new());
    assert_eq!(list_students(&students(), &student_filters(None, Some("dim"))), vec![0, 1, 2]);
    assert_eq!(list_students(&students(), &student_filters(None, Some("dim/"))), vec![0, 1]);
    assert_eq!(list_students(&students(), &student_filters(None, Some("AMINA"))), vec![0]);
    assert_eq!(list_students(&students(), &student_filters(Some("Active"), Some("am"))), vec![0, 2]);
    let all = students();
    assert!(student_passes(&student_filters(Some("Banned"), Some("mwangi")), &all[1]));
    assert!(!student_passes(&student_filters(Some("Banned"), Some("mwangi")), &all[0]));
}

fn delegation(
    id: i32,
    student_id: &str,
    student_name: &str,
    tool_name: &str,
    lecturer_id: i32,
    status: DelegationStatus,
    inter: bool,
) -> Delegation {
    let request = CreateDelegationRequest {
        tool_id: 1,
        quantity: 1,
        lecturer_id,
        student_id: student_id.to_string(),
        expected_return: Date { days: 738_010 },
        expected_return_time: None,
        condition_before: ConditionGrade::Good,
        is_inter_departmental: Some(inter),
        guest_department: None,
        guest_lab_project: None,
    };
    let now = Moment { date: Date { days: 738_000 }, time: TimeOfDay { seconds: 0, nanos: 0 } };
    let mut record = request.open(id, now);
    record.status = status;
    Delegation {
        record,
        tool_name: tool_name.to_string(),
        lecturer_name: "Dr. Achieng".to_string(),
        student_name: student_name.to_string(),
        class_name: None,
        created_at: stamp(),
    }
}

fn delegations() -> Vec<Delegation> {
    vec![
        delegation(1, "DIM/0001/25", "Amina Otieno", "Claw Hammer", 7, DelegationStatus::Issued, false),
        delegation(2, "DIM/0002/25", "Brian Mwangi", "Multimeter", 8, DelegationStatus::Lost, true),
        delegation(3, "DEE/0003/24", "Dimitri Amani", "Hand drill", 7, DelegationStatus::Overdue, false),
        delegation(4, "DIM/0001/25", "Amina Otieno", "Servo", 8, DelegationStatus::Returned, true),
    ]
}

fn filters() -> DelegationFilters {
    DelegationFilters { status: None, student_id: None, lecturer_id: None, search: None, inter_dept: None }
}

#[test]
fn delegations_are_narrowed_by_each_filter() {
    assert_eq!(list_delegations(&delegations(), &filters()), vec![0, 1, 2, 3]);

    let mut by_status = filters();
    by_status.status = Some("lost".to_string());
    assert_eq!(list_delegations(&delegations(), &by_status), vec![1]);

    let mut by_student = filters();
    by_student.student_id = Some("dim/0001/25".to_string());
    assert_eq!(list_delegations(&delegations(), &by_student), vec![0, 3]);
    by_student.student_id = Some("dim/0001".to_string());
    assert_eq!(list_delegations(&delegations(), &by_student), Vec::<usize>::new());

    let mut by_lecturer = filters();
    by_lecturer.lecturer_id = Some(7);
    assert_eq!(list_delegations(&delegations(), &by_lecturer), vec![0, 2]);

    let mut by_search = filters();
    by_search.search = Some("AMINA".to_string());
    assert_eq!(list_delegations(&delegations(), &by_search), vec![0, 3]);
    by_search.search = Some("drill".to_string());
    assert_eq!(list_delegations(&delegations(), &by_search), vec![2]);
    by_search.search = Some("dee/".to_string());
    assert_eq!(list_delegations(&delegations(), &by_search), vec![2]);

    let mut by_guest = filters();
    by_guest.inter_dept = Some("true".to_string());
    assert_eq!(list_delegations(&delegations(), &by_guest), vec![1, 3]);
    by_guest.inter_dept = Some("True".to_string());
    assert_eq!(list_delegations(&delegations(), &by_guest), vec![0, 1, 2, 3]);
    by_guest.inter_dept = Some("false".to_string());
    assert_eq!(list_delegations(&delegations(), &by_guest), vec![0, 1, 2, 3]);

    let mut together = filters();
    together.lecturer_id = Some(8);
    together.inter_dept = Some("true".to_string());
    together.status = Some("RETURNED".to_string());
    assert_eq!(list_delegations(&delegations(), &together), vec![3]);
    let all = delegations();
    assert!(delegation_passes(&together, &all[3]));
    assert!(!delegation_passes(&together, &all[1]));
}
