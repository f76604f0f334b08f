use staff_directory::export::directory_export;
use staff_directory::export::directory_export_on;
use staff_directory::export::make_safe;
use staff_directory::export::plan_export;
use staff_directory::export::record_export;
use staff_directory::export::record_export_on;
use staff_directory::export::select_staff;
use staff_directory::export::ExportRequest;
use staff_directory::export::Selection;
use staff_directory::document::bulk_staff_html_on;
use staff_directory::document::individual_staff_html_on;
use staff_directory::schema::Staff;

fn text(value: &str) -> String {
    value.to_string()
}

fn new_year() -> chrono::NaiveDateTime {
    chrono::NaiveDate::from_ymd_opt(2024, 1, 1).unwrap().and_hms_opt(0, 0, 0).unwrap()
}

fn perera() -> Staff {
    Staff {
        id: text("id-1"),
        appointment_number: text("DFO/VAV/2015/012"),
        full_name: text("K. M. Perera"),
        gender: text("Male"),
        date_of_birth: text("1985-04-12"),
        age: 39,
        nic_number: text("851030456V"),
        nic_number_old: None,
        marital_status: text("Married"),
        address_line1: Some(text(" No. 12, Station Road ")),
        address_line2: Some(text("   ")),
        address_line3: Some(text("Vavuniya")),
        contact_number: Some(text("0771234567")),
        email: None,
        designation: text("Forest Range Officer"),
        date_of_first_appointment: text("2015-06-01T00:00:00+05:30"),
        date_of_retirement: text("2045-04-12"),
        increment_date: None,
        salary_code: text("MN-5"),
        basic_salary: text("1234567.50"),
        increment_amount: text("950.00"),
        image_data: None,
        created_at: new_year(),
        updated_at: new_year(),
    }
}

fn thirunavukkarasu() -> Staff {
    Staff {
        id: text("id-2"),
        appointment_number: text("DFO/VAV/2019/0007-LONG"),
        full_name: text("Sivapragasam Thirunavukkarasu"),
        gender: text("Male"),
        date_of_birth: text("1993-08-30"),
        age: 31,
        nic_number: text("199312345678"),
        nic_number_old: Some(text("932431234V")),
        marital_status: text("Single"),
        address_line1: None,
        address_line2: None,
        address_line3: None,
        contact_number: None,
        email: Some(text("siva@example.org")),
        designation: text("Beat Forest Officer"),
        date_of_first_appointment: text("2019-02-11"),
        date_of_retirement: text("2053-08-30"),
        increment_date: Some(text("2025-02-11")),
        salary_code: text("PL-3"),
        basic_salary: text("45000.00"),
        increment_amount: text("410.00"),
        image_data: Some(text("QUJD")),
        created_at: new_year(),
        updated_at: new_year(),
    }
}

fn ids(items: &[&str]) -> Vec<String> {
    items.iter().map(|item| item.to_string()).collect()
}

#[test]
fn a_request_for_one_gets_the_record() {
    match plan_export(ids(&["id-1"]), false) {
        Ok(ExportRequest::Record(id)) => assert_eq!(id, "id-1"),
        other => panic!("{:?}", other),
    }
}

#[test]
fn a_request_for_many_gets_the_list() {
    match plan_export(ids(&["id-1", "id-2"]), false) {
        Ok(ExportRequest::Directory(list)) => assert_eq!(list, ids(&["id-1", "id-2"])),
        other => panic!("{:?}", other),
    }
    match plan_export(ids(&["a", "b", "c"]), true) {
        Ok(ExportRequest::Directory(list)) => assert_eq!(list, ids(&["a", "b", "c"])),
        other => panic!("{:?}", other),
    }
}

#[test]
fn a_bulk_request_gets_the_list_whatever_it_names() {
    match plan_export(ids(&["id-1"]), true) {
        Ok(ExportRequest::Directory(list)) => assert_eq!(list, ids(&["id-1"])),
        other => panic!("{:?}", other),
    }
    match plan_export(ids(&[]), true) {
        Ok(ExportRequest::Directory(list)) => assert!(list.is_empty()),
        other => panic!("{:?}", other),
    }
}

#[test]
fn a_request_that_names_nobody_fails() {
    match plan_export(ids(&[]), false) {
        Err(error) => assert_eq!(error, "No staff ID provided"),
        other => panic!("{:?}", other),
    }
}

#[test]
fn a_list_of_nobody_named_holds_everybody() {
    assert!(matches!(select_staff(ids(&[])), Selection::All));
    match select_staff(ids(&["id-2", "id-1"])) {
        Selection::Listed(list) => assert_eq!(list, ids(&["id-2", "id-1"])),
        Selection::All => panic!("all"),
    }
}

#[test]
fn unsafe_characters_become_underscores() {
    let unsafe_in_name = " /\\:*?\"<>|";
    assert_eq!(make_safe("K. M. Perera", unsafe_in_name), "K._M._Perera");
    assert_eq!(make_safe("a/b\\c:d*e?f\"g<h>i|j k", unsafe_in_name), "a_b_c_d_e_f_g_h_i_j_k");
    assert_eq!(make_safe("plain-name_1", unsafe_in_name), "plain-name_1");
    assert_eq!(make_safe("", unsafe_in_name), "");
    assert_eq!(make_safe("DFO/VAV/2015/012", "/"), "DFO_VAV_2015_012");
    assert_eq!(make_safe("DFO VAV:1", "/"), "DFO VAV:1");
    assert_eq!(make_safe("a/b", ""), "a/b");
}

#[test]
fn the_file_of_a_record() {
    let file = record_export_on(&perera(), "01-02-2024", "20240201_093015");
    assert_eq!(
        file.file_name,
        "Staff_Record_K._M._Perera_DFO_VAV_2015_012_20240201_093015.html"
    );
    assert_eq!(
        file.message,
        "HTML file saved and opened for PDF printing: Staff_Record_K._M._Perera_DFO_VAV_2015_012_20240201_093015.html"
    );
    assert_eq!(file.contents, individual_staff_html_on(&perera(), "01-02-2024"));
}

#[test]
fn the_number_in_a_file_name_loses_only_its_slashes() {
    let mut staff = perera();
    staff.full_name = "A/B: C".to_string();
    staff.appointment_number = "X/1: 2".to_string();
    let file = record_export_on(&staff, "01-02-2024", "S");
    assert_eq!(file.file_name, "Staff_Record_A_B__C_X_1: 2_S.html");
}

#[test]
fn the_file_of_a_list() {
    let list = vec![perera(), thirunavukkarasu()];
    let file = directory_export_on(&list, "01-02-2024", "20240201_093015").unwrap();
    assert_eq!(file.file_name, "Staff_Directory_2_Records_20240201_093015.html");
    assert_eq!(
        file.message,
        "HTML file saved and opened for PDF printing: Staff_Directory_2_Records_20240201_093015.html (2 records)"
    );
    assert_eq!(file.contents, bulk_staff_html_on(&list, "01-02-2024"));
}

#[test]
fn the_file_of_a_long_list_counts_its_records() {
    let mut list = Vec::new();
    while list.len() < 12 {
        list.push(perera());
    }
    let file = directory_export_on(&list, "01-02-2024", "S").unwrap();
    assert_eq!(file.file_name, "Staff_Directory_12_Records_S.html");
    assert!(file.message.ends_with("Staff_Directory_12_Records_S.html (12 records)"));
}

#[test]
fn a_list_without_records_is_not_exported() {
    let none: Vec<Staff> = vec![];
    match directory_export_on(&none, "01-02-2024", "S") {
        Err(error) => assert_eq!(error, "No staff data to export"),
        Ok(file) => panic!("{:?}", file),
    }
    match directory_export(&none) {
        Err(error) => assert_eq!(error, "No staff data to export"),
        Ok(file) => panic!("{:?}", file),
    }
}

#[test]
fn exports_of_now_carry_the_present_stamp() {
    let file = record_export(&perera()).unwrap();
    assert!(file.file_name.starts_with("Staff_Record_K._M._Perera_DFO_VAV_2015_012_"));
    assert!(file.file_name.ends_with(".html"));
    assert_eq!(
        file.file_name.len(),
        "Staff_Record_K._M._Perera_DFO_VAV_2015_012_".len() + 15 + ".html".len()
    );
    assert_eq!(
        file.message,
        format!("HTML file saved and opened for PDF printing: {}", file.file_name)
    );
    assert_eq!(file.contents.len(), individual_staff_html_on(&perera(), "01-02-2024").len());

    let list = vec![perera()];
    let file = directory_export(&list).unwrap();
    assert!(file.file_name.starts_with("Staff_Directory_1_Records_"));
    assert_eq!(
        file.message,
        format!("HTML file saved and opened for PDF printing: {} (1 records)", file.file_name)
    );
}
