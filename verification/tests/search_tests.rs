use staff_directory::schema::PrintStaffBulkParams;
use staff_directory::schema::StaffSearchParams;
use staff_directory::search::search_query;
use staff_directory::search::SqlValue;

const SELECT: &str = r#"
        SELECT id, appointment_number, full_name, gender, date_of_birth, age,
               nic_number, nic_number_old, marital_status, address_line1, address_line2, address_line3,
               contact_number, email, designation, date_of_first_appointment, date_of_retirement,
               increment_date, salary_code, basic_salary, increment_amount, image_data,
               created_at, updated_at
        FROM staff
        WHERE 1=1
        "#;

fn nothing() -> StaffSearchParams {
    StaffSearchParams {
        search_term: None,
        designation: None,
        age_min: None,
        age_max: None,
        nic_number: None,
        salary_code: None,
    }
}

fn some(value: &str) -> Option<String> {
    Some(value.to_string())
}

fn shown(values: &[SqlValue]) -> Vec<String> {
    values
        .iter()
        .map(|value| match value {
            SqlValue::Text(text) => format!("text:{}", text),
            SqlValue::Integer(number) => format!("integer:{}", number),
        })
        .collect()
}

#[test]
fn a_search_without_parameters_selects_all() {
    let query = search_query(&nothing());
    assert_eq!(query.sql, format!("{} ORDER BY full_name", SELECT));
    assert!(query.values.is_empty());
    assert!(query.sql.contains("WHERE 1=1"));
    assert!(query.sql.contains("FROM staff"));
}

#[test]
fn empty_texts_narrow_nothing() {
    let mut params = nothing();
    params.search_term = some("");
    params.designation = some("");
    params.nic_number = some("");
    params.salary_code = some("");
    let query = search_query(&params);
    assert_eq!(query.sql, format!("{} ORDER BY full_name", SELECT));
    assert!(query.values.is_empty());
}

#[test]
fn the_term_is_sought_in_four_columns() {
    let mut params = nothing();
    params.search_term = some("Perera");
    let query = search_query(&params);
    assert_eq!(
        query.sql,
        format!(
            "{} AND (full_name LIKE ?1 OR appointment_number LIKE ?1 OR nic_number LIKE ?1 OR nic_number_old LIKE ?1) ORDER BY full_name",
            SELECT
        )
    );
    assert_eq!(shown(&query.values), vec!["text:%Perera%"]);
}

#[test]
fn a_lone_condition_takes_the_first_placeholder() {
    let mut params = nothing();
    params.designation = some("Forest Range Officer");
    let query = search_query(&params);
    assert_eq!(query.sql, format!("{} AND designation = ?1 ORDER BY full_name", SELECT));
    assert_eq!(shown(&query.values), vec!["text:Forest Range Officer"]);

    let mut params = nothing();
    params.age_min = Some(30);
    let query = search_query(&params);
    assert_eq!(query.sql, format!("{} AND age >= ?1 ORDER BY full_name", SELECT));
    assert_eq!(shown(&query.values), vec!["integer:30"]);

    let mut params = nothing();
    params.age_max = Some(-1);
    let query = search_query(&params);
    assert_eq!(query.sql, format!("{} AND age <= ?1 ORDER BY full_name", SELECT));
    assert_eq!(shown(&query.values), vec!["integer:-1"]);

    let mut params = nothing();
    params.salary_code = some("MN-5");
    let query = search_query(&params);
    assert_eq!(query.sql, format!("{} AND salary_code = ?1 ORDER BY full_name", SELECT));
    assert_eq!(shown(&query.values), vec!["text:MN-5"]);
}

#[test]
fn the_identity_card_number_is_bound_twice() {
    let mut params = nothing();
    params.nic_number = some("851030456V");
    let query = search_query(&params);
    assert_eq!(
        query.sql,
        format!("{} AND (nic_number = ?1 OR nic_number_old = ?2) ORDER BY full_name", SELECT)
    );
    assert_eq!(shown(&query.values), vec!["text:851030456V", "text:851030456V"]);
}

#[test]
fn all_conditions_are_numbered_in_order() {
    let params = StaffSearchParams {
        search_term: some("a%b"),
        designation: some("Clerk"),
        age_min: Some(25),
        age_max: Some(55),
        nic_number: some("199312345678"),
        salary_code: some("PL-3"),
    };
    let query = search_query(&params);
    assert_eq!(
        query.sql,
        format!(
            "{}{}{}{}{}{}{}{}",
            SELECT,
            " AND (full_name LIKE ?1 OR appointment_number LIKE ?1 OR nic_number LIKE ?1 OR nic_number_old LIKE ?1)",
            " AND designation = ?2",
            " AND age >= ?3",
            " AND age <= ?4",
            " AND (nic_number = ?5 OR nic_number_old = ?6)",
            " AND salary_code = ?7",
            " ORDER BY full_name"
        )
    );
    assert_eq!(
        shown(&query.values),
        vec![
            "text:%a%b%",
            "text:Clerk",
            "integer:25",
            "integer:55",
            "text:199312345678",
            "text:199312345678",
            "text:PL-3"
        ]
    );
}

#[test]
fn conditions_that_are_left_out_shift_the_numbers() {
    let mut params = nothing();
    params.age_max = Some(40);
    params.nic_number = some("N");
    params.salary_code = some("S");
    let query = search_query(&params);
    assert_eq!(
        query.sql,
        format!(
            "{} AND age <= ?1 AND (nic_number = ?2 OR nic_number_old = ?3) AND salary_code = ?4 ORDER BY full_name",
            SELECT
        )
    );
    assert_eq!(shown(&query.values), vec!["integer:40", "text:N", "text:N", "text:S"]);

    let mut params = nothing();
    params.designation = some("D");
    params.age_min = Some(i32::MIN);
    let query = search_query(&params);
    assert_eq!(
        query.sql,
        format!("{} AND designation = ?1 AND age >= ?2 ORDER BY full_name", SELECT)
    );
    assert_eq!(shown(&query.values), vec!["text:D", "integer:-2147483648"]);
}

#[test]
fn every_placeholder_has_a_value() {
    let texts = [None, some(""), some("x")];
    let ages = [None, Some(0)];
    for term in &texts {
        for designation in &texts {
            for age_min in &ages {
                for age_max in &ages {
                    for nic in &texts {
                        for code in &texts {
                            let params = StaffSearchParams {
                                search_term: term.clone(),
                                designation: designation.clone(),
                                age_min: *age_min,
                                age_max: *age_max,
                                nic_number: nic.clone(),
                                salary_code: code.clone(),
                            };
                            let query = search_query(&params);
                            let mut number = 1;
                            while query.sql.contains(&format!("?{}", number)) {
                                number += 1;
                            }
                            assert_eq!(number - 1, query.values.len());
                            assert!(!query.sql.contains(&format!("?{}", number + 1)));
                            assert!(query.sql.ends_with(" ORDER BY full_name"));
                        }
                    }
                }
            }
        }
    }
}

#[test]
fn print_parameters_hold_identifiers_and_filters() {
    let params = PrintStaffBulkParams {
        staff_ids: vec!["id-1".to_string(), "id-2".to_string()],
        filters: Some(nothing()),
    };
    let copy = params.clone();
    assert_eq!(copy.staff_ids, params.staff_ids);
    assert!(copy.filters.unwrap().search_term.is_none());
}
