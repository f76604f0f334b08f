//! The records of the directory and the parameters of its queries.

use vstd::prelude::*;
use chrono::NaiveDateTime;

verus! {

/// One member of staff.
///
/// Dates are kept as the text in which they were entered, and the two sums
/// of money as decimal text with two digits after the point. The two
/// timestamps are moments in UTC.
#[derive(Debug, Clone)]
pub struct Staff {
    pub id: String,
    pub appointment_number: String,
    pub full_name: String,
    pub gender: String,
    pub date_of_birth: String,
    pub age: i32,
    pub nic_number: String,
    pub nic_number_old: Option<String>,
    pub marital_status: String,
    pub address_line1: Option<String>,
    pub address_line2: Option<String>,
    pub address_line3: Option<String>,
    pub contact_number: Option<String>,
    pub email: Option<String>,
    pub designation: String,
    pub date_of_first_appointment: String,
    pub date_of_retirement: String,
    pub increment_date: Option<String>,
    pub salary_code: String,
    pub basic_salary: String,
    pub increment_amount: String,
    pub image_data: Option<String>,
    pub created_at: NaiveDateTime,
    pub updated_at: NaiveDateTime,
}

/// What a search may be narrowed by. A field that is absent, and a text
/// field that is empty, narrows nothing.
#[derive(Debug, Clone)]
pub struct StaffSearchParams {
    pub search_term: Option<String>,
    pub designation: Option<String>,
    pub age_min: Option<i32>,
    pub age_max: Option<i32>,
    pub nic_number: Option<String>,
    pub salary_code: Option<String>,
}

/// The records to print in one document: those named, or those that the
/// filters select.
#[derive(Debug, Clone)]
pub struct PrintStaffBulkParams {
    pub staff_ids: Vec<String>,
    pub filters: Option<StaffSearchParams>,
}

} // verus!
