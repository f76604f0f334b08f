//! The documents of the directory: the record of one member of staff and the
//! list of many, each for printing and for the screen.
//!
//! A document is one of the texts of the module `templates`, filled with
//! what the record holds. This module says which value goes into which
//! hole, and what stands in for a value that is missing.

use vstd::prelude::*;
use vstd::string::*;
use chrono::NaiveDateTime;
use crate::currency::currency_text;
use crate::currency::format_currency;
use crate::dates::date_time_text;
use crate::dates::displayed_date;
use crate::dates::format_date;
use crate::dates::today_text;
use crate::dates::DAY_MONTH_YEAR;
use crate::schema::Staff;
use crate::template::render;
use crate::template::rendered;
use crate::templates::DIRECTORY_PREVIEW;
use crate::templates::DIRECTORY_PREVIEW_ROW;
use crate::templates::DIRECTORY_PRINT;
use crate::templates::DIRECTORY_PRINT_ROW;
use crate::templates::PHOTO;
use crate::templates::PHOTO_MISSING;
use crate::templates::RECORD_PREVIEW;
use crate::templates::RECORD_PRINT;
use crate::text::count_text;
use crate::text::decimal_text;
use crate::text::join;
use crate::text::joined;
use crate::text::number_text;
use crate::text::signed_decimal_text;
use crate::text::texts_of;
use crate::text::trim;
use crate::text::trimmed;
use crate::truncate::can_truncate;
use crate::truncate::is_truncatable;
use crate::truncate::truncate_text;
use crate::truncate::truncated;

verus! {

/// Shown in a record for an address, a contact number or an email that is
/// missing.
pub const NOT_PROVIDED: &'static str = "Not provided";

/// Shown in a record for an increment date that is missing.
pub const NOT_SPECIFIED: &'static str = "Not specified";

/// Shown in a list for a contact number that is missing.
pub const NOT_AVAILABLE: &'static str = "N/A";

/// Stands between the lines of an address.
pub const ADDRESS_SEPARATOR: &'static str = ", ";

/// Width of the appointment number in a printed list.
pub const APPOINTMENT_WIDTH: usize = 15;

/// Width of the name in a printed list.
pub const NAME_WIDTH: usize = 25;

/// Width of the identity card number in a printed list.
pub const NIC_WIDTH: usize = 12;

/// Width of the contact number in a printed list.
pub const CONTACT_WIDTH: usize = 12;

/// The text of a field, or `fallback` where the field is missing.
pub open spec fn text_or(field: Option<String>, fallback: Seq<char>) -> Seq<char> {
    match field {
        Some(text) => text@,
        None => fallback,
    }
}

fn field_or(field: &Option<String>, fallback: &str) -> (out: String)
    ensures
        out@ == text_or(*field, fallback@),
{
    match field {
        Some(text) => text.clone(),
        None => String::from_str(fallback),
    }
}

/// Appends one value to those of a document.
fn put(values: &mut Vec<String>, value: String)
    ensures
        texts_of(final(values)@) == texts_of(old(values)@).push(value@),
{
    values.push(value);
    assert(texts_of(values@) =~= texts_of(old(values)@).push(value@));
}

/// What one line of an address adds to it: the line without the white space
/// around it, or nothing where the line is missing or blank.
pub open spec fn address_part(line: Option<String>) -> Seq<Seq<char>> {
    match line {
        Some(text) => if trimmed(text@).len() > 0 {
            seq![trimmed(text@)]
        } else {
            Seq::empty()
        },
        None => Seq::empty(),
    }
}

/// The lines of an address that hold something.
pub open spec fn address_parts(staff: Staff) -> Seq<Seq<char>> {
    address_part(staff.address_line1) + address_part(staff.address_line2) + address_part(
        staff.address_line3,
    )
}

/// An address on one line.
pub open spec fn address_text(staff: Staff) -> Seq<char> {
    if address_parts(staff).len() == 0 {
        NOT_PROVIDED@
    } else {
        joined(address_parts(staff), ADDRESS_SEPARATOR@)
    }
}

fn put_address_part(parts: &mut Vec<String>, line: &Option<String>)
    ensures
        texts_of(final(parts)@) == texts_of(old(parts)@) + address_part(*line),
{
    match line {
        Some(text) => {
            let kept = trim(text.as_str());
            if !kept.as_str().is_empty() {
                put(parts, kept);
            }
        },
        None => {},
    }
    assert(texts_of(parts@) =~= texts_of(old(parts)@) + address_part(*line));
}

/// The address of a member of staff on one line: the lines that are not
/// blank, parted by commas, or a note that none was given.
pub fn format_address_html(staff: &Staff) -> (out: String)
    ensures
        out@ == address_text(*staff),
{
    let mut parts: Vec<String> = Vec::new();
    assert(texts_of(parts@) =~= Seq::<Seq<char>>::empty());
    put_address_part(&mut parts, &staff.address_line1);
    put_address_part(&mut parts, &staff.address_line2);
    put_address_part(&mut parts, &staff.address_line3);
    assert(texts_of(parts@) =~= address_parts(*staff));
    if parts.len() == 0 {
        String::from_str(NOT_PROVIDED)
    } else {
        join(&parts, ADDRESS_SEPARATOR)
    }
}

/// What a record says of the person: from the appointment number to the
/// email.
pub open spec fn personal_values(staff: Staff) -> Seq<Seq<char>> {
    seq![
        staff.appointment_number@,
        staff.full_name@,
        staff.gender@,
        displayed_date(staff.date_of_birth@),
        signed_decimal_text(staff.age as int),
        staff.nic_number@,
        staff.marital_status@,
        address_text(staff),
        text_or(staff.contact_number, NOT_PROVIDED@),
        text_or(staff.email, NOT_PROVIDED@),
    ]
}

/// What a record says of the post and the pay: from the designation to the
/// increment amount.
pub open spec fn employment_values(staff: Staff) -> Seq<Seq<char>> {
    seq![
        staff.designation@,
        displayed_date(staff.date_of_first_appointment@),
        displayed_date(staff.date_of_retirement@),
        text_or(staff.increment_date, NOT_SPECIFIED@),
        staff.salary_code@,
        currency_text(staff.basic_salary@),
        currency_text(staff.increment_amount@),
    ]
}

/// What closes a record: the date of the document and the appointment
/// number as its reference.
pub open spec fn closing_values(staff: Staff, current_date: Seq<char>) -> Seq<Seq<char>> {
    seq![current_date, staff.appointment_number@]
}

/// The body of a record: everything after its title.
pub open spec fn body_values(staff: Staff, current_date: Seq<char>) -> Seq<Seq<char>> {
    personal_values(staff) + employment_values(staff) + closing_values(staff, current_date)
}

/// The values of a printed record, in the order of its holes.
pub open spec fn record_values(staff: Staff, current_date: Seq<char>) -> Seq<Seq<char>> {
    seq![staff.full_name@] + body_values(staff, current_date)
}

/// The photograph of a record on the screen, or what stands in its place.
pub open spec fn photo_text(staff: Staff) -> Seq<char> {
    match staff.image_data {
        Some(image) => rendered(PHOTO@, seq![image@]),
        None => PHOTO_MISSING@,
    }
}

/// The values of a record on the screen, in the order of its holes.
pub open spec fn preview_values(staff: Staff, current_date: Seq<char>) -> Seq<Seq<char>> {
    seq![staff.full_name@, photo_text(staff)] + body_values(staff, current_date)
}

/// The record of `staff` for printing, as of `current_date`.
pub open spec fn record_print_text(staff: Staff, current_date: Seq<char>) -> Seq<char> {
    rendered(RECORD_PRINT@, record_values(staff, current_date))
}

/// The record of `staff` for the screen, as of `current_date`.
pub open spec fn record_preview_text(staff: Staff, current_date: Seq<char>) -> Seq<char> {
    rendered(RECORD_PREVIEW@, preview_values(staff, current_date))
}

fn put_personal_values(values: &mut Vec<String>, staff: &Staff)
    ensures
        texts_of(final(values)@) == texts_of(old(values)@) + personal_values(*staff),
{
    put(values, staff.appointment_number.clone());
    put(values, staff.full_name.clone());
    put(values, staff.gender.clone());
    put(values, format_date(staff.date_of_birth.as_str()));
    put(values, number_text(staff.age));
    put(values, staff.nic_number.clone());
    put(values, staff.marital_status.clone());
    put(values, format_address_html(staff));
    put(values, field_or(&staff.contact_number, NOT_PROVIDED));
    put(values, field_or(&staff.email, NOT_PROVIDED));
    assert(texts_of(values@) =~= texts_of(old(values)@) + personal_values(*staff));
}

fn put_employment_values(values: &mut Vec<String>, staff: &Staff)
    ensures
        texts_of(final(values)@) == texts_of(old(values)@) + employment_values(*staff),
{
    put(values, staff.designation.clone());
    put(values, format_date(staff.date_of_first_appointment.as_str()));
    put(values, format_date(staff.date_of_retirement.as_str()));
    put(values, field_or(&staff.increment_date, NOT_SPECIFIED));
    put(values, staff.salary_code.clone());
    put(values, format_currency(staff.basic_salary.as_str()));
    put(values, format_currency(staff.increment_amount.as_str()));
    assert(texts_of(values@) =~= texts_of(old(values)@) + employment_values(*staff));
}

fn put_body_values(values: &mut Vec<String>, staff: &Staff, current_date: &str)
    ensures
        texts_of(final(values)@) == texts_of(old(values)@) + body_values(*staff, current_date@),
{
    put_personal_values(values, staff);
    put_employment_values(values, staff);
    put(values, String::from_str(current_date));
    put(values, staff.appointment_number.clone());
    assert(texts_of(values@) =~= texts_of(old(values)@) + body_values(*staff, current_date@));
}

/// The record of one member of staff for printing, dated `current_date`.
pub fn individual_staff_html_on(staff: &Staff, current_date: &str) -> (html: String)
    ensures
        html@ == record_print_text(*staff, current_date@),
{
    let mut values: Vec<String> = Vec::new();
    put(&mut values, staff.full_name.clone());
    put_body_values(&mut values, staff, current_date);
    assert(texts_of(values@) =~= record_values(*staff, current_date@));
    render(RECORD_PRINT, &values)
}

/// The record of one member of staff for printing, dated today.
pub fn generate_individual_staff_html(staff: &Staff) -> (result: Result<String, String>)
    ensures
        result matches Ok(html) && exists|now: NaiveDateTime|
            html@ == record_print_text(*staff, #[trigger] date_time_text(now, DAY_MONTH_YEAR@)),
{
    let current_date = today_text();
    Ok(individual_staff_html_on(staff, current_date.as_str()))
}

fn photo_html(staff: &Staff) -> (out: String)
    ensures
        out@ == photo_text(*staff),
{
    match &staff.image_data {
        Some(image) => {
            let mut values: Vec<String> = Vec::new();
            put(&mut values, image.clone());
            assert(texts_of(values@) =~= seq![image@]);
            render(PHOTO, &values)
        },
        None => String::from_str(PHOTO_MISSING),
    }
}

/// The record of one member of staff for the screen, dated `current_date`.
pub fn staff_html_preview_on(staff: &Staff, current_date: &str) -> (html: String)
    ensures
        html@ == record_preview_text(*staff, current_date@),
{
    let mut values: Vec<String> = Vec::new();
    put(&mut values, staff.full_name.clone());
    put(&mut values, photo_html(staff));
    put_body_values(&mut values, staff, current_date);
    assert(texts_of(values@) =~= preview_values(*staff, current_date@));
    render(RECORD_PREVIEW, &values)
}

/// The record of one member of staff for the screen, dated today.
pub fn generate_staff_html_preview(staff: &Staff) -> (html: String)
    ensures
        exists|now: NaiveDateTime|
            html@ == record_preview_text(*staff, #[trigger] date_time_text(now, DAY_MONTH_YEAR@)),
{
    let current_date = today_text();
    staff_html_preview_on(staff, current_date.as_str())
}

/// True when every column of the printed list can show what `staff` holds:
/// each text fits its column or can be cut to it.
pub open spec fn fits_print_row(staff: Staff) -> bool {
    &&& can_truncate(staff.appointment_number@, APPOINTMENT_WIDTH as nat)
    &&& can_truncate(staff.full_name@, NAME_WIDTH as nat)
    &&& can_truncate(staff.nic_number@, NIC_WIDTH as nat)
    &&& can_truncate(text_or(staff.contact_number, NOT_AVAILABLE@), CONTACT_WIDTH as nat)
}

/// True when every record of `staff_list` can be shown in the printed list.
pub open spec fn fits_print_list(staff_list: Seq<Staff>) -> bool {
    forall|i: int| 0 <= i < staff_list.len() ==> fits_print_row(#[trigger] staff_list[i])
}

/// The values of the row at place `index` of a printed list, in the order of
/// its holes. Rows are numbered from 1.
pub open spec fn print_row_values(index: nat, staff: Staff) -> Seq<Seq<char>> {
    seq![
        decimal_text(index + 1),
        truncated(staff.appointment_number@, APPOINTMENT_WIDTH as nat),
        truncated(staff.full_name@, NAME_WIDTH as nat),
        staff.designation@,
        signed_decimal_text(staff.age as int),
        truncated(staff.nic_number@, NIC_WIDTH as nat),
        truncated(text_or(staff.contact_number, NOT_AVAILABLE@), CONTACT_WIDTH as nat),
        staff.salary_code@,
        currency_text(staff.basic_salary@),
    ]
}

/// The values of the row at place `index` of a list on the screen. Nothing
/// is cut there.
pub open spec fn preview_row_values(index: nat, staff: Staff) -> Seq<Seq<char>> {
    seq![
        decimal_text(index + 1),
        staff.appointment_number@,
        staff.full_name@,
        staff.designation@,
        signed_decimal_text(staff.age as int),
        staff.nic_number@,
        text_or(staff.contact_number, NOT_AVAILABLE@),
        staff.salary_code@,
        currency_text(staff.basic_salary@),
    ]
}

/// The rows of a printed list, one for each record and in their order.
pub open spec fn print_rows(staff_list: Seq<Staff>) -> Seq<Seq<char>> {
    Seq::new(
        staff_list.len(),
        |i: int| rendered(DIRECTORY_PRINT_ROW@, print_row_values(i as nat, staff_list[i])),
    )
}

/// The rows of a list on the screen, one for each record and in their order.
pub open spec fn preview_rows(staff_list: Seq<Staff>) -> Seq<Seq<char>> {
    Seq::new(
        staff_list.len(),
        |i: int| rendered(DIRECTORY_PREVIEW_ROW@, preview_row_values(i as nat, staff_list[i])),
    )
}

/// The values of a list, in the order of its holes: the number of records,
/// the date, the rows one after the other, the date and the number again.
pub open spec fn list_values(count: nat, rows: Seq<Seq<char>>, current_date: Seq<char>) -> Seq<
    Seq<char>,
> {
    seq![
        decimal_text(count),
        current_date,
        joined(rows, Seq::empty()),
        current_date,
        decimal_text(count),
    ]
}

/// The list of `staff_list` for printing, as of `current_date`.
pub open spec fn directory_print_text(staff_list: Seq<Staff>, current_date: Seq<char>) -> Seq<
    char,
> {
    rendered(
        DIRECTORY_PRINT@,
        list_values(staff_list.len(), print_rows(staff_list), current_date),
    )
}

/// The list of `staff_list` for the screen, as of `current_date`.
pub open spec fn directory_preview_text(staff_list: Seq<Staff>, current_date: Seq<char>) -> Seq<
    char,
> {
    rendered(
        DIRECTORY_PREVIEW@,
        list_values(staff_list.len(), preview_rows(staff_list), current_date),
    )
}

/// Tells whether the printed list can show `staff`.
pub fn is_print_row(staff: &Staff) -> (possible: bool)
    ensures
        possible == fits_print_row(*staff),
{
    let contact = field_or(&staff.contact_number, NOT_AVAILABLE);
    is_truncatable(staff.appointment_number.as_str(), APPOINTMENT_WIDTH) && is_truncatable(
        staff.full_name.as_str(),
        NAME_WIDTH,
    ) && is_truncatable(staff.nic_number.as_str(), NIC_WIDTH) && is_truncatable(
        contact.as_str(),
        CONTACT_WIDTH,
    )
}

/// Tells whether the printed list can show every record of `staff_list`.
pub fn is_print_list(staff_list: &[Staff]) -> (possible: bool)
    ensures
        possible == fits_print_list(staff_list@),
{
    let mut i: usize = 0;
    while i < staff_list.len()
        invariant
            i <= staff_list.len(),
            forall|k: int| 0 <= k < i ==> fits_print_row(#[trigger] staff_list@[k]),
        decreases staff_list.len() - i,
    {
        if !is_print_row(&staff_list[i]) {
            return false;
        }
        i = i + 1;
    }
    true
}

fn print_row(index: usize, staff: &Staff) -> (row: String)
    requires
        index < usize::MAX,
        fits_print_row(*staff),
    ensures
        row@ == rendered(DIRECTORY_PRINT_ROW@, print_row_values(index as nat, *staff)),
{
    let contact = field_or(&staff.contact_number, NOT_AVAILABLE);
    let mut values: Vec<String> = Vec::new();
    put(&mut values, count_text(index + 1));
    put(&mut values, truncate_text(staff.appointment_number.as_str(), APPOINTMENT_WIDTH));
    put(&mut values, truncate_text(staff.full_name.as_str(), NAME_WIDTH));
    put(&mut values, staff.designation.clone());
    put(&mut values, number_text(staff.age));
    put(&mut values, truncate_text(staff.nic_number.as_str(), NIC_WIDTH));
    put(&mut values, truncate_text(contact.as_str(), CONTACT_WIDTH));
    put(&mut values, staff.salary_code.clone());
    put(&mut values, format_currency(staff.basic_salary.as_str()));
    assert(texts_of(values@) =~= print_row_values(index as nat, *staff));
    render(DIRECTORY_PRINT_ROW, &values)
}

fn preview_row(index: usize, staff: &Staff) -> (row: String)
    requires
        index < usize::MAX,
    ensures
        row@ == rendered(DIRECTORY_PREVIEW_ROW@, preview_row_values(index as nat, *staff)),
{
    let mut values: Vec<String> = Vec::new();
    put(&mut values, count_text(index + 1));
    put(&mut values, staff.appointment_number.clone());
    put(&mut values, staff.full_name.clone());
    put(&mut values, staff.designation.clone());
    put(&mut values, number_text(staff.age));
    put(&mut values, staff.nic_number.clone());
    put(&mut values, field_or(&staff.contact_number, NOT_AVAILABLE));
    put(&mut values, staff.salary_code.clone());
    put(&mut values, format_currency(staff.basic_salary.as_str()));
    assert(texts_of(values@) =~= preview_row_values(index as nat, *staff));
    render(DIRECTORY_PREVIEW_ROW, &values)
}

/// Fills a list document with its rows.
fn render_list(template: &str, count: usize, rows: &Vec<String>, current_date: &str) -> (html:
    String)
    ensures
        html@ == rendered(template@, list_values(count as nat, texts_of(rows@), current_date@)),
{
    let mut values: Vec<String> = Vec::new();
    put(&mut values, count_text(count));
    put(&mut values, String::from_str(current_date));
    put(&mut values, join(rows, ""));
    put(&mut values, String::from_str(current_date));
    put(&mut values, count_text(count));
    proof {
        reveal_strlit("");
        assert(""@ =~= Seq::<char>::empty());
    }
    assert(texts_of(values@) =~= list_values(count as nat, texts_of(rows@), current_date@));
    render(template, &values)
}

/// The list of `staff_list` for printing, dated `current_date`.
pub fn bulk_staff_html_on(staff_list: &[Staff], current_date: &str) -> (html: String)
    requires
        fits_print_list(staff_list@),
    ensures
        html@ == directory_print_text(staff_list@, current_date@),
{
    let mut rows: Vec<String> = Vec::new();
    let mut i: usize = 0;
    while i < staff_list.len()
        invariant
            i <= staff_list.len(),
            fits_print_list(staff_list@),
            texts_of(rows@) == print_rows(staff_list@).take(i as int),
        decreases staff_list.len() - i,
    {
        let row = print_row(i, &staff_list[i]);
        put(&mut rows, row);
        assert(texts_of(rows@) =~= print_rows(staff_list@).take(i + 1));
        i = i + 1;
    }
    assert(texts_of(rows@) =~= print_rows(staff_list@));
    render_list(DIRECTORY_PRINT, staff_list.len(), &rows, current_date)
}

/// The list of `staff_list` for printing, dated today.
pub fn generate_bulk_staff_html(staff_list: &[Staff]) -> (result: Result<String, String>)
    requires
        fits_print_list(staff_list@),
    ensures
        result matches Ok(html) && exists|now: NaiveDateTime|
            html@ == directory_print_text(
                staff_list@,
                #[trigger] date_time_text(now, DAY_MONTH_YEAR@),
            ),
{
    let current_date = today_text();
    Ok(bulk_staff_html_on(staff_list, current_date.as_str()))
}

/// The list of `staff_list` for the screen, dated `current_date`.
pub fn bulk_html_preview_on(staff_list: &[Staff], current_date: &str) -> (html: String)
    ensures
        html@ == directory_preview_text(staff_list@, current_date@),
{
    let mut rows: Vec<String> = Vec::new();
    let mut i: usize = 0;
    while i < staff_list.len()
        invariant
            i <= staff_list.len(),
            texts_of(rows@) == preview_rows(staff_list@).take(i as int),
        decreases staff_list.len() - i,
    {
        let row = preview_row(i, &staff_list[i]);
        put(&mut rows, row);
        assert(texts_of(rows@) =~= preview_rows(staff_list@).take(i + 1));
        i = i + 1;
    }
    assert(texts_of(rows@) =~= preview_rows(staff_list@));
    render_list(DIRECTORY_PREVIEW, staff_list.len(), &rows, current_date)
}

/// The list of `staff_list` for the screen, dated today.
pub fn generate_bulk_html_preview(staff_list: &[Staff]) -> (html: String)
    ensures
        exists|now: NaiveDateTime|
            html@ == directory_preview_text(
                staff_list@,
                #[trigger] date_time_text(now, DAY_MONTH_YEAR@),
            ),
{
    let current_date = today_text();
    bulk_html_preview_on(staff_list, current_date.as_str())
}

} // verus!
