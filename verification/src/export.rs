//! Exporting documents to files.
//!
//! An export is asked for with a list of staff identifiers and a flag. This
//! module decides what the request means, and for the records that were
//! then read it gives the file to write: its name, its contents and the
//! message that reports it. Reading the records and writing the file are
//! left to the caller.

use vstd::prelude::*;
use vstd::string::*;
use chrono::NaiveDateTime;
use crate::dates::date_time_text;
use crate::dates::file_stamp_text;
use crate::dates::today_text;
use crate::dates::DAY_MONTH_YEAR;
use crate::dates::FILE_STAMP;
use crate::document::bulk_staff_html_on;
use crate::document::directory_print_text;
use crate::document::fits_print_list;
use crate::document::individual_staff_html_on;
use crate::document::record_print_text;
use crate::schema::Staff;
use crate::text::chars_of;
use crate::text::decimal_text;
use crate::text::push_char;
use crate::text::push_decimal;

verus! {

/// The error of a request for one record that names none.
pub const NO_STAFF_ID: &'static str = "No staff ID provided";

/// The error of an export of a list without records.
pub const NO_STAFF_DATA: &'static str = "No staff data to export";

/// The characters that are replaced in the part of a file name that comes
/// from a person's name.
pub const UNSAFE_IN_NAME: &'static str = " /\\:*?\"<>|";

/// The character that is replaced in the part of a file name that comes
/// from an appointment number.
pub const UNSAFE_IN_NUMBER: &'static str = "/";

pub const RECORD_FILE_START: &'static str = "Staff_Record_";

pub const DIRECTORY_FILE_START: &'static str = "Staff_Directory_";

pub const DIRECTORY_FILE_MIDDLE: &'static str = "_Records_";

pub const FILE_PART_SEPARATOR: &'static str = "_";

pub const FILE_END: &'static str = ".html";

pub const SAVED: &'static str = "HTML file saved and opened for PDF printing: ";

pub const RECORDS_START: &'static str = " (";

pub const RECORDS_END: &'static str = " records)";

/// What a request for an export asks for.
#[derive(Debug, Clone)]
pub enum ExportRequest {
    /// The record of the member of staff with this identifier.
    Record(String),
    /// The list of the members of staff with these identifiers.
    Directory(Vec<String>),
}

/// The records of a list.
#[derive(Debug, Clone)]
pub enum Selection {
    /// Every record of the directory.
    All,
    /// The records with these identifiers, in this order.
    Listed(Vec<String>),
}

/// A file to write.
#[derive(Debug, Clone)]
pub struct ExportFile {
    pub file_name: String,
    pub contents: String,
    pub message: String,
}

/// Decides what a request for an export means. A request marked as bulk, and
/// one that names more than one member of staff, asks for a list; any other
/// asks for the record of the one that it names, and fails if it names none.
pub fn plan_export(staff_ids: Vec<String>, is_bulk: bool) -> (result: Result<ExportRequest, String>)
    ensures
        is_bulk || staff_ids@.len() > 1 ==> result == Ok::<ExportRequest, String>(
            ExportRequest::Directory(staff_ids),
        ),
        !is_bulk && staff_ids@.len() == 1 ==> result == Ok::<ExportRequest, String>(
            ExportRequest::Record(staff_ids@[0]),
        ),
        !is_bulk && staff_ids@.len() == 0 ==> (result matches Err(error) && error@
            == NO_STAFF_ID@),
{
    if is_bulk || staff_ids.len() > 1 {
        Ok(ExportRequest::Directory(staff_ids))
    } else if staff_ids.len() == 0 {
        Err(String::from_str(NO_STAFF_ID))
    } else {
        Ok(ExportRequest::Record(staff_ids[0].clone()))
    }
}

/// Decides which records a list holds: all of them where none is named,
/// else those that are named.
pub fn select_staff(staff_ids: Vec<String>) -> (selection: Selection)
    ensures
        staff_ids@.len() == 0 ==> selection == Selection::All,
        staff_ids@.len() > 0 ==> selection == Selection::Listed(staff_ids),
{
    if staff_ids.len() == 0 {
        Selection::All
    } else {
        Selection::Listed(staff_ids)
    }
}

/// `text` with an underscore in place of every character that occurs in
/// `unsafe_chars`.
pub open spec fn made_safe(text: Seq<char>, unsafe_chars: Seq<char>) -> Seq<char> {
    Seq::new(
        text.len(),
        |i: int|
            if unsafe_chars.contains(text[i]) {
                '_'
            } else {
                text[i]
            },
    )
}

fn occurs_in(chars: &Vec<char>, c: char) -> (found: bool)
    ensures
        found == chars@.contains(c),
{
    let mut i: usize = 0;
    while i < chars.len()
        invariant
            i <= chars.len(),
            forall|k: int| 0 <= k < i ==> chars@[k] != c,
        decreases chars.len() - i,
    {
        if chars[i] == c {
            return true;
        }
        i = i + 1;
    }
    false
}

/// Replaces every character of `text` that occurs in `unsafe_chars` by an
/// underscore.
pub fn make_safe(text: &str, unsafe_chars: &str) -> (out: String)
    ensures
        out@ == made_safe(text@, unsafe_chars@),
{
    let chars = chars_of(text);
    let bad = chars_of(unsafe_chars);
    let mut out = String::new();
    let mut i: usize = 0;
    while i < chars.len()
        invariant
            i <= chars.len(),
            chars@ == text@,
            bad@ == unsafe_chars@,
            out@ == made_safe(text@, unsafe_chars@).take(i as int),
        decreases chars.len() - i,
    {
        if occurs_in(&bad, chars[i]) {
            push_char(&mut out, '_');
        } else {
            push_char(&mut out, chars[i]);
        }
        assert(out@ =~= made_safe(text@, unsafe_chars@).take(i + 1));
        i = i + 1;
    }
    assert(out@ =~= made_safe(text@, unsafe_chars@));
    out
}

/// The name of the file that holds the record of `staff`, written at
/// `stamp`.
pub open spec fn record_file_name(staff: Staff, stamp: Seq<char>) -> Seq<char> {
    RECORD_FILE_START@ + made_safe(staff.full_name@, UNSAFE_IN_NAME@) + FILE_PART_SEPARATOR@
        + made_safe(staff.appointment_number@, UNSAFE_IN_NUMBER@) + FILE_PART_SEPARATOR@ + stamp
        + FILE_END@
}

/// The name of the file that holds a list of `count` records, written at
/// `stamp`.
pub open spec fn directory_file_name(count: nat, stamp: Seq<char>) -> Seq<char> {
    DIRECTORY_FILE_START@ + decimal_text(count) + DIRECTORY_FILE_MIDDLE@ + stamp + FILE_END@
}

/// The message that reports the file of a record.
pub open spec fn record_message(file_name: Seq<char>) -> Seq<char> {
    SAVED@ + file_name
}

/// The message that reports the file of a list of `count` records.
pub open spec fn directory_message(file_name: Seq<char>, count: nat) -> Seq<char> {
    SAVED@ + file_name + RECORDS_START@ + decimal_text(count) + RECORDS_END@
}

/// True when `file` holds the record of `staff` dated `current_date`, under
/// the name that it gets at `stamp`.
pub open spec fn is_record_export(
    file: ExportFile,
    staff: Staff,
    current_date: Seq<char>,
    stamp: Seq<char>,
) -> bool {
    &&& file.file_name@ == record_file_name(staff, stamp)
    &&& file.contents@ == record_print_text(staff, current_date)
    &&& file.message@ == record_message(record_file_name(staff, stamp))
}

/// True when `file` holds the list of `staff_list` dated `current_date`,
/// under the name that it gets at `stamp`.
pub open spec fn is_directory_export(
    file: ExportFile,
    staff_list: Seq<Staff>,
    current_date: Seq<char>,
    stamp: Seq<char>,
) -> bool {
    &&& file.file_name@ == directory_file_name(staff_list.len(), stamp)
    &&& file.contents@ == directory_print_text(staff_list, current_date)
    &&& file.message@ == directory_message(
        directory_file_name(staff_list.len(), stamp),
        staff_list.len(),
    )
}

fn name_of_record_file(staff: &Staff, stamp: &str) -> (name: String)
    ensures
        name@ == record_file_name(*staff, stamp@),
{
    let mut name = String::from_str(RECORD_FILE_START);
    name.append(make_safe(staff.full_name.as_str(), UNSAFE_IN_NAME).as_str());
    name.append(FILE_PART_SEPARATOR);
    name.append(make_safe(staff.appointment_number.as_str(), UNSAFE_IN_NUMBER).as_str());
    name.append(FILE_PART_SEPARATOR);
    name.append(stamp);
    name.append(FILE_END);
    name
}

fn name_of_directory_file(count: usize, stamp: &str) -> (name: String)
    ensures
        name@ == directory_file_name(count as nat, stamp@),
{
    let mut name = String::from_str(DIRECTORY_FILE_START);
    push_decimal(&mut name, count as u64);
    name.append(DIRECTORY_FILE_MIDDLE);
    name.append(stamp);
    name.append(FILE_END);
    name
}

/// The file that holds the record of `staff`, dated `current_date` and named
/// at `stamp`.
pub fn record_export_on(staff: &Staff, current_date: &str, stamp: &str) -> (file: ExportFile)
    ensures
        is_record_export(file, *staff, current_date@, stamp@),
{
    let contents = individual_staff_html_on(staff, current_date);
    let file_name = name_of_record_file(staff, stamp);
    let mut message = String::from_str(SAVED);
    message.append(file_name.as_str());
    ExportFile { file_name, contents, message }
}

/// The file that holds the record of `staff`, dated and named now.
pub fn record_export(staff: &Staff) -> (result: Result<ExportFile, String>)
    ensures
        result matches Ok(file) && exists|first: NaiveDateTime, second: NaiveDateTime|
            #[trigger] is_record_export(
                file,
                *staff,
                date_time_text(first, DAY_MONTH_YEAR@),
                date_time_text(second, FILE_STAMP@),
            ),
{
    let current_date = today_text();
    let stamp = file_stamp_text();
    let result = Ok(record_export_on(staff, current_date.as_str(), stamp.as_str()));
    proof {
        let first = choose|now: NaiveDateTime| current_date@ == date_time_text(now, DAY_MONTH_YEAR@);
        let second = choose|now: NaiveDateTime| stamp@ == date_time_text(now, FILE_STAMP@);
        assert(result matches Ok(file) && is_record_export(
            file,
            *staff,
            date_time_text(first, DAY_MONTH_YEAR@),
            date_time_text(second, FILE_STAMP@),
        ));
    }
    result
}

/// The file that holds the list of `staff_list`, dated `current_date` and
/// named at `stamp`. A list without records is not exported.
pub fn directory_export_on(staff_list: &[Staff], current_date: &str, stamp: &str) -> (result:
    Result<ExportFile, String>)
    requires
        fits_print_list(staff_list@),
    ensures
        staff_list@.len() == 0 ==> (result matches Err(error) && error@ == NO_STAFF_DATA@),
        staff_list@.len() > 0 ==> (result matches Ok(file) && is_directory_export(
            file,
            staff_list@,
            current_date@,
            stamp@,
        )),
{
    if staff_list.len() == 0 {
        return Err(String::from_str(NO_STAFF_DATA));
    }
    let contents = bulk_staff_html_on(staff_list, current_date);
    let file_name = name_of_directory_file(staff_list.len(), stamp);
    let mut message = String::from_str(SAVED);
    message.append(file_name.as_str());
    message.append(RECORDS_START);
    push_decimal(&mut message, staff_list.len() as u64);
    message.append(RECORDS_END);
    Ok(ExportFile { file_name, contents, message })
}

/// The file that holds the list of `staff_list`, dated and named now. A list
/// without records is not exported.
pub fn directory_export(staff_list: &[Staff]) -> (result: Result<ExportFile, String>)
    requires
        fits_print_list(staff_list@),
    ensures
        staff_list@.len() == 0 ==> (result matches Err(error) && error@ == NO_STAFF_DATA@),
        staff_list@.len() > 0 ==> (result matches Ok(file) && exists|
            first: NaiveDateTime,
            second: NaiveDateTime,
        |
            #[trigger] is_directory_export(
                file,
                staff_list@,
                date_time_text(first, DAY_MONTH_YEAR@),
                date_time_text(second, FILE_STAMP@),
            )),
{
    if staff_list.len() == 0 {
        return Err(String::from_str(NO_STAFF_DATA));
    }
    let current_date = today_text();
    let stamp = file_stamp_text();
    let result = directory_export_on(staff_list, current_date.as_str(), stamp.as_str());
    proof {
        let first = choose|now: NaiveDateTime| current_date@ == date_time_text(now, DAY_MONTH_YEAR@);
        let second = choose|now: NaiveDateTime| stamp@ == date_time_text(now, FILE_STAMP@);
        assert(result matches Ok(file) && is_directory_export(
            file,
            staff_list@,
            date_time_text(first, DAY_MONTH_YEAR@),
            date_time_text(second, FILE_STAMP@),
        ));
    }
    result
}

/// A safe text is as long as the text it was made from and holds none of
/// the characters that were to be replaced, unless the underscore is one of
/// them.
pub proof fn made_safe_is_safe(text: Seq<char>, unsafe_chars: Seq<char>)
    requires
        !unsafe_chars.contains('_'),
    ensures
        made_safe(text, unsafe_chars).len() == text.len(),
        forall|i: int|
            0 <= i < text.len() ==> !unsafe_chars.contains(
                #[trigger] made_safe(text, unsafe_chars)[i],
            ),
{
}

} // verus!
