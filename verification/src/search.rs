//! Turning search parameters into one SQL statement with its values.
//!
//! The statement selects every column of the staff table and carries one
//! condition for each parameter that narrows the search. Placeholders are
//! numbered from 1 in the order in which their values are bound.

use vstd::prelude::*;
use vstd::string::*;
use crate::schema::StaffSearchParams;
use crate::text::decimal_text;
use crate::text::push_decimal;

verus! {

/// A value bound to a placeholder of a statement.
#[derive(Debug, Clone)]
pub enum SqlValue {
    Text(String),
    Integer(i32),
}

/// What a bound value holds.
pub enum SqlValueView {
    Text(Seq<char>),
    Integer(int),
}

impl View for SqlValue {
    type V = SqlValueView;

    open spec fn view(&self) -> SqlValueView {
        match self {
            SqlValue::Text(t) => SqlValueView::Text(t@),
            SqlValue::Integer(i) => SqlValueView::Integer(*i as int),
        }
    }
}

/// A statement and the values of its placeholders, the first value for `?1`.
#[derive(Debug, Clone)]
pub struct SearchQuery {
    pub sql: String,
    pub values: Vec<SqlValue>,
}

/// What a sequence of bound values holds.
pub open spec fn values_of(values: Seq<SqlValue>) -> Seq<SqlValueView> {
    Seq::new(values.len(), |i: int| values[i]@)
}

/// Start of every search: all columns of every row.
pub const SEARCH_SELECT: &'static str = r#"
        SELECT id, appointment_number, full_name, gender, date_of_birth, age,
               nic_number, nic_number_old, marital_status, address_line1, address_line2, address_line3,
               contact_number, email, designation, date_of_first_appointment, date_of_retirement,
               increment_date, salary_code, basic_salary, increment_amount, image_data,
               created_at, updated_at
        FROM staff
        WHERE 1=1
        "#;

/// Condition on the free-text term, which is always the first value.
pub const TERM_CONDITION: &'static str =
    " AND (full_name LIKE ?1 OR appointment_number LIKE ?1 OR nic_number LIKE ?1 OR nic_number_old LIKE ?1)";

pub const DESIGNATION_CONDITION: &'static str = " AND designation = ?";

pub const AGE_MIN_CONDITION: &'static str = " AND age >= ?";

pub const AGE_MAX_CONDITION: &'static str = " AND age <= ?";

pub const NIC_CONDITION: &'static str = " AND (nic_number = ?";

pub const NIC_OLD_CONDITION: &'static str = " OR nic_number_old = ?";

pub const NIC_CONDITION_END: &'static str = ")";

pub const SALARY_CODE_CONDITION: &'static str = " AND salary_code = ?";

pub const SEARCH_ORDER: &'static str = " ORDER BY full_name";

pub const LIKE_ANY: &'static str = "%";

/// True when a text parameter is given and not empty.
pub open spec fn given(field: Option<String>) -> bool {
    field matches Some(t) && t@.len() > 0
}

/// The text of a parameter that is given.
pub open spec fn text_of(field: Option<String>) -> Seq<char> {
    match field {
        Some(t) => t@,
        None => Seq::empty(),
    }
}

/// The pattern that matches every text that holds `term`.
pub open spec fn like_pattern(term: Seq<char>) -> Seq<char> {
    LIKE_ANY@ + term + LIKE_ANY@
}

pub open spec fn term_values(p: StaffSearchParams) -> Seq<SqlValueView> {
    if given(p.search_term) {
        seq![SqlValueView::Text(like_pattern(text_of(p.search_term)))]
    } else {
        Seq::empty()
    }
}

pub open spec fn designation_values(p: StaffSearchParams) -> Seq<SqlValueView> {
    if given(p.designation) {
        seq![SqlValueView::Text(text_of(p.designation))]
    } else {
        Seq::empty()
    }
}

pub open spec fn age_min_values(p: StaffSearchParams) -> Seq<SqlValueView> {
    match p.age_min {
        Some(age) => seq![SqlValueView::Integer(age as int)],
        None => Seq::empty(),
    }
}

pub open spec fn age_max_values(p: StaffSearchParams) -> Seq<SqlValueView> {
    match p.age_max {
        Some(age) => seq![SqlValueView::Integer(age as int)],
        None => Seq::empty(),
    }
}

pub open spec fn nic_values(p: StaffSearchParams) -> Seq<SqlValueView> {
    if given(p.nic_number) {
        seq![
            SqlValueView::Text(text_of(p.nic_number)),
            SqlValueView::Text(text_of(p.nic_number)),
        ]
    } else {
        Seq::empty()
    }
}

pub open spec fn salary_code_values(p: StaffSearchParams) -> Seq<SqlValueView> {
    if given(p.salary_code) {
        seq![SqlValueView::Text(text_of(p.salary_code))]
    } else {
        Seq::empty()
    }
}

/// The values bound before the designation, the minimum age, the maximum
/// age, the identity card number and the salary code, in that order.
pub open spec fn values_before_designation(p: StaffSearchParams) -> Seq<SqlValueView> {
    term_values(p)
}

pub open spec fn values_before_age_min(p: StaffSearchParams) -> Seq<SqlValueView> {
    values_before_designation(p) + designation_values(p)
}

pub open spec fn values_before_age_max(p: StaffSearchParams) -> Seq<SqlValueView> {
    values_before_age_min(p) + age_min_values(p)
}

pub open spec fn values_before_nic(p: StaffSearchParams) -> Seq<SqlValueView> {
    values_before_age_max(p) + age_max_values(p)
}

pub open spec fn values_before_salary_code(p: StaffSearchParams) -> Seq<SqlValueView> {
    values_before_nic(p) + nic_values(p)
}

/// The values of a search, in the order of their placeholders.
pub open spec fn search_values(p: StaffSearchParams) -> Seq<SqlValueView> {
    values_before_salary_code(p) + salary_code_values(p)
}

/// A condition that compares one column with the placeholder that follows
/// `bound` values.
pub open spec fn single_condition(opening: Seq<char>, bound: nat) -> Seq<char> {
    opening + decimal_text(bound + 1)
}

pub open spec fn term_condition(p: StaffSearchParams) -> Seq<char> {
    if given(p.search_term) {
        TERM_CONDITION@
    } else {
        Seq::empty()
    }
}

pub open spec fn designation_condition(p: StaffSearchParams) -> Seq<char> {
    if given(p.designation) {
        single_condition(DESIGNATION_CONDITION@, values_before_designation(p).len())
    } else {
        Seq::empty()
    }
}

pub open spec fn age_min_condition(p: StaffSearchParams) -> Seq<char> {
    if p.age_min is Some {
        single_condition(AGE_MIN_CONDITION@, values_before_age_min(p).len())
    } else {
        Seq::empty()
    }
}

pub open spec fn age_max_condition(p: StaffSearchParams) -> Seq<char> {
    if p.age_max is Some {
        single_condition(AGE_MAX_CONDITION@, values_before_age_max(p).len())
    } else {
        Seq::empty()
    }
}

pub open spec fn nic_condition(p: StaffSearchParams) -> Seq<char> {
    if given(p.nic_number) {
        single_condition(NIC_CONDITION@, values_before_nic(p).len()) + single_condition(
            NIC_OLD_CONDITION@,
            values_before_nic(p).len() + 1,
        ) + NIC_CONDITION_END@
    } else {
        Seq::empty()
    }
}

pub open spec fn salary_code_condition(p: StaffSearchParams) -> Seq<char> {
    if given(p.salary_code) {
        single_condition(SALARY_CODE_CONDITION@, values_before_salary_code(p).len())
    } else {
        Seq::empty()
    }
}

/// The statement of a search.
pub open spec fn search_sql(p: StaffSearchParams) -> Seq<char> {
    SEARCH_SELECT@ + term_condition(p) + designation_condition(p) + age_min_condition(p)
        + age_max_condition(p) + nic_condition(p) + salary_code_condition(p) + SEARCH_ORDER@
}

fn is_given(field: &Option<String>) -> (b: bool)
    ensures
        b == given(*field),
{
    match field {
        Some(t) => !t.as_str().is_empty(),
        None => false,
    }
}

/// Appends a condition on one column, with the placeholder that follows the
/// values bound so far.
fn push_condition(sql: &mut String, opening: &str, bound: usize)
    requires
        bound < 16,
    ensures
        final(sql)@ == old(sql)@ + single_condition(opening@, bound as nat),
{
    sql.append(opening);
    let next: usize = bound + 1;
    push_decimal(sql, next as u64);
    assert(sql@ =~= old(sql)@ + single_condition(opening@, bound as nat));
}

/// Binds one more value.
fn bind(values: &mut Vec<SqlValue>, value: SqlValue)
    ensures
        values_of(final(values)@) == values_of(old(values)@).push(value@),
{
    values.push(value);
    assert(values_of(values@) =~= values_of(old(values)@).push(value@));
}

fn add_term(params: &StaffSearchParams, sql: &mut String, values: &mut Vec<SqlValue>)
    requires
        old(values)@.len() == 0,
    ensures
        final(sql)@ == old(sql)@ + term_condition(*params),
        values_of(final(values)@) == values_before_designation(*params),
{
    assert(values_of(values@) =~= Seq::<SqlValueView>::empty());
    if is_given(&params.search_term) {
        match &params.search_term {
            Some(term) => {
                sql.append(TERM_CONDITION);
                let mut pattern = String::from_str(LIKE_ANY);
                pattern.append(term.as_str());
                pattern.append(LIKE_ANY);
                bind(values, SqlValue::Text(pattern));
            },
            None => {},
        }
    }
    assert(sql@ =~= old(sql)@ + term_condition(*params));
    assert(values_of(values@) =~= values_before_designation(*params));
}

fn add_designation(params: &StaffSearchParams, sql: &mut String, values: &mut Vec<SqlValue>)
    requires
        values_of(old(values)@) == values_before_designation(*params),
    ensures
        final(sql)@ == old(sql)@ + designation_condition(*params),
        values_of(final(values)@) == values_before_age_min(*params),
{
    assert(values@.len() == values_of(values@).len());
    if is_given(&params.designation) {
        match &params.designation {
            Some(designation) => {
                push_condition(sql, DESIGNATION_CONDITION, values.len());
                bind(values, SqlValue::Text(designation.clone()));
            },
            None => {},
        }
    }
    assert(sql@ =~= old(sql)@ + designation_condition(*params));
    assert(values_of(values@) =~= values_before_age_min(*params));
}

fn add_age_min(params: &StaffSearchParams, sql: &mut String, values: &mut Vec<SqlValue>)
    requires
        values_of(old(values)@) == values_before_age_min(*params),
    ensures
        final(sql)@ == old(sql)@ + age_min_condition(*params),
        values_of(final(values)@) == values_before_age_max(*params),
{
    assert(values@.len() == values_of(values@).len());
    match params.age_min {
        Some(age) => {
            push_condition(sql, AGE_MIN_CONDITION, values.len());
            bind(values, SqlValue::Integer(age));
        },
        None => {},
    }
    assert(sql@ =~= old(sql)@ + age_min_condition(*params));
    assert(values_of(values@) =~= values_before_age_max(*params));
}

fn add_age_max(params: &StaffSearchParams, sql: &mut String, values: &mut Vec<SqlValue>)
    requires
        values_of(old(values)@) == values_before_age_max(*params),
    ensures
        final(sql)@ == old(sql)@ + age_max_condition(*params),
        values_of(final(values)@) == values_before_nic(*params),
{
    assert(values@.len() == values_of(values@).len());
    match params.age_max {
        Some(age) => {
            push_condition(sql, AGE_MAX_CONDITION, values.len());
            bind(values, SqlValue::Integer(age));
        },
        None => {},
    }
    assert(sql@ =~= old(sql)@ + age_max_condition(*params));
    assert(values_of(values@) =~= values_before_nic(*params));
}

fn add_nic(params: &StaffSearchParams, sql: &mut String, values: &mut Vec<SqlValue>)
    requires
        values_of(old(values)@) == values_before_nic(*params),
    ensures
        final(sql)@ == old(sql)@ + nic_condition(*params),
        values_of(final(values)@) == values_before_salary_code(*params),
{
    assert(values@.len() == values_of(values@).len());
    if is_given(&params.nic_number) {
        match &params.nic_number {
            Some(nic) => {
                push_condition(sql, NIC_CONDITION, values.len());
                push_condition(sql, NIC_OLD_CONDITION, values.len() + 1);
                sql.append(NIC_CONDITION_END);
                bind(values, SqlValue::Text(nic.clone()));
                bind(values, SqlValue::Text(nic.clone()));
            },
            None => {},
        }
    }
    assert(sql@ =~= old(sql)@ + nic_condition(*params));
    assert(values_of(values@) =~= values_before_salary_code(*params));
}

fn add_salary_code(params: &StaffSearchParams, sql: &mut String, values: &mut Vec<SqlValue>)
    requires
        values_of(old(values)@) == values_before_salary_code(*params),
    ensures
        final(sql)@ == old(sql)@ + salary_code_condition(*params),
        values_of(final(values)@) == search_values(*params),
{
    assert(values@.len() == values_of(values@).len());
    if is_given(&params.salary_code) {
        match &params.salary_code {
            Some(code) => {
                push_condition(sql, SALARY_CODE_CONDITION, values.len());
                bind(values, SqlValue::Text(code.clone()));
            },
            None => {},
        }
    }
    assert(sql@ =~= old(sql)@ + salary_code_condition(*params));
    assert(values_of(values@) =~= search_values(*params));
}

/// The statement and the values that find the staff matching `params`,
/// ordered by name.
pub fn search_query(params: &StaffSearchParams) -> (query: SearchQuery)
    ensures
        query.sql@ == search_sql(*params),
        values_of(query.values@) == search_values(*params),
{
    let mut sql = String::from_str(SEARCH_SELECT);
    let mut values: Vec<SqlValue> = Vec::new();
    add_term(params, &mut sql, &mut values);
    add_designation(params, &mut sql, &mut values);
    add_age_min(params, &mut sql, &mut values);
    add_age_max(params, &mut sql, &mut values);
    add_nic(params, &mut sql, &mut values);
    add_salary_code(params, &mut sql, &mut values);
    sql.append(SEARCH_ORDER);
    SearchQuery { sql, values }
}

/// A search is bound to at most seven values.
pub proof fn search_values_are_few(p: StaffSearchParams)
    ensures
        search_values(p).len() <= 7,
{
}

/// A search without parameters selects every row: no condition, no value.
pub proof fn empty_search_has_no_condition(p: StaffSearchParams)
    requires
        !given(p.search_term),
        !given(p.designation),
        p.age_min is None,
        p.age_max is None,
        !given(p.nic_number),
        !given(p.salary_code),
    ensures
        search_sql(p) == SEARCH_SELECT@ + SEARCH_ORDER@,
        search_values(p).len() == 0,
{
    assert(search_sql(p) =~= SEARCH_SELECT@ + SEARCH_ORDER@);
}

} // verus!
