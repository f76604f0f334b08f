//! Showing a sum of money.
//!
//! A sum arrives as decimal text with a point, such as `1234567.50`. It is
//! shown with the currency in front and the part before the point in groups
//! of three, counted from the point: `Rs. 1,234,567.50`.

use vstd::prelude::*;
use vstd::string::*;
use crate::text::chars_of;
use crate::text::push_char;
use crate::text::push_range;

verus! {

/// What stands in front of every sum.
pub const CURRENCY: &'static str = "Rs. ";

/// The fraction shown for a sum that was written without a point.
pub const NO_FRACTION: &'static str = "00";

/// The place of the first point of `text` at or after `from`, or the length
/// of `text` where there is none.
pub open spec fn next_point(text: Seq<char>, from: int) -> int
    decreases text.len() - from,
{
    if from >= text.len() {
        text.len() as int
    } else if text[from] == '.' {
        from
    } else {
        next_point(text, from + 1)
    }
}

/// The part of `text` before its first point.
pub open spec fn whole_part(text: Seq<char>) -> Seq<char> {
    text.subrange(0, next_point(text, 0))
}

/// The part of `text` between its first point and its second, or its end;
/// two zeros where `text` has no point.
pub open spec fn fraction_part(text: Seq<char>) -> Seq<char> {
    let point = next_point(text, 0);
    if point >= text.len() {
        NO_FRACTION@
    } else {
        text.subrange(point + 1, next_point(text, point + 1))
    }
}

/// True when a group ends before place `i` of a text of `len` characters:
/// the characters from `i` on fall into whole groups of three.
pub open spec fn group_ends_before(len: int, i: int) -> bool {
    i > 0 && (len - i) % 3 == 0
}

/// The first `n` characters of `digits`, with a comma wherever a group ends.
pub open spec fn grouped_prefix(digits: Seq<char>, n: int) -> Seq<char>
    decreases n,
{
    if n <= 0 {
        Seq::empty()
    } else if group_ends_before(digits.len() as int, n - 1) {
        grouped_prefix(digits, n - 1).push(',').push(digits[n - 1])
    } else {
        grouped_prefix(digits, n - 1).push(digits[n - 1])
    }
}

/// `digits` in groups of three, counted from the right and parted by commas.
pub open spec fn grouped(digits: Seq<char>) -> Seq<char> {
    grouped_prefix(digits, digits.len() as int)
}

/// A sum as it is shown.
pub open spec fn currency_text(amount: Seq<char>) -> Seq<char> {
    CURRENCY@ + grouped(whole_part(amount)) + seq!['.'] + fraction_part(amount)
}

/// The first point at or after `from`.
fn find_point(chars: &Vec<char>, from: usize) -> (at: usize)
    requires
        from <= chars.len(),
    ensures
        at == next_point(chars@, from as int),
        from <= at <= chars.len(),
{
    let mut at: usize = from;
    while at < chars.len() && chars[at] != '.'
        invariant
            from <= at <= chars.len(),
            next_point(chars@, at as int) == next_point(chars@, from as int),
        decreases chars.len() - at,
    {
        at = at + 1;
    }
    at
}

/// Appends the first `len` characters of `chars` in groups of three.
fn push_grouped(out: &mut String, chars: &Vec<char>, len: usize)
    requires
        len <= chars.len(),
    ensures
        final(out)@ == old(out)@ + grouped(chars@.subrange(0, len as int)),
{
    let ghost digits = chars@.subrange(0, len as int);
    let mut i: usize = 0;
    assert(old(out)@ + grouped_prefix(digits, 0) =~= old(out)@);
    while i < len
        invariant
            i <= len <= chars.len(),
            digits == chars@.subrange(0, len as int),
            out@ == old(out)@ + grouped_prefix(digits, i as int),
        decreases len - i,
    {
        let ghost before = out@;
        if i > 0 && (len - i) % 3 == 0 {
            push_char(out, ',');
        }
        push_char(out, chars[i]);
        assert(digits[i as int] == chars@[i as int]);
        assert(out@ =~= old(out)@ + grouped_prefix(digits, i + 1));
        i = i + 1;
    }
}

/// Shows a sum of money: the currency, the part before the point in groups
/// of three, a point, and the fraction as it was written.
pub fn format_currency(amount: &str) -> (out: String)
    ensures
        out@ == currency_text(amount@),
{
    let chars = chars_of(amount);
    let point = find_point(&chars, 0);
    let mut out = String::from_str(CURRENCY);
    push_grouped(&mut out, &chars, point);
    push_char(&mut out, '.');
    if point >= chars.len() {
        out.append(NO_FRACTION);
    } else {
        let end = find_point(&chars, point + 1);
        push_range(&mut out, &chars, point + 1, end);
    }
    out
}

/// No point stands before the first point, and a point stands at it unless
/// the text has run out.
pub proof fn next_point_is_first(text: Seq<char>, from: int)
    requires
        0 <= from <= text.len(),
    ensures
        from <= next_point(text, from) <= text.len(),
        forall|i: int| from <= i < next_point(text, from) ==> #[trigger] text[i] != '.',
        next_point(text, from) < text.len() ==> text[next_point(text, from)] == '.',
    decreases text.len() - from,
{
    if from < text.len() && text[from] != '.' {
        next_point_is_first(text, from + 1);
    }
}

/// The commas that grouping has put before the first `n` of `len`
/// characters: one for each full group of three among those that follow.
pub open spec fn commas_before(len: int, n: int) -> int {
    if n <= 0 {
        0
    } else {
        (len - 1) / 3 - (len - n) / 3
    }
}

/// Grouping the first `n` characters adds the commas before them and
/// nothing else.
pub proof fn grouped_prefix_length(digits: Seq<char>, n: int)
    requires
        0 <= n <= digits.len(),
    ensures
        grouped_prefix(digits, n).len() == n + commas_before(digits.len() as int, n),
    decreases n,
{
    if n > 0 {
        grouped_prefix_length(digits, n - 1);
    }
}

/// A grouped text is longer than the text by one comma for every three
/// characters that have a character before them.
pub proof fn grouped_length(digits: Seq<char>)
    requires
        digits.len() > 0,
    ensures
        grouped(digits).len() == digits.len() + (digits.len() - 1) / 3,
{
    grouped_prefix_length(digits, digits.len() as int);
}

/// `text` without its commas.
pub open spec fn without_commas(text: Seq<char>) -> Seq<char>
    decreases text.len(),
{
    if text.len() == 0 {
        Seq::empty()
    } else if text.last() == ',' {
        without_commas(text.drop_last())
    } else {
        without_commas(text.drop_last()).push(text.last())
    }
}

/// Grouping adds commas and changes nothing else: without them, what is
/// left of the first `n` characters is those characters.
pub proof fn grouped_prefix_keeps_the_text(digits: Seq<char>, n: int)
    requires
        0 <= n <= digits.len(),
        !digits.contains(','),
    ensures
        without_commas(grouped_prefix(digits, n)) == digits.take(n),
    decreases n,
{
    if n <= 0 {
        assert(digits.take(n) =~= Seq::<char>::empty());
    } else {
        grouped_prefix_keeps_the_text(digits, n - 1);
        let before = grouped_prefix(digits, n - 1);
        let c = digits[n - 1];
        assert(digits.contains(c));
        assert(digits.take(n) =~= digits.take(n - 1).push(c));
        if group_ends_before(digits.len() as int, n - 1) {
            let parted = before.push(',');
            assert(parted.last() == ',');
            assert(parted.drop_last() =~= before);
            assert(without_commas(parted) == without_commas(before));
            assert(parted.push(c).last() == c);
            assert(parted.push(c).drop_last() =~= parted);
        } else {
            assert(before.push(c).last() == c);
            assert(before.push(c).drop_last() =~= before);
        }
    }
}

/// A grouped text without its commas is the text that was grouped.
pub proof fn grouped_keeps_the_text(digits: Seq<char>)
    requires
        !digits.contains(','),
    ensures
        without_commas(grouped(digits)) == digits,
{
    grouped_prefix_keeps_the_text(digits, digits.len() as int);
    assert(digits.take(digits.len() as int) =~= digits);
}

/// Up to three characters are shown as they are.
pub proof fn short_text_is_not_grouped(digits: Seq<char>)
    requires
        digits.len() <= 3,
    ensures
        grouped(digits) == digits,
{
    reveal_with_fuel(grouped_prefix, 4);
    assert(grouped(digits) =~= digits);
}

} // verus!
