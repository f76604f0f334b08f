//! Filling a text template.
//!
//! A template is ordinary text in which `{}` marks a hole, `{{` stands for
//! one `{` and `}}` for one `}`. Rendering walks the template from left to
//! right and puts the values into the holes in the order in which they are
//! given. A hole for which no value is left stays empty, values for which no
//! hole is left are not used, and a brace that belongs to none of the three
//! pairs is written as it stands.

use vstd::prelude::*;
use vstd::string::*;
use crate::text::chars_of;
use crate::text::push_char;
use crate::text::texts_of;

verus! {

/// True when a pair of `first` and then `second` starts `template`.
pub open spec fn starts_with_pair(template: Seq<char>, first: char, second: char) -> bool {
    template.len() >= 2 && template[0] == first && template[1] == second
}

/// The text that `template` becomes once `values` fill its holes.
pub open spec fn rendered(template: Seq<char>, values: Seq<Seq<char>>) -> Seq<char>
    decreases template.len(),
{
    if template.len() == 0 {
        Seq::empty()
    } else if starts_with_pair(template, '{', '{') {
        seq!['{'] + rendered(template.skip(2), values)
    } else if starts_with_pair(template, '}', '}') {
        seq!['}'] + rendered(template.skip(2), values)
    } else if starts_with_pair(template, '{', '}') {
        if values.len() > 0 {
            values[0] + rendered(template.skip(2), values.skip(1))
        } else {
            rendered(template.skip(2), values)
        }
    } else {
        seq![template[0]] + rendered(template.skip(1), values)
    }
}

/// Renders `template` with `values`.
pub fn render(template: &str, values: &Vec<String>) -> (out: String)
    ensures
        out@ == rendered(template@, texts_of(values@)),
{
    let t = chars_of(template);
    let ghost all = texts_of(values@);
    let mut out = String::new();
    let mut i: usize = 0;
    let mut k: usize = 0;
    assert(t@.skip(0) =~= t@);
    assert(all.skip(0) =~= all);
    assert(out@ + rendered(t@, all) =~= rendered(t@, all));
    while i < t.len()
        invariant
            i <= t.len(),
            k <= values.len(),
            t@ == template@,
            all == texts_of(values@),
            out@ + rendered(t@.skip(i as int), all.skip(k as int)) == rendered(t@, all),
        decreases t.len() - i,
    {
        let c = t[i];
        let ghost rest = t@.skip(i as int);
        let ghost left = all.skip(k as int);
        let ghost before = out@;
        assert(rest.len() == t.len() - i);
        assert(rest[0] == c);
        let paired = i + 1 < t.len();
        assert(paired ==> rest[1] == t@[i + 1]);
        if paired && c == '{' && t[i + 1] == '{' {
            push_char(&mut out, '{');
            assert(rest.skip(2) =~= t@.skip(i + 2));
            assert(out@ + rendered(rest.skip(2), left) =~= before + rendered(rest, left));
            i = i + 2;
        } else if paired && c == '}' && t[i + 1] == '}' {
            push_char(&mut out, '}');
            assert(rest.skip(2) =~= t@.skip(i + 2));
            assert(out@ + rendered(rest.skip(2), left) =~= before + rendered(rest, left));
            i = i + 2;
        } else if paired && c == '{' && t[i + 1] == '}' {
            assert(rest.skip(2) =~= t@.skip(i + 2));
            if k < values.len() {
                out.append(values[k].as_str());
                assert(left[0] == values@[k as int]@);
                assert(left.skip(1) =~= all.skip(k + 1));
                assert(out@ + rendered(rest.skip(2), left.skip(1)) =~= before + rendered(
                    rest,
                    left,
                ));
                k = k + 1;
            } else {
                assert(left.len() == 0);
            }
            i = i + 2;
        } else {
            push_char(&mut out, c);
            assert(rest.skip(1) =~= t@.skip(i + 1));
            assert(out@ + rendered(rest.skip(1), left) =~= before + rendered(rest, left));
            i = i + 1;
        }
    }
    assert(t@.skip(i as int).len() == 0);
    assert(out@ + Seq::<char>::empty() =~= out@);
    out
}

/// True when `text` holds neither `{` nor `}`.
pub open spec fn brace_free(text: Seq<char>) -> bool {
    forall|i: int| 0 <= i < text.len() ==> #[trigger] text[i] != '{' && text[i] != '}'
}

/// Text without braces renders as itself, whatever the values.
pub proof fn plain_text_renders_as_itself(text: Seq<char>, values: Seq<Seq<char>>)
    requires
        brace_free(text),
    ensures
        rendered(text, values) == text,
    decreases text.len(),
{
    if text.len() > 0 {
        plain_text_renders_as_itself(text.skip(1), values);
        assert(seq![text[0]] + text.skip(1) =~= text);
    }
}

/// Plain text in front of a template comes out unchanged in front of what
/// the rest of the template renders to.
pub proof fn plain_prefix_is_kept(prefix: Seq<char>, rest: Seq<char>, values: Seq<Seq<char>>)
    requires
        brace_free(prefix),
    ensures
        rendered(prefix + rest, values) == prefix + rendered(rest, values),
    decreases prefix.len(),
{
    if prefix.len() == 0 {
        assert(prefix + rest =~= rest);
        assert(prefix + rendered(rest, values) =~= rendered(rest, values));
    } else {
        let whole = prefix + rest;
        assert(whole[0] == prefix[0]);
        assert(whole.skip(1) =~= prefix.skip(1) + rest);
        plain_prefix_is_kept(prefix.skip(1), rest, values);
        assert(seq![prefix[0]] + (prefix.skip(1) + rendered(rest, values)) =~= prefix + rendered(
            rest,
            values,
        ));
    }
}

/// A hole at the start of a template takes the first value; the rest of the
/// template is rendered with the values that follow.
pub proof fn hole_takes_first_value(rest: Seq<char>, first: Seq<char>, others: Seq<Seq<char>>)
    ensures
        rendered(seq!['{', '}'] + rest, seq![first] + others) == first + rendered(rest, others),
{
    let template = seq!['{', '}'] + rest;
    let values = seq![first] + others;
    assert(starts_with_pair(template, '{', '}'));
    assert(!starts_with_pair(template, '{', '{'));
    assert(!starts_with_pair(template, '}', '}'));
    assert(template.skip(2) =~= rest);
    assert(values.skip(1) =~= others);
    assert(values[0] == first);
}

} // verus!
