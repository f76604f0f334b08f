//! Cutting a text to the width of a table column.
//!
//! Widths are counted in bytes of UTF-8. A text that fits is kept whole. A
//! longer one is cut three bytes short of the width and gets an ellipsis,
//! which is possible only where the cut falls between two characters.

use vstd::prelude::*;
use vstd::string::*;
use vstd::utf8::*;

verus! {

/// What marks a text that was cut.
pub const ELLIPSIS: &'static str = "...";

/// The number of bytes that are kept of a text cut to `max_length`.
pub open spec fn kept_bytes(max_length: nat) -> nat {
    if max_length >= 3 {
        (max_length - 3) as nat
    } else {
        0
    }
}

/// True when `text` takes at most `max_length` bytes.
pub open spec fn fits(text: Seq<char>, max_length: nat) -> bool {
    encode_utf8(text).len() <= max_length
}

/// True when `text` fits in `max_length` bytes or can be cut to them: the
/// cut does not fall inside a character.
pub open spec fn can_truncate(text: Seq<char>, max_length: nat) -> bool {
    fits(text, max_length) || is_char_boundary(encode_utf8(text), kept_bytes(max_length) as int)
}

/// `text` as it is shown in a column of `max_length` bytes.
pub open spec fn truncated(text: Seq<char>, max_length: nat) -> Seq<char> {
    if fits(text, max_length) {
        text
    } else {
        decode_utf8(encode_utf8(text).subrange(0, kept_bytes(max_length) as int)) + ELLIPSIS@
    }
}

fn kept(max_length: usize) -> (keep: usize)
    ensures
        keep == kept_bytes(max_length as nat),
{
    if max_length >= 3 {
        max_length - 3
    } else {
        0
    }
}

/// The number of bytes that `text` takes.
fn byte_length(text: &str) -> (len: usize)
    ensures
        len == encode_utf8(text@).len(),
{
    text.as_bytes().len()
}

/// Tells whether `truncate_text` can be asked for `text` at `max_length`.
pub fn is_truncatable(text: &str, max_length: usize) -> (possible: bool)
    ensures
        possible == can_truncate(text@, max_length as nat),
{
    byte_length(text) <= max_length || text.is_char_boundary(kept(max_length))
}

/// Keeps a text that fits in `max_length` bytes, and cuts a longer one three
/// bytes short of them and adds an ellipsis.
pub fn truncate_text(text: &str, max_length: usize) -> (out: String)
    requires
        can_truncate(text@, max_length as nat),
    ensures
        out@ == truncated(text@, max_length as nat),
{
    if byte_length(text) <= max_length {
        String::from_str(text)
    } else {
        let (head, _) = text.split_at(kept(max_length));
        proof {
            encode_utf8_decode_utf8(head@);
        }
        let mut out = String::from_str(head);
        out.append(ELLIPSIS);
        out
    }
}

/// What is kept of a text that was cut is the beginning of that text.
pub proof fn cut_keeps_a_prefix(text: Seq<char>, max_length: nat)
    requires
        can_truncate(text, max_length),
        !fits(text, max_length),
    ensures
        exists|n: int|
            0 <= n <= text.len() && #[trigger] text.take(n) + ELLIPSIS@ == truncated(
                text,
                max_length,
            ),
{
    let bytes = encode_utf8(text);
    let keep = kept_bytes(max_length) as int;
    let head = decode_utf8(bytes.subrange(0, keep));
    let tail = decode_utf8(bytes.subrange(keep, bytes.len() as int));
    encode_utf8_valid_utf8(text);
    encode_utf8_decode_utf8(text);
    decode_utf8_split(bytes, keep);
    assert(text =~= head + tail);
    let n = head.len() as int;
    assert(text.take(n) =~= head);
    assert(text.take(n) + ELLIPSIS@ == truncated(text, max_length));
}

/// The bytes of two texts, one after the other, are the bytes of the two
/// texts one after the other.
pub proof fn bytes_of_joined_texts(first: Seq<char>, second: Seq<char>)
    ensures
        encode_utf8(first + second) == encode_utf8(first) + encode_utf8(second),
    decreases first.len(),
{
    if first.len() == 0 {
        assert(first + second =~= second);
        assert(encode_utf8(first) + encode_utf8(second) =~= encode_utf8(second));
    } else {
        let whole = first + second;
        assert(whole[0] == first[0]);
        assert(whole.drop_first() =~= first.drop_first() + second);
        bytes_of_joined_texts(first.drop_first(), second);
        assert(encode_utf8(whole) =~= encode_utf8(first) + encode_utf8(second));
    }
}

/// A text that was cut to a width of three bytes or more takes exactly that
/// width; whatever `truncate_text` returns for such a width fits it.
pub proof fn cut_text_fills_the_width(text: Seq<char>, max_length: nat)
    requires
        can_truncate(text, max_length),
        max_length >= 3,
    ensures
        !fits(text, max_length) ==> encode_utf8(truncated(text, max_length)).len() == max_length,
        fits(truncated(text, max_length), max_length),
{
    if !fits(text, max_length) {
        let bytes = encode_utf8(text);
        let keep = kept_bytes(max_length) as int;
        let head = bytes.subrange(0, keep);
        encode_utf8_valid_utf8(text);
        valid_utf8_split(bytes, keep);
        decode_utf8_encode_utf8(head);
        bytes_of_joined_texts(decode_utf8(head), ELLIPSIS@);
        reveal_strlit("...");
        assert(is_ascii_chars(ELLIPSIS@));
        is_ascii_chars_encode_utf8(ELLIPSIS@);
    }
}

/// A text of ASCII characters can be cut anywhere, and cutting it keeps its
/// first characters, three fewer than the width.
pub proof fn ascii_text_is_cut_by_characters(text: Seq<char>, max_length: nat)
    requires
        is_ascii_chars(text),
    ensures
        can_truncate(text, max_length),
        fits(text, max_length) <==> text.len() <= max_length,
        text.len() > max_length ==> truncated(text, max_length) == text.take(
            kept_bytes(max_length) as int,
        ) + ELLIPSIS@,
{
    let bytes = encode_utf8(text);
    let keep = kept_bytes(max_length) as int;
    is_ascii_chars_encode_utf8(text);
    encode_utf8_valid_utf8(text);
    if text.len() > max_length {
        let head = text.take(keep);
        assert(is_ascii_chars(head));
        is_ascii_chars_encode_utf8(head);
        assert(encode_utf8(head) =~= bytes.subrange(0, keep));
        encode_utf8_decode_utf8(head);
        if keep == 0 {
            is_char_boundary_start_end_of_seq(bytes);
        } else {
            assert(text[keep] as u8 == bytes[keep]);
            assert('\0' <= text[keep] <= '\u{7f}');
            assert(!is_continuation_byte(bytes[keep]));
            is_char_boundary_iff_not_is_continuation_byte(bytes, keep);
        }
    }
}

} // verus!
