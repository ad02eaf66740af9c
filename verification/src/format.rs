//! Human-readable byte-count and rate formatting.
//!
//! A byte count is rendered by the byte-size formatter (value plus 1000-based
//! unit, e.g. `1.5 KB`), then lowercased and stripped of spaces (`1.5kb`);
//! a rate additionally carries a `/s` suffix.

use vstd::prelude::*;
use crate::strutil::{chars_to_string, str_chars};

verus! {

/// The text the byte-size formatter produces for a count, e.g. `1.5 KB`:
/// a function of the count alone.
pub uninterp spec fn bytesize_text_of(v: u64) -> Seq<char>;

/// Relies on `bytesize::to_string(v, false)` (via `ByteSize::to_string_as`):
/// renders the count with 1000-based units, depending on the count alone.
#[verifier::external_body]
fn bytesize_text(v: u64) -> (r: String)
    ensures
        r@ == bytesize_text_of(v),
{
    bytesize::ByteSize(v).to_string_as(false)
}

/// The lowercase form of a string: depends on the characters alone.
pub uninterp spec fn lower_of(s: Seq<char>) -> Seq<char>;

/// An ASCII uppercase letter.
pub open spec fn is_ascii_upper(c: char) -> bool {
    65 <= c as u32 && c as u32 <= 90
}

/// Relies on `str::to_lowercase`: the Unicode lowercase mapping of the
/// characters, a function of the characters alone; since every character of
/// the result is a lowercase mapping, none is an ASCII uppercase letter.
#[verifier::external_body]
fn to_lower(s: &str) -> (r: String)
    ensures
        r@ == lower_of(s@),
        forall|i: int| 0 <= i < r@.len() ==> !is_ascii_upper(#[trigger] r@[i]),
{
    s.to_lowercase()
}

/// A space character.
pub open spec fn is_space(c: char) -> bool {
    c == ' '
}

/// The string with every space removed.
pub open spec fn without_spaces(s: Seq<char>) -> Seq<char> {
    s.filter(|c: char| !is_space(c))
}

/// Remove every space from a string.
fn strip_spaces(s: &str) -> (r: String)
    ensures
        r@ == without_spaces(s@),
{
    let cs = str_chars(s);
    let mut out: Vec<char> = Vec::new();
    let mut i: usize = 0;
    while i < cs.len()
        invariant
            i <= cs@.len(),
            cs@ == s@,
            out@ == without_spaces(s@.take(i as int)),
        decreases cs@.len() - i,
    {
        let c = cs[i];
        if c != ' ' {
            out.push(c);
        }
        proof {
            reveal_with_fuel(Seq::<char>::filter, 2);
            assert(s@.take(i + 1).drop_last() =~= s@.take(i as int));
            assert(s@.take(i + 1).last() == s@[i as int]);
        }
        i += 1;
    }
    proof {
        assert(s@.take(cs@.len() as int) =~= s@);
    }
    chars_to_string(&out)
}

/// Removing the spaces keeps no space and invents no character: every
/// character of the result is a non-space character of the input.
proof fn lemma_without_spaces_shape(s: Seq<char>)
    ensures
        forall|i: int| 0 <= i < without_spaces(s).len() ==> #[trigger] without_spaces(s)[i] != ' ',
        forall|i: int|
            0 <= i < without_spaces(s).len() ==> s.contains(#[trigger] without_spaces(s)[i]),
    decreases s.len(),
{
    reveal_with_fuel(Seq::<char>::filter, 2);
    if s.len() > 0 {
        lemma_without_spaces_shape(s.drop_last());
        assert(forall|i: int|
            0 <= i < s.drop_last().len() && s.drop_last().contains(#[trigger] s.drop_last()[i])
                ==> s.contains(s.drop_last()[i]));
        assert(forall|i: int|
            0 <= i < without_spaces(s.drop_last()).len() ==> s.contains(
                #[trigger] without_spaces(s.drop_last())[i],
            ));
        if !is_space(s.last()) {
            assert(without_spaces(s) == without_spaces(s.drop_last()).push(s.last()));
            assert(s.contains(s.last()));
        }
    }
}

/// What the byte-count formatter returns: the byte-size text, lowercased,
/// with spaces removed.
pub open spec fn format_byte_spec(v: u64) -> Seq<char> {
    without_spaces(lower_of(bytesize_text_of(v)))
}

/// Format a byte count, e.g. `1.5kb`: the text never holds a space nor an
/// ASCII uppercase letter.
pub fn format_byte(value: u64) -> (r: String)
    ensures
        r@ == format_byte_spec(value),
        forall|i: int| 0 <= i < r@.len() ==> #[trigger] r@[i] != ' ' && !is_ascii_upper(r@[i]),
{
    let t = bytesize_text(value);
    let l = to_lower(t.as_str());
    let r = strip_spaces(l.as_str());
    proof {
        lemma_without_spaces_shape(lower_of(bytesize_text_of(value)));
    }
    r
}

/// What the rate formatter returns: the formatted byte count with `/s`.
pub open spec fn rate_text(v: u64) -> Seq<char> {
    format_byte_spec(v) + "/s"@
}

/// Format a throughput rate, e.g. `1.5kb/s`: the text never holds a space
/// nor an ASCII uppercase letter.
pub fn format_rate(value: u64) -> (r: String)
    ensures
        r@ == rate_text(value),
        forall|i: int| 0 <= i < r@.len() ==> #[trigger] r@[i] != ' ' && !is_ascii_upper(r@[i]),
{
    let mut r = format_byte(value);
    r.append("/s");
    proof {
        reveal_strlit("/s");
    }
    r
}

} // verus!
