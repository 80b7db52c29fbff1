//! Text helpers shared by the validation passes: comparison, prefix tests,
//! trimming and joining, each with a contract over `Seq<char>`.

use vstd::prelude::*;
use vstd::string::*;
use vstd::utf8::{decode_utf8, encode_utf8_decode_utf8};

verus! {

/// The White_Space property of a character, as `char::is_whitespace` of the
/// standard library understands it.
pub uninterp spec fn white_space(c: char) -> bool;

/// `s` without its leading white space.
pub open spec fn trimmed_start(s: Seq<char>) -> Seq<char>
    decreases s.len(),
{
    if s.len() > 0 && white_space(s.first()) {
        trimmed_start(s.drop_first())
    } else {
        s
    }
}

/// `s` without its trailing white space.
pub open spec fn trimmed_end(s: Seq<char>) -> Seq<char>
    decreases s.len(),
{
    if s.len() > 0 && white_space(s.last()) {
        trimmed_end(s.drop_last())
    } else {
        s
    }
}

/// `s` without leading and trailing white space.
pub open spec fn trimmed(s: Seq<char>) -> Seq<char> {
    trimmed_end(trimmed_start(s))
}

/// A result with both sides taken by their values.
pub open spec fn result_view<T: View, E: View>(result: Result<T, E>) -> Result<T::V, E::V> {
    match result {
        Ok(value) => Ok(value@),
        Err(error) => Err(error@),
    }
}

/// The items of `parts` in order, with `sep` between neighbours.
pub open spec fn joined(parts: Seq<Seq<char>>, sep: Seq<char>) -> Seq<char>
    decreases parts.len(),
{
    if parts.len() == 0 {
        Seq::empty()
    } else if parts.len() == 1 {
        parts[0]
    } else {
        joined(parts.drop_last(), sep) + sep + parts.last()
    }
}

/// The second part of the first pair, from index `from` on, whose first part
/// is `key`.
pub open spec fn paired_value_from(
    pairs: Seq<(Seq<char>, Seq<char>)>,
    key: Seq<char>,
    from: int,
) -> Option<Seq<char>>
    decreases pairs.len() - from,
{
    if from < 0 || from >= pairs.len() {
        None
    } else if pairs[from].0 == key {
        Some(pairs[from].1)
    } else {
        paired_value_from(pairs, key, from + 1)
    }
}

/// The value that `pairs` holds for `key`: the second part of the first pair
/// whose first part is `key`.
pub open spec fn paired_value(pairs: Seq<(Seq<char>, Seq<char>)>, key: Seq<char>) -> Option<
    Seq<char>,
> {
    paired_value_from(pairs, key, 0)
}

/// A key that no pair holds has no value; a key that a pair holds has the
/// value of the first such pair.
pub proof fn paired_value_is_first_match(
    pairs: Seq<(Seq<char>, Seq<char>)>,
    key: Seq<char>,
    from: int,
)
    requires
        0 <= from,
    ensures
        match paired_value_from(pairs, key, from) {
            Some(value) => exists|i: int|
                from <= i < pairs.len() && (#[trigger] pairs[i]).0 == key && pairs[i].1 == value
                    && forall|j: int| from <= j < i ==> (#[trigger] pairs[j]).0 != key,
            None => forall|j: int| from <= j < pairs.len() ==> (#[trigger] pairs[j]).0 != key,
        },
    decreases pairs.len() - from,
{
    if from < pairs.len() && pairs[from].0 != key {
        paired_value_is_first_match(pairs, key, from + 1);
        if let Some(value) = paired_value_from(pairs, key, from + 1) {
            let i = choose|i: int|
                from + 1 <= i < pairs.len() && (#[trigger] pairs[i]).0 == key && pairs[i].1
                    == value && forall|j: int| from + 1 <= j < i ==> (#[trigger] pairs[j]).0 != key;
            assert(from <= i < pairs.len() && pairs[i].0 == key && pairs[i].1 == value
                && forall|j: int| from <= j < i ==> (#[trigger] pairs[j]).0 != key);
        }
    } else if from < pairs.len() {
        assert(pairs[from].0 == key);
    }
}

/// Calls `char::is_whitespace`. Trusted: the result is the White_Space
/// property of `c`, which depends on `c` alone.
#[verifier::external_body]
fn is_whitespace(c: char) -> (r: bool)
    ensures
        r == white_space(c),
{
    c.is_whitespace()
}

/// Leading white space ends at the first character that has none of it.
pub proof fn trimmed_start_is_suffix(s: Seq<char>, start: int)
    requires
        0 <= start <= s.len(),
        forall|j: int| 0 <= j < start ==> white_space(#[trigger] s[j]),
        start < s.len() ==> !white_space(s[start]),
    ensures
        trimmed_start(s) == s.subrange(start, s.len() as int),
    decreases start,
{
    if start == 0 {
        assert(s.subrange(0, s.len() as int) =~= s);
    } else {
        let rest = s.drop_first();
        assert forall|j: int| 0 <= j < start - 1 implies white_space(#[trigger] rest[j]) by {
            assert(rest[j] == s[j + 1]);
        }
        trimmed_start_is_suffix(rest, start - 1);
        assert(rest.subrange(start - 1, rest.len() as int) =~= s.subrange(start, s.len() as int));
    }
}

/// Trailing white space begins behind the last character that has none of
/// it.
pub proof fn trimmed_end_is_prefix(s: Seq<char>, end: int)
    requires
        0 <= end <= s.len(),
        forall|j: int| end <= j < s.len() ==> white_space(#[trigger] s[j]),
        end > 0 ==> !white_space(s[end - 1]),
    ensures
        trimmed_end(s) == s.subrange(0, end),
    decreases s.len() - end,
{
    if end == s.len() {
        assert(s.subrange(0, end) =~= s);
    } else {
        let rest = s.drop_last();
        trimmed_end_is_prefix(rest, end);
        assert(rest.subrange(0, end) =~= s.subrange(0, end));
    }
}

/// The part of `s` that is left when leading and trailing white space is
/// taken away.
pub fn trim(s: &str) -> (r: &str)
    ensures
        r@ == trimmed(s@),
{
    let total = s.unicode_len();
    // The first character that is no white space, and the place behind the
    // last one, once such a character was seen.
    let mut start: usize = 0;
    let mut end: usize = 0;
    let mut seen = false;
    let mut i: usize = 0;
    for c in it: s.chars()
        invariant
            it.seq() == s@,
            i == it.index(),
            total == s@.len(),
            !seen ==> start == 0 && end == 0,
            seen ==> start < end <= i && !white_space(s@[start as int]) && !white_space(
                s@[end - 1],
            ),
            forall|j: int| 0 <= j < (if seen { start } else { i }) ==> white_space(#[trigger] s@[j]),
            forall|j: int| seen && end <= j < i ==> white_space(#[trigger] s@[j]),
    {
        if !is_whitespace(c) {
            if !seen {
                start = i;
                seen = true;
            }
            end = i + 1;
        }
        i = i + 1;
    }
    proof {
        if seen {
            trimmed_start_is_suffix(s@, start as int);
            let rest = s@.subrange(start as int, total as int);
            trimmed_end_is_prefix(rest, end - start);
            assert(rest.subrange(0, end - start) =~= s@.subrange(start as int, end as int));
        } else {
            trimmed_start_is_suffix(s@, total as int);
            let rest = s@.subrange(total as int, total as int);
            assert(rest =~= s@.subrange(0, 0));
        }
    }
    s.substring_char(start, end)
}

/// Whether two texts hold the same characters.
pub fn same_text(a: &str, b: &str) -> (r: bool)
    ensures
        r == (a@ == b@),
{
    let left = a.as_bytes();
    let right = b.as_bytes();
    proof {
        // Texts are the same exactly if their encodings are.
        encode_utf8_decode_utf8(a@);
        encode_utf8_decode_utf8(b@);
    }
    if left.len() != right.len() {
        return false;
    }
    let mut i: usize = 0;
    while i < left.len()
        invariant
            i <= left.len(),
            left.len() == right.len(),
            left@ == a.spec_bytes(),
            right@ == b.spec_bytes(),
            decode_utf8(a.spec_bytes()) == a@,
            decode_utf8(b.spec_bytes()) == b@,
            forall|j: int| 0 <= j < i ==> left@[j] == right@[j],
        decreases left.len() - i,
    {
        if left[i] != right[i] {
            return false;
        }
        i = i + 1;
    }
    assert(left@ =~= right@);
    true
}

/// The value that `pairs` holds for `key`.
pub fn lookup<'a>(pairs: &'a Vec<(String, String)>, key: &str) -> (value: Option<&'a String>)
    ensures
        match value {
            Some(text) => paired_value(pairs.deep_view(), key@) == Some(text@),
            None => paired_value(pairs.deep_view(), key@) is None,
        },
{
    let mut i: usize = 0;
    while i < pairs.len()
        invariant
            i <= pairs.len(),
            paired_value(pairs.deep_view(), key@) == paired_value_from(
                pairs.deep_view(),
                key@,
                i as int,
            ),
        decreases pairs.len() - i,
    {
        assert(pairs.deep_view()[i as int] == (pairs@[i as int].0@, pairs@[i as int].1@));
        if same_text(pairs[i].0.as_str(), key) {
            return Some(&pairs[i].1);
        }
        i = i + 1;
    }
    None
}

/// Whether `s` begins with `prefix`.
pub fn starts_with(s: &str, prefix: &str) -> (r: bool)
    ensures
        r == prefix@.is_prefix_of(s@),
{
    let n = prefix.unicode_len();
    if s.unicode_len() < n {
        false
    } else {
        let head = s.substring_char(0, n);
        same_text(head, prefix)
    }
}

/// Joins `parts` with `sep` between neighbours.
pub fn join(parts: &Vec<String>, sep: &str) -> (r: String)
    ensures
        r@ == joined(parts.deep_view(), sep@),
{
    let mut out = String::new();
    let mut i: usize = 0;
    while i < parts.len()
        invariant
            i <= parts.len(),
            out@ == joined(parts.deep_view().take(i as int), sep@),
        decreases parts.len() - i,
    {
        proof {
            let all = parts.deep_view();
            let next = all.take(i + 1);
            assert(next.drop_last() =~= all.take(i as int));
            assert(next.last() == parts@[i as int]@);
            if i > 0 {
                assert(all.take(i as int).len() > 0);
            } else {
                assert(Seq::<char>::empty() + parts@[0]@ =~= parts@[0]@);
            }
        }
        if i > 0 {
            out.append(sep);
        }
        out.append(parts[i].as_str());
        i = i + 1;
    }
    proof {
        assert(parts.deep_view().take(parts.len() as int) =~= parts.deep_view());
    }
    out
}

} // verus!
