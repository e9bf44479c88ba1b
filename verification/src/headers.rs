//! Request-header handling: case-insensitive header lookup, decimal parsing
//! of the bounding-box headers, and the choice of inference engine.

use vstd::prelude::*;
use vstd::string::{StrSliceExecFns, StringExecFns};

verus! {

/// ASCII-case-insensitive code of one character: the code of `c`, with an
/// upper-case ASCII letter taken to its lower-case counterpart.
pub open spec fn lower_code(c: char) -> int {
    if 65 <= c as u32 <= 90 {
        c as u32 + 32
    } else {
        c as u32 as int
    }
}

/// Two character sequences are equal up to ASCII letter case.
pub open spec fn eq_ignore_ascii_case(a: Seq<char>, b: Seq<char>) -> bool {
    a.len() == b.len() && forall|i: int| 0 <= i < a.len() ==> lower_code(a[i]) == lower_code(b[i])
}

/// Compare two strings ASCII-case-insensitively, character by character.
pub fn str_eq_ignore_ascii_case(a: &str, b: &str) -> (r: bool)
    ensures
        r == eq_ignore_ascii_case(a@, b@),
{
    let alen = a.unicode_len();
    let blen = b.unicode_len();
    if alen != blen {
        return false;
    }
    let mut i: usize = 0;
    while i < alen
        invariant
            alen == a@.len(),
            alen == b@.len(),
            i <= alen,
            forall|j: int| 0 <= j < i ==> lower_code(a@[j]) == lower_code(b@[j]),
        decreases alen - i,
    {
        let ca = a.get_char(i) as u32;
        let cb = b.get_char(i) as u32;
        let la = if 65 <= ca && ca <= 90 {
            ca + 32
        } else {
            ca
        };
        let lb = if 65 <= cb && cb <= 90 {
            cb + 32
        } else {
            cb
        };
        if la != lb {
            return false;
        }
        i += 1;
    }
    true
}

/// One decimal digit.
pub open spec fn is_digit(c: char) -> bool {
    48 <= c as u32 <= 57
}

/// The value of one decimal digit.
pub open spec fn digit_val(c: char) -> int {
    c as u32 - 48
}

pub open spec fn all_digits(s: Seq<char>) -> bool {
    forall|i: int| 0 <= i < s.len() ==> is_digit(s[i])
}

/// The value of a digit sequence read in base 10.
pub open spec fn digits_val(s: Seq<char>) -> int
    decreases s.len(),
{
    if s.len() == 0 {
        0
    } else {
        digits_val(s.drop_last()) * 10 + digit_val(s.last())
    }
}

/// The digit part of a number string: what follows an optional leading '+'.
pub open spec fn digit_part(s: Seq<char>) -> Seq<char> {
    if s.len() >= 1 && s[0] == '+' {
        s.drop_first()
    } else {
        s
    }
}

/// What parsing a `u32` accepts: an optional leading '+', then one or more
/// decimal digits, whose value fits in 32 bits.
pub open spec fn parse_u32_spec(s: Seq<char>) -> Option<u32> {
    let digits = digit_part(s);
    if digits.len() >= 1 && all_digits(digits) && digits_val(digits) <= u32::MAX {
        Some(digits_val(digits) as u32)
    } else {
        None
    }
}

proof fn lemma_digits_val_nonneg(s: Seq<char>)
    requires
        all_digits(s),
    ensures
        digits_val(s) >= 0,
    decreases s.len(),
{
    if s.len() > 0 {
        assert(is_digit(s.last()));
        lemma_digits_val_nonneg(s.drop_last());
    }
}

/// Reading one more digit multiplies the prefix value by ten and adds it.
proof fn lemma_digits_val_extend(s: Seq<char>, i: int)
    requires
        0 <= i < s.len(),
    ensures
        digits_val(s.subrange(0, i + 1)) == digits_val(s.subrange(0, i)) * 10 + digit_val(s[i]),
{
    let t = s.subrange(0, i + 1);
    assert(t.drop_last() =~= s.subrange(0, i));
    assert(t.last() == s[i]);
}

/// A digit sequence is worth at least any of its prefixes.
proof fn lemma_digits_val_prefix_grows(s: Seq<char>, i: int)
    requires
        0 <= i <= s.len(),
        all_digits(s),
    ensures
        digits_val(s) >= digits_val(s.subrange(0, i)),
    decreases s.len() - i,
{
    if i == s.len() {
        assert(s.subrange(0, i) =~= s);
    } else {
        lemma_digits_val_extend(s, i);
        assert(all_digits(s.subrange(0, i)));
        lemma_digits_val_nonneg(s.subrange(0, i));
        assert(is_digit(s[i]));
        lemma_digits_val_prefix_grows(s, i + 1);
    }
}

/// Parse a string as a `u32`, as the bounding-box headers are read:
/// an optional '+', one or more decimal digits, no larger than `u32::MAX`.
pub fn parse_u32(s: &str) -> (r: Option<u32>)
    ensures
        r == parse_u32_spec(s@),
{
    let len = s.unicode_len();
    let has_plus = len >= 1 && s.get_char(0) == '+';
    let start: usize = if has_plus {
        1
    } else {
        0
    };
    let ghost digits = digit_part(s@);
    proof {
        assert(digits.len() == len - start);
        assert(forall|k: int| 0 <= k < digits.len() ==> digits[k] == s@[k + start]);
    }
    if start == len {
        return None;
    }
    let mut acc: u64 = 0;
    let mut i: usize = start;
    while i < len
        invariant
            start <= i <= len,
            len == s@.len(),
            start <= 1,
            digits == digit_part(s@),
            digits.len() == len - start,
            forall|k: int| 0 <= k < digits.len() ==> digits[k] == s@[k + start],
            all_digits(digits.subrange(0, i - start)),
            acc == digits_val(digits.subrange(0, i - start)),
            acc <= u32::MAX,
        decreases len - i,
    {
        let c = s.get_char(i) as u32;
        if c < 48 || c > 57 {
            proof {
                assert(digits[i - start] == s@[i as int]);
                assert(!is_digit(digits[i - start]));
                assert(!all_digits(digits));
            }
            return None;
        }
        let d = (c - 48) as u64;
        proof {
            assert(digits[i - start] == s@[i as int]);
            lemma_digits_val_extend(digits, i - start);
        }
        acc = acc * 10 + d;
        if acc > 0xffff_ffff {
            proof {
                if all_digits(digits) {
                    lemma_digits_val_prefix_grows(digits, i + 1 - start);
                }
            }
            return None;
        }
        i += 1;
    }
    proof {
        assert(digits.subrange(0, (len - start) as int) =~= digits);
    }
    Some(acc as u32)
}

/// The value of the first header whose name matches `name` up to ASCII case.
pub open spec fn find_header_spec(headers: Seq<(String, String)>, name: Seq<char>) -> Option<
    String,
>
    decreases headers.len(),
{
    if headers.len() == 0 {
        None
    } else if eq_ignore_ascii_case(headers[0].0@, name) {
        Some(headers[0].1)
    } else {
        find_header_spec(headers.drop_first(), name)
    }
}

/// Look a header up by name, ASCII-case-insensitively, returning the value of
/// the first one that matches.
pub fn find_header<'a>(headers: &'a Vec<(String, String)>, name: &str) -> (r: Option<&'a String>)
    ensures
        match r {
            Some(v) => find_header_spec(headers@, name@) == Some(*v),
            None => find_header_spec(headers@, name@) is None,
        },
{
    let mut i: usize = 0;
    proof {
        assert(headers@.skip(0) =~= headers@);
    }
    while i < headers.len()
        invariant
            i <= headers@.len(),
            find_header_spec(headers@, name@) == find_header_spec(
                headers@.skip(i as int),
                name@,
            ),
        decreases headers@.len() - i,
    {
        let pair = &headers[i];
        proof {
            assert(headers@.skip(i as int)[0] == headers@[i as int]);
        }
        if str_eq_ignore_ascii_case(pair.0.as_str(), name) {
            return Some(&pair.1);
        }
        proof {
            assert(headers@.skip(i as int).drop_first() =~= headers@.skip(i + 1));
        }
        i += 1;
    }
    None
}

/// Which inference engine a request selects.
#[derive(Clone, Copy, Debug, PartialEq, Eq, Structural)]
pub enum Engine {
    Motion,
    Layout,
}

/// The engine chosen by the X-Inference-Type header: the value "layout"
/// selects the layout engine; a missing header or any other value selects
/// the motion engine.
pub open spec fn chosen_engine(headers: Seq<(String, String)>) -> Engine {
    match find_header_spec(headers, "X-Inference-Type"@) {
        Some(v) => if v@ == "layout"@ {
            Engine::Layout
        } else {
            Engine::Motion
        },
        None => Engine::Motion,
    }
}

/// Select the inference engine a request asks for.
pub fn select_engine(headers: &Vec<(String, String)>) -> (e: Engine)
    ensures
        e == chosen_engine(headers@),
{
    match find_header(headers, "X-Inference-Type") {
        Some(v) => {
            if *v == String::from_str("layout") {
                Engine::Layout
            } else {
                Engine::Motion
            }
        },
        None => Engine::Motion,
    }
}

/// The layout engine is selected exactly when the X-Inference-Type header is
/// present with the value "layout"; a missing header or any other value
/// selects the motion engine.
pub proof fn lemma_engine_selection(headers: Seq<(String, String)>)
    ensures
        (chosen_engine(headers) is Layout) <==> (find_header_spec(
            headers,
            "X-Inference-Type"@,
        ) matches Some(v) && v@ == "layout"@),
{
}

/// A bounding dimension read from a header: its value parsed as a `u32`, or
/// the default when the header is missing or unreadable.
pub open spec fn bound_from_header(
    headers: Seq<(String, String)>,
    name: Seq<char>,
    default: u32,
) -> u32 {
    match find_header_spec(headers, name) {
        Some(v) => match parse_u32_spec(v@) {
            Some(n) => n,
            None => default,
        },
        None => default,
    }
}

/// The bounding box for a resize request: X-Max-Width and X-Max-Height, with
/// 1920 x 1080 for whichever is absent or unreadable.
pub fn max_dimensions(headers: &Vec<(String, String)>) -> (r: (u32, u32))
    ensures
        r.0 == bound_from_header(headers@, "X-Max-Width"@, 1920),
        r.1 == bound_from_header(headers@, "X-Max-Height"@, 1080),
{
    let w = match find_header(headers, "X-Max-Width") {
        Some(v) => match parse_u32(v.as_str()) {
            Some(n) => n,
            None => 1920,
        },
        None => 1920,
    };
    let h = match find_header(headers, "X-Max-Height") {
        Some(v) => match parse_u32(v.as_str()) {
            Some(n) => n,
            None => 1080,
        },
        None => 1080,
    };
    (w, h)
}

} // verus!
