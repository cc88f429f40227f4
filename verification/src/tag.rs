//! Request identities and the correlation tags that carry them.
//!
//! A request identity is a `u32`. On the wire it travels as its decimal
//! rendering; on the way back a tag is read as an optional `+` followed by
//! decimal digits, and anything else correlates to nothing.

use vstd::prelude::*;
use vstd::std_specs::iter::IteratorSpec;
use vstd::string::*;

verus! {

/// Whether `c` is one of the ten decimal digits.
pub open spec fn is_digit(c: char) -> bool {
    '0' <= c && c <= '9'
}

/// The number a decimal digit stands for.
pub open spec fn digit_value(c: char) -> nat {
    (c as u32 - '0' as u32) as nat
}

/// The character that renders a number below ten.
pub open spec fn digit_char(d: nat) -> char {
    (d + '0' as u32) as char
}

/// Whether `s` is a non-empty run of decimal digits.
pub open spec fn is_decimal(s: Seq<char>) -> bool {
    s.len() > 0 && forall|i: int| 0 <= i < s.len() ==> is_digit(#[trigger] s[i])
}

/// The number that a run of decimal digits denotes, most significant digit first.
pub open spec fn decimal_value(s: Seq<char>) -> nat
    decreases s.len(),
{
    if s.len() == 0 {
        0
    } else {
        10 * decimal_value(s.drop_last()) + digit_value(s.last())
    }
}

/// A tag without its optional leading `+`.
pub open spec fn unsigned_part(tag: Seq<char>) -> Seq<char> {
    if tag.len() > 0 && tag[0] == '+' {
        tag.drop_first()
    } else {
        tag
    }
}

/// The request identity that a tag denotes, if it denotes one.
pub open spec fn tag_value(tag: Seq<char>) -> Option<u32> {
    let digits = unsigned_part(tag);
    if is_decimal(digits) && decimal_value(digits) <= u32::MAX {
        Some(decimal_value(digits) as u32)
    } else {
        None
    }
}

/// The decimal rendering of `n`, without sign or leading zeros.
pub open spec fn decimal_digits(n: nat) -> Seq<char>
    decreases n,
{
    if n < 10 {
        seq![digit_char(n)]
    } else {
        decimal_digits(n / 10).push(digit_char(n % 10))
    }
}

/// The tag under which request `id` travels.
pub open spec fn tag_of(id: u32) -> Seq<char> {
    decimal_digits(id as nat)
}

/// A digit run denotes at least what any of its prefixes denotes.
proof fn lemma_prefix_value(s: Seq<char>, k: int)
    requires
        0 <= k <= s.len(),
    ensures
        decimal_value(s.take(k)) <= decimal_value(s),
    decreases s.len() - k,
{
    if k < s.len() {
        lemma_prefix_value(s, k + 1);
        assert(s.take(k + 1).drop_last() =~= s.take(k));
    } else {
        assert(s.take(k) =~= s);
    }
}

/// The rendering of a number is a digit run that denotes that number.
pub proof fn lemma_decimal_digits(n: nat)
    ensures
        is_decimal(decimal_digits(n)),
        decimal_value(decimal_digits(n)) == n,
        decimal_digits(n)[0] != '+',
    decreases n,
{
    if n < 10 {
        assert(decimal_value(decimal_digits(n).drop_last()) == 0);
    } else {
        lemma_decimal_digits(n / 10);
        assert(decimal_digits(n).drop_last() =~= decimal_digits(n / 10));
    }
}

/// Reading back the tag of a request identity gives that identity.
pub proof fn lemma_tag_round_trip(id: u32)
    ensures
        tag_value(tag_of(id)) == Some(id),
{
    lemma_decimal_digits(id as nat);
}

/// Two different request identities never travel under the same tag.
pub proof fn lemma_tags_distinct(a: u32, b: u32)
    requires
        a != b,
    ensures
        tag_of(a) != tag_of(b),
{
    lemma_tag_round_trip(a);
    lemma_tag_round_trip(b);
}

/// The one-character string for a number below ten.
fn digit_str(d: u32) -> (s: &'static str)
    requires
        d < 10,
    ensures
        s@ == seq![digit_char(d as nat)],
{
    proof {
        reveal_strlit("0");
        reveal_strlit("1");
        reveal_strlit("2");
        reveal_strlit("3");
        reveal_strlit("4");
        reveal_strlit("5");
        reveal_strlit("6");
        reveal_strlit("7");
        reveal_strlit("8");
        reveal_strlit("9");
    }
    if d == 0 {
        "0"
    } else if d == 1 {
        "1"
    } else if d == 2 {
        "2"
    } else if d == 3 {
        "3"
    } else if d == 4 {
        "4"
    } else if d == 5 {
        "5"
    } else if d == 6 {
        "6"
    } else if d == 7 {
        "7"
    } else if d == 8 {
        "8"
    } else {
        "9"
    }
}

/// Appends the decimal rendering of `n` to `out`.
pub fn push_decimal(out: &mut String, n: u32)
    ensures
        final(out)@ == old(out)@ + decimal_digits(n as nat),
    decreases n,
{
    if n >= 10 {
        push_decimal(out, n / 10);
    }
    out.append(digit_str(n % 10));
}

/// Renders a request identity as the tag it travels under.
pub fn format_request_id(id: u32) -> (tag: String)
    ensures
        tag@ == tag_of(id),
{
    let mut tag = String::new();
    push_decimal(&mut tag, id);
    tag
}

/// Reads a tag back into the request identity it denotes.
///
/// A tag denotes an identity when it is an optional `+` followed by one or
/// more decimal digits whose value fits in 32 bits. Every other tag, the
/// empty one included, yields `None`.
pub fn parse_request_id(tag: &str) -> (id: Option<u32>)
    ensures
        id == tag_value(tag@),
{
    broadcast use vstd::string::group_string_axioms;

    let mut chars = tag.chars();
    let ghost digits = unsigned_part(tag@);
    let mut current = chars.next();
    match current {
        Some(c) => {
            if c == '+' {
                current = chars.next();
            }
        },
        None => {},
    }
    if current.is_none() {
        return None;
    }
    let mut value: u64 = 0;
    let ghost mut k: int = 0;
    loop
        invariant_except_break
            0 <= k < digits.len(),
            current == Some(digits[k]),
            chars.remaining() == digits.skip(k + 1),
        invariant
            digits == unsigned_part(tag@),
            chars.obeys_prophetic_iter_laws(),
            forall|j: int| 0 <= j < k ==> is_digit(#[trigger] digits[j]),
            value == decimal_value(digits.take(k)),
            value <= u32::MAX,
        ensures
            k == digits.len(),
            forall|j: int| 0 <= j < k ==> is_digit(#[trigger] digits[j]),
            value == decimal_value(digits.take(k)),
            value <= u32::MAX,
        decreases digits.len() - k,
    {
        let c = current.unwrap();
        if !('0' <= c && c <= '9') {
            return None;
        }
        let d: u64 = (c as u32 - '0' as u32) as u64;
        let next: u64 = value * 10 + d;
        proof {
            assert(digits.take(k + 1).drop_last() =~= digits.take(k));
        }
        if next > 0xffff_ffff {
            proof {
                lemma_prefix_value(digits, k + 1);
            }
            return None;
        }
        value = next;
        current = chars.next();
        proof {
            k = k + 1;
        }
        if current.is_none() {
            break;
        }
    }
    assert(digits.take(k) =~= digits);
    Some(value as u32)
}

} // verus!
