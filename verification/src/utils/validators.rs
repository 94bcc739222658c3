//! What the service accepts as a phone number, an e-mail address and a
//! business identification number, and how it tidies free text.

use vstd::prelude::*;
use crate::services::external::{char_is_whitespace, is_whitespace};
use crate::utils::text::{chars_of, is_decimal_digit};

verus! {

/// `c` is a letter of the Latin alphabet, upper or lower case.
pub open spec fn is_latin_letter(c: char) -> bool {
    ('a' <= c <= 'z') || ('A' <= c <= 'Z')
}

/// `c` may stand before the `@` of an e-mail address.
pub open spec fn is_local_char(c: char) -> bool {
    is_latin_letter(c) || is_decimal_digit(c) || c == '.' || c == '_' || c == '%' || c == '+' || c
        == '-'
}

/// `c` may stand in the domain of an e-mail address.
pub open spec fn is_domain_char(c: char) -> bool {
    is_latin_letter(c) || is_decimal_digit(c) || c == '.' || c == '-'
}

/// A Kazakhstani phone number in international form: `+7` and ten digits.
pub open spec fn is_phone(s: Seq<char>) -> bool {
    &&& s.len() == 12
    &&& s[0] == '+'
    &&& s[1] == '7'
    &&& forall|i: int| 2 <= i < 12 ==> is_decimal_digit(#[trigger] s[i])
}

/// A business identification number: twelve digits.
pub open spec fn is_bin(s: Seq<char>) -> bool {
    &&& s.len() == 12
    &&& forall|i: int| 0 <= i < 12 ==> is_decimal_digit(#[trigger] s[i])
}

/// `s` is an e-mail address with the `@` at `at` and the last dot at `dot`:
/// one or more local characters, the `@`, one or more domain characters, the
/// dot, and two or more letters.
pub open spec fn is_email_split(s: Seq<char>, at: int, dot: int) -> bool {
    &&& 0 < at
    &&& at + 1 < dot
    &&& dot + 2 < s.len()
    &&& s[at] == '@'
    &&& s[dot] == '.'
    &&& forall|i: int| 0 <= i < at ==> is_local_char(#[trigger] s[i])
    &&& forall|i: int| at < i < dot ==> is_domain_char(#[trigger] s[i])
    &&& forall|i: int| dot < i < s.len() ==> is_latin_letter(#[trigger] s[i])
}

/// An e-mail address, as far as its shape goes.
pub open spec fn is_email(s: Seq<char>) -> bool {
    exists|at: int, dot: int| is_email_split(s, at, dot)
}

/// `s` without the whitespace at its start and at its end.
pub open spec fn trimmed(s: Seq<char>) -> Seq<char>
    decreases s.len(),
{
    if s.len() == 0 {
        s
    } else if is_whitespace(s.first()) {
        trimmed(s.drop_first())
    } else if is_whitespace(s.last()) {
        trimmed(s.drop_last())
    } else {
        s
    }
}

fn is_digit(c: char) -> (b: bool)
    ensures
        b == is_decimal_digit(c),
{
    '0' <= c && c <= '9'
}

fn is_letter(c: char) -> (b: bool)
    ensures
        b == is_latin_letter(c),
{
    ('a' <= c && c <= 'z') || ('A' <= c && c <= 'Z')
}

fn is_local(c: char) -> (b: bool)
    ensures
        b == is_local_char(c),
{
    is_letter(c) || is_digit(c) || c == '.' || c == '_' || c == '%' || c == '+' || c == '-'
}

fn is_domain(c: char) -> (b: bool)
    ensures
        b == is_domain_char(c),
{
    is_letter(c) || is_digit(c) || c == '.' || c == '-'
}

fn all_digits(v: &Vec<char>, from: usize) -> (b: bool)
    requires
        from <= v.len(),
    ensures
        b == forall|i: int| from <= i < v.len() ==> is_decimal_digit(#[trigger] v@[i]),
{
    let mut i = from;
    while i < v.len()
        invariant
            from <= i <= v.len(),
            forall|j: int| from <= j < i ==> is_decimal_digit(#[trigger] v@[j]),
        decreases v.len() - i,
    {
        if !is_digit(v[i]) {
            return false;
        }
        i += 1;
    }
    true
}

/// Whether `phone` is a Kazakhstani phone number in international form.
pub fn validate_phone(phone: &str) -> (r: bool)
    ensures
        r == is_phone(phone@),
{
    let v = chars_of(phone);
    v.len() == 12 && v[0] == '+' && v[1] == '7' && all_digits(&v, 2)
}

/// Whether `bin` is a business identification number.
pub fn validate_bin(bin: &str) -> (r: bool)
    ensures
        r == is_bin(bin@),
{
    let v = chars_of(bin);
    v.len() == 12 && all_digits(&v, 0)
}

/// Whether `email` has the shape of an e-mail address.
pub fn validate_email(email: &str) -> (r: bool)
    ensures
        r == is_email(email@),
{
    let v = chars_of(email);
    let n = v.len();
    let ghost s = v@;
    // The local part ends at the first character that is not one of its own.
    let mut at: usize = 0;
    while at < n && is_local(v[at])
        invariant
            at <= n,
            n == v.len(),
            s == v@,
            forall|i: int| 0 <= i < at ==> is_local_char(#[trigger] s[i]),
        decreases n - at,
    {
        at += 1;
    }
    if at == 0 || at >= n || v[at] != '@' {
        proof {
            assert forall|a: int, d: int| !is_email_split(s, a, d) by {
                if is_email_split(s, a, d) {
                    // the `@` is no local character, so it ends the local part
                    if a < at {
                        assert(is_local_char(s[a]));
                    } else if a > at {
                        assert(is_local_char(s[at as int]));
                    }
                }
            }
        }
        return false;
    }
    // The letters at the end start after the last character that is no letter.
    let mut dot: usize = n;
    while dot > at + 1 && is_letter(v[dot - 1])
        invariant
            at < dot <= n,
            n == v.len(),
            s == v@,
            forall|i: int| dot <= i < n ==> is_latin_letter(#[trigger] s[i]),
        decreases dot,
    {
        dot -= 1;
    }
    // `dot` is one past the last character that is no letter (or at + 1).
    if dot - at <= 2 || n - dot < 2 || v[dot - 1] != '.' {
        proof {
            assert forall|a: int, d: int| !is_email_split(s, a, d) by {
                if is_email_split(s, a, d) {
                    if a < at {
                        assert(is_local_char(s[a]));
                    } else if a > at {
                        assert(is_local_char(s[at as int]));
                    }
                    assert(a == at);
                    if d < dot - 1 {
                        assert(is_latin_letter(s[dot - 1]));
                    } else if d > dot - 1 {
                        assert(is_latin_letter(s[d]));
                    }
                }
            }
        }
        return false;
    }
    let d: usize = dot - 1;
    let mut i: usize = at + 1;
    while i < d
        invariant
            0 < at < i <= d,
            d + 2 < n,
            n == v.len(),
            s == v@,
            s == email@,
            s[at as int] == '@',
            s[d as int] == '.',
            forall|j: int| 0 <= j < at ==> is_local_char(#[trigger] s[j]),
            forall|j: int| at < j < i ==> is_domain_char(#[trigger] s[j]),
            forall|j: int| d < j < n ==> is_latin_letter(#[trigger] s[j]),
        decreases d - i,
    {
        if !is_domain(v[i]) {
            proof {
                assert forall|a: int, e: int| !is_email_split(s, a, e) by {
                    if is_email_split(s, a, e) {
                        if a < at {
                            assert(is_local_char(s[a]));
                        } else if a > at {
                            assert(is_local_char(s[at as int]));
                        }
                        if e < d {
                            assert(is_latin_letter(s[d as int]));
                        } else if e > d {
                            assert(is_latin_letter(s[e]));
                        }
                        assert(is_domain_char(s[i as int]));
                    }
                }
            }
            return false;
        }
        i += 1;
    }
    assert(is_email_split(s, at as int, d as int));
    true
}

/// `input` without the whitespace at its start and at its end.
pub fn sanitize_string(input: &str) -> (r: String)
    ensures
        r@ == trimmed(input@),
{
    let v = chars_of(input);
    let n = v.len();
    let mut from: usize = 0;
    assert(v@.subrange(0, n as int) =~= v@);
    while from < n && char_is_whitespace(v[from])
        invariant
            from <= n,
            n == v.len(),
            trimmed(v@) == trimmed(v@.subrange(from as int, n as int)),
        decreases n - from,
    {
        assert(v@.subrange(from as int, n as int).drop_first() =~= v@.subrange(
            from + 1,
            n as int,
        ));
        from += 1;
    }
    let mut to: usize = n;
    while to > from && char_is_whitespace(v[to - 1])
        invariant
            from <= to <= n,
            n == v.len(),
            from < n ==> !is_whitespace(v@[from as int]),
            trimmed(v@) == trimmed(v@.subrange(from as int, to as int)),
        decreases to,
    {
        assert(v@.subrange(from as int, to as int).drop_last() =~= v@.subrange(
            from as int,
            to - 1,
        ));
        to -= 1;
    }
    assert(trimmed(v@.subrange(from as int, to as int)) == v@.subrange(from as int, to as int));
    String::from_str(input.substring_char(from, to))
}

} // verus!
