//! One-time codes, token fingerprints and phone numbers.

use vstd::prelude::*;
use vstd::std_specs::hash::DefaultHasherAdditionalSpecFns;
use vstd::string::StringSliceAdditionalSpecFns;
use std::collections::hash_map::DefaultHasher;
use std::hash::Hasher;
use crate::config::Config;
use crate::services::external::random_in_range;
use crate::utils::text::{
    chars_of, decimal, decimal_text, digit_text, digit_value, hex_lower, hex_text,
    is_decimal_digit, lemma_six_digits,
};

verus! {

/// What a signed token says of its bearer.
#[derive(Debug)]
pub struct Claims {
    /// The user's id.
    pub sub: String,
    pub role: String,
    pub exp: i64,
    pub iat: i64,
    pub token_type: String,
}

/// Issues one-time codes and fingerprints of tokens.
pub struct AuthService {
    pub config: Config,
}

/// The smallest number a one-time code is made from.
pub const CODE_LOW: u32 = 100_000;

/// One more than the largest number a one-time code is made from.
pub const CODE_HIGH: u32 = 999_999;

/// A one-time code: six decimal digits, the first of them not a zero.
pub open spec fn is_one_time_code(code: Seq<char>) -> bool {
    &&& code.len() == 6
    &&& forall|i: int| 0 <= i < 6 ==> is_decimal_digit(#[trigger] code[i])
    &&& code[0] != '0'
}

/// The fingerprint of a token: the bytes of the token, then the byte 255,
/// hashed, and the hash written in hexadecimal.
pub open spec fn token_fingerprint(token: Seq<u8>) -> Seq<char> {
    hex_lower(DefaultHasher::spec_finish(seq![token, seq![255u8]]) as nat)
}

impl AuthService {
    pub fn new(config: Config) -> (r: Self)
        ensures
            r.config == config,
    {
        AuthService { config }
    }

    /// What a token that is issued at `now`, in seconds since the Unix
    /// epoch, says of the user `sub` with the role named `role`: an access
    /// token is good for the access lifetime of the settings, a refresh
    /// token for the refresh lifetime. `None` where the moment of expiry
    /// cannot be represented.
    pub fn claims(&self, sub: String, role: &str, now: i64, refresh: bool) -> (r: Option<Claims>)
        ensures
            r is Some <==> i64::MIN <= now + self.lifetime(refresh) <= i64::MAX,
            r matches Some(c) ==> {
                &&& c.sub@ == sub@
                &&& c.role@ == role@
                &&& c.iat == now
                &&& c.exp == now + self.lifetime(refresh)
                &&& c.token_type@ == if refresh {
                    "refresh"@
                } else {
                    "access"@
                }
            },
    {
        let lifetime = if refresh {
            self.config.jwt_refresh_expiry
        } else {
            self.config.jwt_access_expiry
        };
        match now.checked_add(lifetime) {
            Some(exp) => Some(
                Claims {
                    sub,
                    role: String::from_str(role),
                    exp,
                    iat: now,
                    token_type: if refresh {
                        String::from_str("refresh")
                    } else {
                        String::from_str("access")
                    },
                },
            ),
            None => None,
        }
    }

    /// The lifetime, in seconds, of the tokens of one kind.
    pub open spec fn lifetime(&self, refresh: bool) -> int {
        if refresh {
            self.config.jwt_refresh_expiry as int
        } else {
            self.config.jwt_access_expiry as int
        }
    }

    /// The one-time code that is made from the number `n`: its decimal
    /// digits.
    pub fn code_from(n: u32) -> (code: String)
        ensures
            code@ == decimal(n as nat),
            CODE_LOW <= n < CODE_HIGH ==> is_one_time_code(code@),
    {
        proof {
            if CODE_LOW <= n < CODE_HIGH {
                lemma_six_digits(n as nat);
            }
        }
        decimal_text(n as u64)
    }

    /// A fresh code for confirming a phone number by text message: the
    /// digits of a number drawn at random from 100000 up to 999998.
    pub fn generate_sms_code() -> (code: String)
        ensures
            is_one_time_code(code@),
            exists|n: nat| CODE_LOW <= n < CODE_HIGH && code@ == decimal(n),
    {
        let n = random_in_range(CODE_LOW, CODE_HIGH);
        let code = Self::code_from(n);
        assert(CODE_LOW <= (n as nat) < CODE_HIGH && code@ == decimal(n as nat));
        code
    }

    /// A fresh access code for a guest: the digits of a number drawn at
    /// random from 100000 up to 999998. Whether the code is free is the
    /// barrier service's business, not the generator's.
    pub fn generate_access_code() -> (code: String)
        ensures
            is_one_time_code(code@),
            exists|n: nat| CODE_LOW <= n < CODE_HIGH && code@ == decimal(n),
    {
        let n = random_in_range(CODE_LOW, CODE_HIGH);
        let code = Self::code_from(n);
        assert(CODE_LOW <= (n as nat) < CODE_HIGH && code@ == decimal(n as nat));
        code
    }

    /// The fingerprint under which a refresh token is stored.
    pub fn hash_token(token: &str) -> (r: String)
        ensures
            r@ == token_fingerprint(token.spec_bytes()),
    {
        let mut hasher = DefaultHasher::new();
        hasher.write(token.as_bytes());
        let end: [u8; 1] = [255u8];
        let end_bytes = end.as_slice();
        assert(end_bytes@ =~= seq![255u8]);
        hasher.write(end_bytes);
        assert(hasher@ =~= seq![token.spec_bytes(), seq![255u8]]);
        hex_text(hasher.finish())
    }
}

/// The decimal digits among the characters of `s`, in their order.
pub open spec fn digits_of(s: Seq<char>) -> Seq<char> {
    s.filter(|c: char| is_decimal_digit(c))
}

/// The international form of the phone number written in `phone`: of its
/// digits, eleven that start with 8 have the 8 replaced by `+7`, eleven that
/// start with 7 get a `+` in front, ten get `+7` in front, and any others a
/// `+`.
pub open spec fn normalized_phone(phone: Seq<char>) -> Seq<char> {
    let digits = digits_of(phone);
    if digits.len() == 11 && digits[0] == '8' {
        seq!['+', '7'] + digits.skip(1)
    } else if digits.len() == 11 && digits[0] == '7' {
        seq!['+'] + digits
    } else if digits.len() == 10 {
        seq!['+', '7'] + digits
    } else {
        seq!['+'] + digits
    }
}

/// `phone` is written the way a Kazakhstani number is dialled: its
/// international form is `+7` and ten more digits.
pub open spec fn is_kz_phone(phone: Seq<char>) -> bool {
    let normalized = normalized_phone(phone);
    normalized.len() == 12 && normalized[0] == '+' && normalized[1] == '7'
}

fn digits_in(phone: &str) -> (digits: Vec<char>)
    ensures
        digits@ == digits_of(phone@),
{
    let all = chars_of(phone);
    let ghost keep = |c: char| is_decimal_digit(c);
    let mut digits: Vec<char> = Vec::new();
    let mut i: usize = 0;
    proof {
        reveal(Seq::filter);
        assert(all@.take(0) =~= Seq::<char>::empty());
    }
    while i < all.len()
        invariant
            i <= all.len(),
            keep == |c: char| is_decimal_digit(c),
            digits@ == all@.take(i as int).filter(keep),
        decreases all.len() - i,
    {
        let c = all[i];
        proof {
            let seen = all@.take(i as int);
            assert(all@.take(i + 1) =~= seen.push(c));
            seen.lemma_filter_push(c, keep);
        }
        if '0' <= c && c <= '9' {
            digits.push(c);
        }
        i += 1;
    }
    assert(all@.take(all.len() as int) =~= all@);
    digits
}

fn push_digits(out: &mut String, digits: &Vec<char>, from: usize)
    requires
        from <= digits.len(),
        forall|i: int| 0 <= i < digits.len() ==> is_decimal_digit(#[trigger] digits@[i]),
    ensures
        final(out)@ == old(out)@ + digits@.skip(from as int),
{
    let mut i: usize = from;
    assert(digits@.subrange(from as int, from as int) =~= Seq::<char>::empty());
    assert(out@ =~= old(out)@ + digits@.subrange(from as int, i as int));
    while i < digits.len()
        invariant
            from <= i <= digits.len(),
            forall|j: int| 0 <= j < digits.len() ==> is_decimal_digit(#[trigger] digits@[j]),
            out@ == old(out)@ + digits@.subrange(from as int, i as int),
        decreases digits.len() - i,
    {
        out.append(digit_text(digit_value(digits[i])));
        assert(out@ =~= old(out)@ + digits@.subrange(from as int, i + 1));
        i += 1;
    }
    assert(digits@.subrange(from as int, digits.len() as int) =~= digits@.skip(from as int));
}

/// The international form of the phone number written in `phone`, whatever
/// else stands between its digits.
pub fn normalize_phone(phone: &str) -> (r: String)
    ensures
        r@ == normalized_phone(phone@),
{
    let digits = digits_in(phone);
    proof {
        assert forall|i: int| 0 <= i < digits.len() implies is_decimal_digit(
            #[trigger] digits@[i],
        ) by {
            let keep = |c: char| is_decimal_digit(c);
            phone@.lemma_filter_pred(keep, i);
        }
        reveal_strlit("+7");
        reveal_strlit("+");
    }
    let n = digits.len();
    if n == 11 && digits[0] == '8' {
        let mut r = String::from_str("+7");
        push_digits(&mut r, &digits, 1);
        assert(r@ =~= seq!['+', '7'] + digits@.skip(1));
        r
    } else if n == 11 && digits[0] == '7' {
        let mut r = String::from_str("+");
        push_digits(&mut r, &digits, 0);
        assert(r@ =~= seq!['+'] + digits@);
        r
    } else if n == 10 {
        let mut r = String::from_str("+7");
        push_digits(&mut r, &digits, 0);
        assert(r@ =~= seq!['+', '7'] + digits@);
        r
    } else {
        let mut r = String::from_str("+");
        push_digits(&mut r, &digits, 0);
        assert(r@ =~= seq!['+'] + digits@);
        r
    }
}

/// Whether `phone` is written the way a Kazakhstani number is dialled.
pub fn validate_kz_phone(phone: &str) -> (r: bool)
    ensures
        r == is_kz_phone(phone@),
{
    let normalized = normalize_phone(phone);
    let v = chars_of(normalized.as_str());
    v.len() == 12 && v[0] == '+' && v[1] == '7'
}

} // verus!
