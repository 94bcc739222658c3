//! The calls into the crates this library builds on: `rand`, `uuid`,
//! `chrono`, `base64`, `qrcode` and `image`; and into the one function of the
//! standard library that Verus knows nothing of.
//!
//! Verus does not read the bodies of these functions. It takes their
//! contracts on trust; each states what the crate's own source and
//! documentation say of the call.

use vstd::prelude::*;
use crate::utils::text::two_digits;

verus! {

/// Whether `c` is whitespace, as the standard library has it.
pub uninterp spec fn is_whitespace(c: char) -> bool;

/// Whether `c` is whitespace.
///
/// Calls `char::is_whitespace` of the standard library, which goes by the
/// Unicode property `White_Space`. The answer depends on `c` alone.
#[verifier::external_body]
pub(crate) fn char_is_whitespace(c: char) -> (b: bool)
    ensures
        b == is_whitespace(c),
{
    c.is_whitespace()
}

/// A number drawn at random from `low..high`.
///
/// Calls `rand::Rng::gen_range` on `rand::thread_rng()` with the half-open
/// range `low..high`. The crate documents that the value lies in the range
/// and that an empty range panics, which `requires` rules out. Nothing is
/// claimed of which value comes: two calls may differ. The generator is
/// seeded by the operating system and panics where that gives no randomness.
#[verifier::external_body]
pub(crate) fn random_in_range(low: u32, high: u32) -> (n: u32)
    requires
        low < high,
    ensures
        low <= n < high,
{
    rand::Rng::gen_range(&mut rand::thread_rng(), low..high)
}

/// A fresh random identifier.
///
/// Calls `uuid::Uuid::new_v4` and hands the identifier out as the 128-bit
/// number that `Uuid::as_u128` gives. The crate sets the version field to 4
/// and the variant field to binary 10 and draws every other bit at random;
/// the contract states those six bits and nothing else. The crate panics
/// where the operating system gives no randomness.
#[verifier::external_body]
pub(crate) fn new_identifier() -> (id: u128)
    ensures
        id & 0x0000_0000_0000_f000_c000_0000_0000_0000 == 0x0000_0000_0000_4000_8000_0000_0000_0000,
{
    uuid::Uuid::new_v4().as_u128()
}

/// The time of day, in UTC, of the moment `micros` microseconds after the
/// Unix epoch: two digits for the hour, a colon, two digits for the minute.
pub open spec fn clock_text(micros: i64) -> Seq<char> {
    let second_of_day = ((micros as int) / 1_000_000) % 86_400;
    two_digits(second_of_day / 3_600) + seq![':'] + two_digits((second_of_day % 3_600) / 60)
}

/// The time of day of a moment, as `HH:MM` in UTC.
///
/// Calls `chrono::DateTime::from_timestamp_micros` and formats what it gives
/// with `format("%H:%M")`. The crate counts a day as 86 400 seconds, writes
/// `%H` and `%M` as two digits padded with a zero, and returns `None` from
/// `from_timestamp_micros` for moments more than about 262 000 years from
/// the common era; the contract promises a text for the moments within
/// 8 * 10^18 microseconds of the epoch, which is about 253 000 years.
#[verifier::external_body]
pub(crate) fn utc_clock_text(micros: i64) -> (r: Option<String>)
    ensures
        r matches Some(text) ==> text@ == clock_text(micros),
        -8_000_000_000_000_000_000 <= micros <= 8_000_000_000_000_000_000 ==> r is Some,
{
    match chrono::DateTime::from_timestamp_micros(micros) {
        Some(moment) => Some(moment.format("%H:%M").to_string()),
        None => None,
    }
}

/// The standard base64 text of `bytes`, with padding, as the `base64` crate
/// encodes it.
pub uninterp spec fn base64_standard(bytes: Seq<u8>) -> Seq<char>;

/// The standard base64 text of `bytes`.
///
/// Calls `base64::Engine::encode` on `base64::engine::general_purpose::STANDARD`.
/// The result depends on the bytes alone. The crate panics where the length
/// of the text, four characters for every three bytes begun, does not fit in
/// `usize`, which `requires` rules out.
#[verifier::external_body]
pub(crate) fn base64_encode(bytes: &[u8]) -> (r: String)
    requires
        (bytes@.len() / 3 + 1) * 4 <= usize::MAX,
    ensures
        r@ == base64_standard(bytes@),
{
    base64::Engine::encode(&base64::engine::general_purpose::STANDARD, bytes)
}

/// The PNG picture of the QR code of `data`, as the `qrcode` and `image`
/// crates make it, or the text of the error with which they refuse.
pub uninterp spec fn qr_code_png(data: Seq<char>) -> Result<Seq<u8>, Seq<char>>;

/// The QR code of `data` as a PNG picture.
///
/// Calls `qrcode::QrCode::new` on the bytes of `data`, renders the code with
/// `render::<image::Luma<u8>>().build()`, and writes the picture with
/// `image::ImageBuffer::write_to` as `image::ImageFormat::Png` into memory.
/// The result depends on `data` alone. An error of either crate comes back as
/// its text.
#[verifier::external_body]
pub(crate) fn render_qr_code_png(data: &str) -> (r: Result<Vec<u8>, String>)
    ensures
        match r {
            Ok(png) => qr_code_png(data@) == Ok::<Seq<u8>, Seq<char>>(png@),
            Err(text) => qr_code_png(data@) == Err::<Seq<u8>, Seq<char>>(text@),
        },
{
    let code = match qrcode::QrCode::new(data.as_bytes()) {
        Ok(code) => code,
        Err(e) => return Err(e.to_string()),
    };
    let picture = code.render::<image::Luma<u8>>().build();
    let mut buffer = std::io::Cursor::new(Vec::new());
    match picture.write_to(&mut buffer, image::ImageFormat::Png) {
        Ok(()) => Ok(buffer.into_inner()),
        Err(e) => Err(e.to_string()),
    }
}

} // verus!
