//! The previews of the image queue: a PNG thumbnail shown as a `data:` URL
//! with its bytes in base64 (through the `base64` crate).

use vstd::prelude::*;

verus! {

broadcast use vstd::string::group_string_axioms;

/// The character of a 6-bit value in the standard base64 alphabet:
/// `A-Z`, `a-z`, `0-9`, `+`, `/`.
pub open spec fn base64_char(v: nat) -> char {
    if v < 26 {
        (65 + v) as char
    } else if v < 52 {
        (97 + (v - 26)) as char
    } else if v < 62 {
        (48 + (v - 52)) as char
    } else if v == 62 {
        '+'
    } else {
        '/'
    }
}

/// The standard base64 text of a byte sequence (RFC 4648, padded with `=`),
/// as `base64`'s `STANDARD` engine writes it: each group of three bytes
/// gives four characters; a last group of one or two bytes gives two or
/// three characters and `=` to fill four.
pub open spec fn standard_base64(bytes: Seq<u8>) -> Seq<char>
    decreases bytes.len(),
{
    if bytes.len() == 0 {
        Seq::empty()
    } else if bytes.len() == 1 {
        let n = bytes[0] as nat;
        seq![base64_char(n / 4), base64_char((n % 4) * 16), '=', '=']
    } else if bytes.len() == 2 {
        let n = bytes[0] as nat * 256 + bytes[1] as nat;
        seq![base64_char(n / 1024), base64_char((n / 16) % 64), base64_char((n % 16) * 4), '=']
    } else {
        let n = bytes[0] as nat * 65536 + bytes[1] as nat * 256 + bytes[2] as nat;
        seq![
            base64_char(n / 262144),
            base64_char((n / 4096) % 64),
            base64_char((n / 64) % 64),
            base64_char(n % 64),
        ] + standard_base64(bytes.subrange(3, bytes.len() as int))
    }
}

/// Whether the base64 text of `len` bytes has a length that fits in `usize`.
pub open spec fn base64_len_fits(len: nat) -> bool {
    (len / 3) * 4 + (if len % 3 > 0 {
        4nat
    } else {
        0nat
    }) <= usize::MAX
}

/// `base64::engine::general_purpose::STANDARD.encode`: returns the
/// standard base64 text of the bytes (`standard_base64`). That call panics when the length of the
/// text overflows `usize`, which `requires` rules out.
#[verifier::external_body]
fn encode_base64(bytes: &Vec<u8>) -> (r: String)
    requires
        base64_len_fits(bytes@.len()),
    ensures
        r@ == standard_base64(bytes@),
{
    base64::Engine::encode(&base64::engine::general_purpose::STANDARD, bytes)
}

/// The `data:` URL of a PNG image whose bytes have the base64 text `encoded`.
pub fn png_data_url(encoded: &str) -> (r: String)
    ensures
        r@ == "data:image/png;base64,"@ + encoded@,
{
    let mut r = String::from_str("data:image/png;base64,");
    r.append(encoded);
    r
}

/// The `data:` URL of a PNG image.
pub fn preview_data_url(png: &Vec<u8>) -> (r: String)
    requires
        base64_len_fits(png@.len()),
    ensures
        r@ == "data:image/png;base64,"@ + standard_base64(png@),
{
    let encoded = encode_base64(png);
    png_data_url(encoded.as_str())
}

} // verus!
