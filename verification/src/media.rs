//! Turning fetched image bytes into a `data:` URL.

use vstd::prelude::*;
use base64::Engine;
use crate::text::{has_substring, lemma_occurs_between, str_contains};

verus! {

/// The base64 digit for a six-bit value: `A`-`Z`, `a`-`z`, `0`-`9`, `+`, `/`.
pub open spec fn base64_digit(v: int) -> char {
    if v < 26 {
        (65 + v) as char
    } else if v < 52 {
        (97 + v - 26) as char
    } else if v < 62 {
        (48 + v - 52) as char
    } else if v == 62 {
        '+'
    } else {
        '/'
    }
}

/// The standard (RFC 4648) base64 text of `bytes`: each group of three
/// bytes gives four digits of six bits each; a last group of one or two
/// bytes is filled with zero bits and padded with `=` to four characters.
pub open spec fn base64_standard(bytes: Seq<u8>) -> Seq<char>
    decreases bytes.len(),
{
    if bytes.len() == 0 {
        Seq::empty()
    } else if bytes.len() == 1 {
        let b0 = bytes[0] as int;
        seq![base64_digit(b0 / 4), base64_digit((b0 % 4) * 16), '=', '=']
    } else if bytes.len() == 2 {
        let b0 = bytes[0] as int;
        let b1 = bytes[1] as int;
        seq![
            base64_digit(b0 / 4),
            base64_digit((b0 % 4) * 16 + b1 / 16),
            base64_digit((b1 % 16) * 4),
            '=',
        ]
    } else {
        let b0 = bytes[0] as int;
        let b1 = bytes[1] as int;
        let b2 = bytes[2] as int;
        seq![
            base64_digit(b0 / 4),
            base64_digit((b0 % 4) * 16 + b1 / 16),
            base64_digit((b1 % 16) * 4 + b2 / 64),
            base64_digit(b2 % 64),
        ] + base64_standard(bytes.subrange(3, bytes.len() as int))
    }
}

/// Whether `base64` can size the text for `len` input bytes: four output
/// characters for each started group of three must fit in a `usize`.
pub open spec fn base64_len_fits(len: nat) -> bool {
    (len + 2) / 3 * 4 <= usize::MAX
}

/// Encodes `bytes` with `base64::engine::general_purpose::STANDARD.encode`.
/// The contract claims that the result is the standard padded base64 text
/// of the bytes; it asks that the encoded length fit in a `usize`, where the
/// crate would otherwise panic.
#[verifier::external_body]
fn base64_encode(bytes: &[u8]) -> (s: String)
    requires
        base64_len_fits(bytes@.len()),
    ensures
        s@ == base64_standard(bytes@),
{
    base64::engine::general_purpose::STANDARD.encode(bytes)
}

/// Law: the text has four characters for each started group of three bytes.
pub proof fn law_base64_length(bytes: Seq<u8>)
    ensures
        base64_standard(bytes).len() == (bytes.len() + 2) / 3 * 4,
    decreases bytes.len(),
{
    if bytes.len() > 2 {
        law_base64_length(bytes.subrange(3, bytes.len() as int));
    }
}

/// Example: the bytes of "GIF" encode as "R0lG".
pub proof fn example_base64_gif()
    ensures
        base64_standard(seq![71u8, 73u8, 70u8]) == seq!['R', '0', 'l', 'G'],
{
    let b = seq![71u8, 73u8, 70u8];
    assert(b.subrange(3, 3) =~= Seq::<u8>::empty());
    assert(base64_standard(b.subrange(3, 3)) =~= Seq::<char>::empty());
    assert(b[0] as int / 4 == 17 && (b[0] as int % 4) * 16 + b[1] as int / 16 == 52);
    assert((b[1] as int % 16) * 4 + b[2] as int / 64 == 37 && b[2] as int % 64 == 6);
    assert(base64_digit(17) == 'R');
    assert(base64_digit(52) == '0');
    assert(base64_digit(37) == 'l');
    assert(base64_digit(6) == 'G');
    assert(base64_standard(b) =~= seq!['R', '0', 'l', 'G']);
}

/// The media type guessed from an image URL.
pub open spec fn mime_for_url(url: Seq<char>) -> Seq<char> {
    if has_substring(url, ".png"@) {
        "image/png"@
    } else if has_substring(url, ".gif"@) {
        "image/gif"@
    } else if has_substring(url, ".webp"@) {
        "image/webp"@
    } else {
        "image/jpeg"@
    }
}

/// Guesses the media type of an image from its URL: PNG, GIF or WebP when
/// the URL mentions that extension (checked in that order), JPEG otherwise.
pub fn image_mime_type(url: &str) -> (m: &'static str)
    ensures
        m@ == mime_for_url(url@),
{
    if str_contains(url, ".png") {
        "image/png"
    } else if str_contains(url, ".gif") {
        "image/gif"
    } else if str_contains(url, ".webp") {
        "image/webp"
    } else {
        "image/jpeg"
    }
}

/// Law: the media type follows the extension mentioned anywhere in the
/// URL, not only at its end: PNG whenever ".png" occurs, else GIF whenever
/// ".gif" occurs, else WebP whenever ".webp" occurs, else JPEG.
pub proof fn law_mime_by_extension(url: Seq<char>, before: Seq<char>, after: Seq<char>)
    ensures
        has_substring(url, ".png"@) ==> mime_for_url(url) == "image/png"@,
        !has_substring(url, ".png"@) && has_substring(url, ".gif"@) ==> mime_for_url(url)
            == "image/gif"@,
        !has_substring(url, ".png"@) && !has_substring(url, ".gif"@) && has_substring(url, ".webp"@)
            ==> mime_for_url(url) == "image/webp"@,
        !has_substring(url, ".png"@) && !has_substring(url, ".gif"@) && !has_substring(
            url,
            ".webp"@,
        ) ==> mime_for_url(url) == "image/jpeg"@,
        mime_for_url(before + ".png"@ + after) == "image/png"@,
{
    lemma_occurs_between(before + ".png"@ + after, before, ".png"@, after);
}

/// The `data:` URL that embeds `bytes` fetched from `url`.
pub open spec fn data_url(url: Seq<char>, bytes: Seq<u8>) -> Seq<char> {
    "data:"@ + mime_for_url(url) + ";base64,"@ + base64_standard(bytes)
}

/// Builds the `data:` URL for image bytes fetched from `url`.
pub fn image_data_url(url: &str, bytes: &[u8]) -> (s: String)
    requires
        base64_len_fits(bytes@.len()),
    ensures
        s@ == data_url(url@, bytes@),
{
    let mime = image_mime_type(url);
    let encoded = base64_encode(bytes);
    let mut s = String::from_str("data:");
    s.append(mime);
    s.append(";base64,");
    s.append(encoded.as_str());
    s
}

} // verus!
