//! Credential encryption and captcha decoding.
//!
//! The login flow encrypts the password with AES-128-ECB under a key the
//! service hands out, and ships the result as standard base64; the captcha
//! arrives as a base64 payload inside a data URL.  The cipher and the base64
//! codec come from outside crates and are relied on through the wrappers
//! below; the shape checks around them are verified here.

use vstd::prelude::*;

use crate::error::ErrorKind;
use vstd::string::StringSliceAdditionalSpecFns;
use aes::cipher::block_padding::Pkcs7;
use aes::cipher::generic_array::GenericArray;
use aes::cipher::{BlockEncryptMut, KeyInit};

verus! {

/// The AES-128-ECB encryption, under PKCS#7 padding, of `data` with `key`.
pub uninterp spec fn aes128_ecb_pkcs7_of(key: Seq<u8>, data: Seq<u8>) -> Seq<u8>;

/// The standard, padded base64 encoding of `data`.
pub uninterp spec fn base64_of(data: Seq<u8>) -> Seq<char>;

/// The bytes a well-formed standard base64 text decodes to.
pub uninterp spec fn base64_decoded(text: Seq<char>) -> Seq<u8>;

/// Relies on `ecb::Encryptor<aes::Aes128>` with `encrypt_padded_mut::<Pkcs7>`:
/// AES-128-ECB under PKCS#7 padding, whose ciphertext depends on the key and
/// plaintext alone and fills whole 16-byte blocks, always padding by at least
/// one byte.
#[verifier::external_body]
fn aes128_ecb_encrypt(key: &[u8], data: &[u8]) -> (cipher: Vec<u8>)
    requires
        key@.len() == 16,
        data@.len() <= 127,
    ensures
        cipher@ == aes128_ecb_pkcs7_of(key@, data@),
        cipher@.len() == 16 * (data@.len() / 16 + 1),
{
    let key = GenericArray::from_slice(key);
    let mut buf = [0u8; 128];
    let pt_len = data.len();
    buf[..pt_len].copy_from_slice(data);
    let ct = ecb::Encryptor::<aes::Aes128>::new(key)
        .encrypt_padded_mut::<Pkcs7>(&mut buf, pt_len)
        .unwrap();
    ct.to_vec()
}

/// Relies on `base64_simd::STANDARD.encode_to_string`: the standard alphabet
/// with padding, four characters for every started triple of bytes, depending
/// on the input bytes alone.
#[verifier::external_body]
fn base64_encode(data: &[u8]) -> (text: String)
    ensures
        text@ == base64_of(data@),
        text@.len() == 4 * ((data@.len() + 2) / 3),
{
    base64_simd::STANDARD.encode_to_string(data)
}

/// Relies on `base64_simd::STANDARD.decode_to_vec`: it rejects text that is
/// not standard base64, and on success the bytes depend on the text alone.
#[verifier::external_body]
fn base64_decode(text: &str) -> (decoded: Result<Vec<u8>, ErrorKind>)
    ensures
        decoded matches Ok(bytes) ==> bytes@ == base64_decoded(text@),
        decoded matches Err(e) ==> e is ParseError,
{
    match base64_simd::STANDARD.decode_to_vec(text) {
        Ok(bytes) => Ok(bytes),
        Err(e) => Err(ErrorKind::ParseError(format!("{:?}", e))),
    }
}

/// Encrypt a password for the login request: AES-128-ECB with PKCS#7 padding
/// under the service-supplied key, then standard base64.
///
/// The cipher needs a 16-byte key and a password short enough to pad into its
/// one-shot buffer; anything else is rejected rather than attempted.
pub fn encrypt_password(password: &str, aes_key: &[u8]) -> (encrypted: Result<String, ErrorKind>)
    ensures
        aes_key@.len() == 16 && password.spec_bytes().len() <= 127 ==> (encrypted matches Ok(s)
            && s@ == base64_of(aes128_ecb_pkcs7_of(aes_key@, password.spec_bytes()))),
        !(aes_key@.len() == 16 && password.spec_bytes().len() <= 127) ==> (encrypted matches Err(e)
            && e is ParseError),
{
    let bytes = password.as_bytes();
    if aes_key.len() != 16 {
        return Err(ErrorKind::ParseError(String::from_str("the AES key must be 16 bytes")));
    }
    if bytes.len() > 127 {
        return Err(ErrorKind::ParseError(String::from_str("the password is too long to pad")));
    }
    let cipher = aes128_ecb_encrypt(aes_key, bytes);
    Ok(base64_encode(cipher.as_slice()))
}

/// The position of the first `c` at or after `from`, or the length of `s`
/// when there is none.
pub open spec fn char_index_from(s: Seq<char>, c: char, from: int) -> int
    decreases s.len() - from
        when 0 <= from <= s.len()
{
    if from >= s.len() {
        s.len() as int
    } else if s[from] == c {
        from
    } else {
        char_index_from(s, c, from + 1)
    }
}

proof fn lemma_char_index_bounds(s: Seq<char>, c: char, from: int)
    requires
        0 <= from <= s.len(),
    ensures
        from <= char_index_from(s, c, from) <= s.len(),
    decreases s.len() - from,
{
    if from < s.len() && s[from] != c {
        lemma_char_index_bounds(s, c, from + 1);
    }
}

/// The payload of a data URL: the text between the first comma and the next
/// one (or the end), which is where a base64 image body lives.  `None` when
/// the text has no comma at all.
pub open spec fn spec_data_url_payload(s: Seq<char>) -> Option<Seq<char>> {
    let c1 = char_index_from(s, ',', 0);
    if c1 == s.len() {
        None
    } else {
        Some(s.subrange(c1 + 1, char_index_from(s, ',', c1 + 1)))
    }
}

/// The position of the first `c` in `s` at or after `from`, if any.
fn find_char(s: &str, c: char, from: usize) -> (found: Option<usize>)
    requires
        from <= s@.len(),
    ensures
        s@.len() <= usize::MAX,
        ({
            let f = char_index_from(s@, c, from as int);
            if f < s@.len() {
                found matches Some(j) && j as int == f
            } else {
                found is None
            }
        }),
{
    let n = s.unicode_len();
    let mut i = from;
    while i < n
        invariant
            from <= i <= n,
            n == s@.len(),
            char_index_from(s@, c, from as int) == char_index_from(s@, c, i as int),
        decreases n - i,
    {
        if s.get_char(i) == c {
            return Some(i);
        }
        i = i + 1;
    }
    None
}

/// Decode the image bytes out of a captcha data URL: take what stands after
/// the first comma (up to the next one, if any) and decode it as standard
/// base64.  Text without a comma, or with a payload that is not base64, is
/// rejected.
pub fn decode_captcha_image(captcha_b64: &str) -> (image: Result<Vec<u8>, ErrorKind>)
    ensures
        spec_data_url_payload(captcha_b64@) is None ==> (image matches Err(e) && e is ParseError),
        spec_data_url_payload(captcha_b64@) matches Some(payload) ==> ((image matches Ok(bytes)
            ==> bytes@ == base64_decoded(payload)) && (image matches Err(e) ==> e is ParseError)),
{
    match find_char(captcha_b64, ',', 0) {
        None => Err(
            ErrorKind::ParseError(String::from_str("the captcha data URL has no payload")),
        ),
        Some(c1) => {
            let n = captcha_b64.unicode_len();
            proof {
                lemma_char_index_bounds(captcha_b64@, ',', 0);
                lemma_char_index_bounds(captcha_b64@, ',', c1 + 1);
            }
            let c2 = match find_char(captcha_b64, ',', c1 + 1) {
                Some(j) => j,
                None => n,
            };
            let payload = captcha_b64.substring_char(c1 + 1, c2);
            base64_decode(payload)
        },
    }
}

/// The position of the first occurrence of `pat` at or after `from` in `s`,
/// or the length of `s` when there is none.
pub open spec fn find_sub(s: Seq<char>, pat: Seq<char>, from: int) -> int
    decreases s.len() - from
        when 0 <= from <= s.len()
{
    if from + pat.len() > s.len() {
        s.len() as int
    } else if pat.len() == 0 {
        from
    } else if s.subrange(from, from + pat.len()) == pat {
        from
    } else {
        find_sub(s, pat, from + 1)
    }
}

proof fn lemma_find_sub_bounds(s: Seq<char>, pat: Seq<char>, from: int)
    requires
        0 <= from <= s.len(),
    ensures
        from <= find_sub(s, pat, from) <= s.len(),
    decreases s.len() - from,
{
    if from + pat.len() <= s.len() && pat.len() > 0 && s.subrange(from, from + pat.len())
        != pat {
        lemma_find_sub_bounds(s, pat, from + 1);
    }
}

/// Whether `pat` stands in `s` at position `i`.
fn match_at(s: &str, pat: &str, i: usize) -> (matches_here: bool)
    requires
        i + pat@.len() <= s@.len(),
        i + pat@.len() <= usize::MAX,
    ensures
        matches_here == (s@.subrange(i as int, i as int + pat@.len() as int) == pat@),
{
    let plen = pat.unicode_len();
    let mut j: usize = 0;
    while j < plen
        invariant
            j <= plen,
            plen == pat@.len(),
            i + plen <= s@.len(),
            i + plen <= usize::MAX,
            forall|q: int| 0 <= q < j ==> s@[i + q] == pat@[q],
        decreases plen - j,
    {
        if s.get_char(i + j) != pat.get_char(j) {
            assert(s@.subrange(i as int, i as int + plen as int)[j as int] != pat@[j as int]);
            return false;
        }
        j = j + 1;
    }
    proof {
        assert(s@.subrange(i as int, i as int + plen as int) =~= pat@);
    }
    true
}

/// The position of the first occurrence of `pat` in `s`, if any.
fn find_marker(s: &str, pat: &str) -> (found: Option<usize>)
    requires
        pat@.len() >= 1,
    ensures
        ({
            let f = find_sub(s@, pat@, 0);
            if f < s@.len() {
                found matches Some(i) && i as int == f
            } else {
                found is None
            }
        }),
{
    let n = s.unicode_len();
    let plen = pat.unicode_len();
    if plen > n {
        return None;
    }
    let mut i: usize = 0;
    while i <= n - plen
        invariant
            1 <= plen <= n,
            n == s@.len(),
            plen == pat@.len(),
            i <= n - plen + 1,
            find_sub(s@, pat@, 0) == find_sub(s@, pat@, i as int),
        decreases n - i,
    {
        if match_at(s, pat, i) {
            return Some(i);
        }
        i = i + 1;
    }
    None
}

/// The AES key the login page carries: the text between the first pair of
/// double quotes after the `loginVue.loginForm.aesKey` marker.  `None` when
/// the marker or either quote is missing.
pub open spec fn spec_aes_key_text(html: Seq<char>) -> Option<Seq<char>> {
    let m = find_sub(html, "loginVue.loginForm.aesKey"@, 0);
    if m == html.len() {
        None
    } else {
        let q1 = char_index_from(html, '"', m);
        if q1 == html.len() {
            None
        } else {
            let q2 = char_index_from(html, '"', q1 + 1);
            if q2 == html.len() {
                None
            } else {
                Some(html.subrange(q1 + 1, q2))
            }
        }
    }
}

/// Cut the AES key out of the login page's HTML: the quoted text following
/// the key marker.  A page without the marker or the quotes is rejected.
pub fn extract_aes_key(html: &str) -> (key: Result<String, ErrorKind>)
    ensures
        spec_aes_key_text(html@) is None ==> (key matches Err(e) && e is ParseError),
        spec_aes_key_text(html@) matches Some(text) ==> (key matches Ok(s) && s@ == text),
{
    let missing = "Failed to extract AES key";
    proof {
        reveal_strlit("loginVue.loginForm.aesKey");
        assert("loginVue.loginForm.aesKey"@.len() == 25);
        lemma_find_sub_bounds(html@, "loginVue.loginForm.aesKey"@, 0);
    }
    match find_marker(html, "loginVue.loginForm.aesKey") {
        None => Err(ErrorKind::ParseError(String::from_str(missing))),
        Some(m) => {
            proof {
                lemma_char_index_bounds(html@, '"', m as int);
            }
            match find_char(html, '"', m) {
                None => Err(ErrorKind::ParseError(String::from_str(missing))),
                Some(q1) => {
                    proof {
                        lemma_char_index_bounds(html@, '"', q1 + 1);
                    }
                    match find_char(html, '"', q1 + 1) {
                        None => Err(ErrorKind::ParseError(String::from_str(missing))),
                        Some(q2) => {
                            let text = html.substring_char(q1 + 1, q2);
                            Ok(String::from_str(text))
                        },
                    }
                },
            }
        },
    }
}

} // verus!
