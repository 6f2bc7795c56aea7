//! Salted password hashes: PBKDF2 with HMAC-SHA512, kept as upper-case
//! hexadecimal text.

use ring::rand::SecureRandom;
use vstd::prelude::*;
use vstd::string::StringSliceAdditionalSpecFns;
use vstd::utf8::encode_utf8;
use crate::error::AppError;

verus! {

/// The rounds of the key derivation.
pub const PBKDF2_ITERATIONS: u32 = 100_000;

/// The length of a salt and of a derived key, in bytes.
pub const CREDENTIAL_LEN: usize = 64;

/// The longest salt or password, in bytes, that is handed to the key
/// derivation.
pub const MAX_INPUT_LEN: usize = 0x0fff_ffff;

/// The upper-case hexadecimal digit of a value below sixteen.
pub open spec fn hex_digit(n: int) -> char {
    if n == 0 {
        '0'
    } else if n == 1 {
        '1'
    } else if n == 2 {
        '2'
    } else if n == 3 {
        '3'
    } else if n == 4 {
        '4'
    } else if n == 5 {
        '5'
    } else if n == 6 {
        '6'
    } else if n == 7 {
        '7'
    } else if n == 8 {
        '8'
    } else if n == 9 {
        '9'
    } else if n == 10 {
        'A'
    } else if n == 11 {
        'B'
    } else if n == 12 {
        'C'
    } else if n == 13 {
        'D'
    } else if n == 14 {
        'E'
    } else {
        'F'
    }
}

/// The value of an upper-case hexadecimal digit; none for any other
/// character.
pub open spec fn hex_value(c: char) -> Option<int> {
    if c == '0' {
        Some(0)
    } else if c == '1' {
        Some(1)
    } else if c == '2' {
        Some(2)
    } else if c == '3' {
        Some(3)
    } else if c == '4' {
        Some(4)
    } else if c == '5' {
        Some(5)
    } else if c == '6' {
        Some(6)
    } else if c == '7' {
        Some(7)
    } else if c == '8' {
        Some(8)
    } else if c == '9' {
        Some(9)
    } else if c == 'A' {
        Some(10)
    } else if c == 'B' {
        Some(11)
    } else if c == 'C' {
        Some(12)
    } else if c == 'D' {
        Some(13)
    } else if c == 'E' {
        Some(14)
    } else if c == 'F' {
        Some(15)
    } else {
        None
    }
}

/// The bytes written as upper-case hexadecimal text, two digits for each
/// byte, the high half first.
pub open spec fn hex_upper(bytes: Seq<u8>) -> Seq<char>
    decreases bytes.len(),
{
    if bytes.len() == 0 {
        Seq::empty()
    } else {
        hex_upper(bytes.drop_last()).push(hex_digit(bytes.last() as int / 16)).push(
            hex_digit(bytes.last() as int % 16),
        )
    }
}

/// The bytes that `text` stands for as upper-case hexadecimal text; none
/// where its length is odd or a character is no upper-case hexadecimal
/// digit.
pub open spec fn hex_decoded(text: Seq<char>) -> Option<Seq<u8>>
    decreases text.len(),
{
    if text.len() == 0 {
        Some(Seq::empty())
    } else if text.len() == 1 {
        None
    } else {
        let n = text.len() as int;
        match (hex_decoded(text.subrange(0, n - 2)), hex_value(text[n - 2]), hex_value(text[n - 1])) {
            (Some(front), Some(high), Some(low)) => Some(front.push((high * 16 + low) as u8)),
            _ => None,
        }
    }
}

/// Whether every character of `text` is an upper-case hexadecimal digit.
pub open spec fn all_upper_hex(text: Seq<char>) -> bool {
    forall|i: int| 0 <= i < text.len() ==> hex_value(#[trigger] text[i]) is Some
}

/// Hexadecimal text has two upper-case hexadecimal digits for each byte,
/// and decodes to the bytes that it was written from.
pub proof fn lemma_hex_round_trip(bytes: Seq<u8>)
    ensures
        hex_upper(bytes).len() == 2 * bytes.len(),
        all_upper_hex(hex_upper(bytes)),
        hex_decoded(hex_upper(bytes)) == Some(bytes),
    decreases bytes.len(),
{
    if bytes.len() > 0 {
        let front = bytes.drop_last();
        let last = bytes.last() as int;
        lemma_hex_round_trip(front);
        let text = hex_upper(bytes);
        let n = text.len() as int;
        assert(text.subrange(0, n - 2) =~= hex_upper(front));
        assert(hex_value(hex_digit(last / 16)) == Some(last / 16));
        assert(hex_value(hex_digit(last % 16)) == Some(last % 16));
        assert((last / 16) * 16 + last % 16 == last);
        assert(front.push(bytes.last()) =~= bytes);
        assert forall|i: int| 0 <= i < text.len() implies hex_value(#[trigger] text[i])
            is Some by {
            if i < n - 2 {
                assert(text[i] == hex_upper(front)[i]);
            }
        }
    }
}

/// Text of upper-case hexadecimal digits has as many bytes in UTF-8 as it
/// has characters.
pub proof fn lemma_hex_text_is_ascii(text: Seq<char>)
    requires
        all_upper_hex(text),
    ensures
        encode_utf8(text).len() == text.len(),
{
    assert forall|i: int| 0 <= i < text.len() implies '\0' <= #[trigger] text[i] <= '\u{7f}' by {
        assert(hex_value(text[i]) is Some);
    }
    vstd::utf8::is_ascii_chars_encode_utf8(text);
}

/// The key that PBKDF2 with HMAC-SHA512 derives, as `ring::pbkdf2::derive`
/// computes it.
pub uninterp spec fn pbkdf2_hmac_sha512(
    iterations: u32,
    salt: Seq<u8>,
    secret: Seq<u8>,
    len: usize,
) -> Seq<u8>;

/// Fills a buffer of `len` bytes from `ring`'s system random number
/// generator.
///
/// Trusted: where the generator succeeds, there are `len` bytes; nothing
/// is claimed of what they are.
#[verifier::external_body]
fn random_bytes(len: usize) -> (r: Result<Vec<u8>, ring::error::Unspecified>)
    ensures
        match r {
            Ok(bytes) => bytes@.len() == len,
            Err(_) => true,
        },
{
    let mut bytes = vec![0u8; len];
    ring::rand::SystemRandom::new().fill(&mut bytes)?;
    Ok(bytes)
}

/// Calls `ring::pbkdf2::derive` with HMAC-SHA512 on a buffer of `len`
/// bytes.
///
/// Trusted: the buffer then holds `pbkdf2_hmac_sha512` of the arguments.
/// The bounds keep the call away from the lengths at which it panics.
#[verifier::external_body]
fn derive_key(iterations: u32, salt: &[u8], secret: &[u8], len: usize) -> (r: Vec<u8>)
    requires
        iterations > 0,
        salt@.len() <= MAX_INPUT_LEN,
        secret@.len() <= MAX_INPUT_LEN,
        len <= MAX_INPUT_LEN,
    ensures
        r@ == pbkdf2_hmac_sha512(iterations, salt@, secret@, len),
        r@.len() == len,
{
    let mut out = vec![0u8; len];
    let rounds = std::num::NonZeroU32::new(iterations).unwrap();
    ring::pbkdf2::derive(ring::pbkdf2::PBKDF2_HMAC_SHA512, rounds, salt, secret, &mut out);
    out
}

/// Calls `ring::pbkdf2::verify` with HMAC-SHA512.
///
/// Trusted: the call succeeds exactly where `previously_derived` is not
/// empty and is the key of its own length that `derive` gives for the other
/// arguments.
#[verifier::external_body]
fn verify_key(iterations: u32, salt: &[u8], secret: &[u8], previously_derived: &[u8]) -> (r:
    Result<(), ring::error::Unspecified>)
    requires
        iterations > 0,
        salt@.len() <= MAX_INPUT_LEN,
        secret@.len() <= MAX_INPUT_LEN,
        previously_derived@.len() <= MAX_INPUT_LEN,
    ensures
        r is Ok <==> (previously_derived@.len() > 0 && previously_derived@ == pbkdf2_hmac_sha512(
            iterations,
            salt@,
            secret@,
            previously_derived@.len() as usize,
        )),
{
    let rounds = std::num::NonZeroU32::new(iterations).unwrap();
    ring::pbkdf2::verify(
        ring::pbkdf2::PBKDF2_HMAC_SHA512,
        rounds,
        salt,
        secret,
        previously_derived,
    )
}

/// Calls `data_encoding::HEXUPPER.encode`.
///
/// Trusted: the text is the bytes in upper-case hexadecimal. The bound
/// keeps the call away from the lengths at which it panics.
#[verifier::external_body]
fn hex_upper_encode(bytes: &[u8]) -> (r: String)
    requires
        bytes@.len() <= usize::MAX / 512,
    ensures
        r@ == hex_upper(bytes@),
{
    data_encoding::HEXUPPER.encode(bytes)
}

/// Calls `data_encoding::HEXUPPER.decode` on the bytes of `text`.
///
/// Trusted: the call gives the bytes that the text stands for, and fails
/// exactly where the text stands for none. The bound keeps the call away
/// from the lengths at which it panics.
#[verifier::external_body]
fn hex_upper_decode(text: &str) -> (r: Result<Vec<u8>, data_encoding::DecodeError>)
    requires
        text.spec_bytes().len() <= usize::MAX / 8,
    ensures
        match r {
            Ok(bytes) => hex_decoded(text@) == Some(bytes@),
            Err(_) => hex_decoded(text@) is None,
        },
{
    data_encoding::HEXUPPER.decode(text.as_bytes())
}

/// The stored hash of `password` under `salt`: the derived key in
/// upper-case hexadecimal.
pub open spec fn password_hash(salt: Seq<u8>, password: Seq<char>) -> Seq<char> {
    hex_upper(
        pbkdf2_hmac_sha512(PBKDF2_ITERATIONS, salt, encode_utf8(password), CREDENTIAL_LEN),
    )
}

/// Whether `password` is the one that the stored salt and hash were made
/// from: both decode, the hash is not empty, and it is the key of its length
/// that is derived from the password under the salt.
pub open spec fn accepts(salt: Seq<char>, hash: Seq<char>, password: Seq<char>) -> bool {
    match (hex_decoded(salt), hex_decoded(hash)) {
        (Some(s), Some(h)) => h.len() > 0 && h == pbkdf2_hmac_sha512(
            PBKDF2_ITERATIONS,
            s,
            encode_utf8(password),
            h.len() as usize,
        ),
        _ => false,
    }
}

/// Whether the salt, the hash and the password are short enough, as UTF-8,
/// to be decoded and derived from.
pub open spec fn within_limits(salt: Seq<char>, hash: Seq<char>, password: Seq<char>) -> bool {
    &&& encode_utf8(salt).len() <= MAX_INPUT_LEN
    &&& encode_utf8(hash).len() <= MAX_INPUT_LEN
    &&& encode_utf8(password).len() <= MAX_INPUT_LEN
}

/// A text has no more characters than its UTF-8 form has bytes.
proof fn lemma_utf8_is_not_shorter(text: Seq<char>)
    ensures
        text.len() <= encode_utf8(text).len(),
    decreases text.len(),
{
    if text.len() > 0 {
        lemma_utf8_is_not_shorter(text.drop_first());
        assert(vstd::utf8::encode_scalar(text[0] as u32).len() >= 1);
    }
}

/// Hexadecimal text stands for half as many bytes as it has characters.
proof fn lemma_decoded_len(text: Seq<char>)
    ensures
        hex_decoded(text) matches Some(bytes) ==> 2 * bytes.len() == text.len(),
    decreases text.len(),
{
    if text.len() >= 2 {
        lemma_decoded_len(text.subrange(0, text.len() as int - 2));
    }
}

/// The longest salt, in bytes, that is written in hexadecimal and handed to
/// the key derivation.
pub const MAX_SALT_LEN: usize = 0x7f_ffff;

/// The stored form of `password` under the given salt: the hash and the
/// salt, both in upper-case hexadecimal. The hash has 128 digits, the salt
/// two for each of its bytes, and the pair accepts the password.
pub fn hash_with_salt(password: &str, salt: &[u8]) -> (r: (String, String))
    requires
        salt@.len() <= MAX_SALT_LEN,
        encode_utf8(password@).len() <= MAX_INPUT_LEN,
    ensures
        r.0@ == password_hash(salt@, password@),
        r.1@ == hex_upper(salt@),
        r.0@.len() == 2 * CREDENTIAL_LEN,
        r.1@.len() == 2 * salt@.len(),
        all_upper_hex(r.0@),
        all_upper_hex(r.1@),
        accepts(r.1@, r.0@, password@),
        within_limits(r.1@, r.0@, password@),
{
    let key = derive_key(PBKDF2_ITERATIONS, salt, password.as_bytes(), CREDENTIAL_LEN);
    let hash = hex_upper_encode(key.as_slice());
    let salt_text = hex_upper_encode(salt);
    proof {
        lemma_hex_round_trip(key@);
        lemma_hex_round_trip(salt@);
        lemma_hex_text_is_ascii(hash@);
        lemma_hex_text_is_ascii(salt_text@);
    }
    (hash, salt_text)
}

/// Hashes `password` under a fresh random salt of 64 bytes, and gives the
/// hash and the salt in upper-case hexadecimal, 128 digits each. The pair
/// accepts the password and is within the limits of `check_password`, so
/// that checking the same password against it succeeds.
///
/// Fails with `Unspecified` where no random salt can be had, and with
/// `InvalidCredentials` exactly where the password is longer than the key
/// derivation takes.
pub fn encrypt_password(password: String) -> (r: Result<(String, String), AppError>)
    ensures
        match r {
            Ok((hash, salt)) => {
                &&& hex_decoded(salt@) matches Some(s)
                &&& s.len() == CREDENTIAL_LEN
                &&& hash@ == password_hash(s, password@)
                &&& hash@.len() == 2 * CREDENTIAL_LEN
                &&& salt@.len() == 2 * CREDENTIAL_LEN
                &&& all_upper_hex(hash@)
                &&& all_upper_hex(salt@)
                &&& accepts(salt@, hash@, password@)
                &&& within_limits(salt@, hash@, password@)
            },
            Err(AppError::InvalidCredentials) => encode_utf8(password@).len() > MAX_INPUT_LEN,
            Err(AppError::Unspecified(_)) => encode_utf8(password@).len() <= MAX_INPUT_LEN,
            Err(_) => false,
        },
{
    if password.as_str().as_bytes().len() > MAX_INPUT_LEN {
        return Err(AppError::InvalidCredentials);
    }
    let salt = match random_bytes(CREDENTIAL_LEN) {
        Ok(salt) => salt,
        Err(e) => {
            return Err(AppError::Unspecified(e));
        },
    };
    proof {
        lemma_hex_round_trip(salt@);
    }
    Ok(hash_with_salt(password.as_str(), salt.as_slice()))
}

/// Checks `password` against a stored salt and hash.
///
/// Where the three texts are within the limits: `Decode` exactly where the
/// salt or the hash is no upper-case hexadecimal text, `InvalidCredentials`
/// exactly where both are and the password is not accepted, and success
/// exactly where it is. Texts beyond the limits are `InvalidCredentials`.
pub fn check_password(salt: &str, hash: &str, password: &str) -> (r: Result<(), AppError>)
    ensures
        (within_limits(salt@, hash@, password@) && accepts(salt@, hash@, password@)) ==> r is Ok,
        match r {
            Ok(_) => accepts(salt@, hash@, password@) && within_limits(salt@, hash@, password@),
            Err(AppError::Decode(_)) => {
                &&& within_limits(salt@, hash@, password@)
                &&& hex_decoded(salt@) is None || hex_decoded(hash@) is None
            },
            Err(AppError::InvalidCredentials) => {
                ||| !within_limits(salt@, hash@, password@)
                ||| (hex_decoded(salt@) is Some && hex_decoded(hash@) is Some && !accepts(
                    salt@,
                    hash@,
                    password@,
                ))
            },
            Err(_) => false,
        },
{
    if salt.as_bytes().len() > MAX_INPUT_LEN || hash.as_bytes().len() > MAX_INPUT_LEN
        || password.as_bytes().len() > MAX_INPUT_LEN {
        return Err(AppError::InvalidCredentials);
    }
    let salt_bytes = match hex_upper_decode(salt) {
        Ok(bytes) => bytes,
        Err(e) => {
            return Err(AppError::Decode(e));
        },
    };
    let hash_bytes = match hex_upper_decode(hash) {
        Ok(bytes) => bytes,
        Err(e) => {
            return Err(AppError::Decode(e));
        },
    };
    proof {
        lemma_decoded_len(salt@);
        lemma_decoded_len(hash@);
        lemma_utf8_is_not_shorter(salt@);
        lemma_utf8_is_not_shorter(hash@);
    }
    match verify_key(
        PBKDF2_ITERATIONS,
        salt_bytes.as_slice(),
        password.as_bytes(),
        hash_bytes.as_slice(),
    ) {
        Ok(_) => Ok(()),
        Err(_) => Err(AppError::InvalidCredentials),
    }
}

} // verus!
