use vstd::prelude::*;
use argon2::password_hash::{PasswordHash, PasswordHasher, PasswordVerifier, SaltString};
use argon2::Argon2;
use hmac::{Hmac, Mac};
use sha2::Sha256;

verus! {

/// The sixteen lower-case hexadecimal digits, in order.
pub open spec fn hex_alphabet() -> Seq<char> {
    seq!['0', '1', '2', '3', '4', '5', '6', '7', '8', '9', 'a', 'b', 'c', 'd', 'e', 'f']
}

/// Lower-case hexadecimal text of a byte string: two digits per byte, high nibble first.
pub open spec fn hex_lower(bytes: Seq<u8>) -> Seq<char>
    decreases bytes.len(),
{
    if bytes.len() == 0 {
        Seq::empty()
    } else {
        let b = bytes.last();
        hex_lower(bytes.drop_last()) + seq![hex_alphabet()[(b / 16) as int], hex_alphabet()[(b % 16) as int]]
    }
}

/// Hex text has two digits per byte, each one of the sixteen lower-case digits.
pub proof fn lemma_hex_lower_shape(bytes: Seq<u8>)
    ensures
        hex_lower(bytes).len() == 2 * bytes.len(),
        forall|i: int| 0 <= i < hex_lower(bytes).len() ==> hex_alphabet().contains(#[trigger] hex_lower(bytes)[i]),
    decreases bytes.len(),
{
    if bytes.len() > 0 {
        lemma_hex_lower_shape(bytes.drop_last());
        let b = bytes.last();
        let prev = hex_lower(bytes.drop_last());
        let tail = seq![hex_alphabet()[(b / 16) as int], hex_alphabet()[(b % 16) as int]];
        assert(hex_alphabet().contains(hex_alphabet()[(b / 16) as int]));
        assert(hex_alphabet().contains(hex_alphabet()[(b % 16) as int]));
        assert forall|i: int| 0 <= i < hex_lower(bytes).len() implies hex_alphabet().contains(#[trigger] hex_lower(bytes)[i]) by {
            if i < prev.len() {
                assert(hex_lower(bytes)[i] == prev[i]);
            } else {
                assert(hex_lower(bytes)[i] == tail[i - prev.len()]);
            }
        }
    }
}

/// The code point of the hex digit for a nibble: `'0'..'9'` then `'a'..'f'`.
proof fn lemma_hex_digit_code(i: int)
    requires
        0 <= i < 16,
    ensures
        hex_alphabet()[i] as int == (if i < 10 { 48 + i } else { 87 + i }),
{
    if i == 0 {} else if i == 1 {} else if i == 2 {} else if i == 3 {} else if i == 4 {}
    else if i == 5 {} else if i == 6 {} else if i == 7 {} else if i == 8 {} else if i == 9 {}
    else if i == 10 {} else if i == 11 {} else if i == 12 {} else if i == 13 {} else if i == 14 {}
    else {}
}

/// Hex text determines the bytes it was made from: two byte strings of one length with
/// the same hex text are equal.
pub proof fn lemma_hex_lower_injective(a: Seq<u8>, b: Seq<u8>)
    requires
        a.len() == b.len(),
        hex_lower(a) == hex_lower(b),
    ensures
        a == b,
    decreases a.len(),
{
    if a.len() > 0 {
        let a0 = a.drop_last();
        let b0 = b.drop_last();
        lemma_hex_lower_shape(a0);
        lemma_hex_lower_shape(b0);
        let n = hex_lower(a0).len() as int;
        assert(hex_lower(a).subrange(0, n) =~= hex_lower(a0));
        assert(hex_lower(b).subrange(0, n) =~= hex_lower(b0));
        lemma_hex_lower_injective(a0, b0);
        let x = a.last();
        let y = b.last();
        assert(hex_lower(a)[n] == hex_alphabet()[(x / 16) as int]);
        assert(hex_lower(b)[n] == hex_alphabet()[(y / 16) as int]);
        assert(hex_lower(a)[n + 1] == hex_alphabet()[(x % 16) as int]);
        assert(hex_lower(b)[n + 1] == hex_alphabet()[(y % 16) as int]);
        lemma_hex_digit_code((x / 16) as int);
        lemma_hex_digit_code((y / 16) as int);
        lemma_hex_digit_code((x % 16) as int);
        lemma_hex_digit_code((y % 16) as int);
        assert(x / 16 == y / 16);
        assert(x % 16 == y % 16);
        assert(x == y);
        assert(a =~= a0.push(x));
        assert(b =~= b0.push(y));
    }
}

/// `hex::encode`: the documentation and source give lower-case digits, two per byte,
/// high nibble first; the contract states exactly that.
#[verifier::external_body]
pub(crate) fn hex_encode(bytes: &[u8]) -> (text: String)
    ensures
        text@ == hex_lower(bytes@),
{
    hex::encode(bytes)
}

/// The HMAC-SHA256 tag of `message` under `key`.
pub uninterp spec fn hmac_sha256_tag(key: Seq<u8>, message: Seq<u8>) -> Seq<u8>;

/// `Hmac::<Sha256>::new_from_slice`, `update` and `finalize`: the tag is named by
/// `hmac_sha256_tag` of the key and the message, and is 32 bytes long (the output size of
/// SHA-256). `new_from_slice` accepts keys of every length for HMAC.
#[verifier::external_body]
pub(crate) fn hmac_sha256(key: &[u8], message: &[u8]) -> (tag: Vec<u8>)
    ensures
        tag@ == hmac_sha256_tag(key@, message@),
        tag@.len() == 32,
{
    let mut mac = Hmac::<Sha256>::new_from_slice(key).expect("HMAC takes keys of any length");
    mac.update(message);
    mac.finalize().into_bytes().to_vec()
}

/// The PHC string that Argon2 (default parameters) gives for a password and a
/// B64-encoded salt, or `None` where it refuses them.
pub uninterp spec fn argon2_phc_string(password: Seq<u8>, salt: Seq<char>) -> Option<Seq<char>>;

/// Whether Argon2 verification of a password against a PHC string succeeds.
pub uninterp spec fn argon2_accepts(password: Seq<u8>, phc: Seq<char>) -> bool;

/// `SaltString::from_b64` and `Argon2::default().hash_password`, the result rendered
/// with `to_string`. The result is named by `argon2_phc_string`; the error is the
/// crate's message. Verification of the same password against the string produced
/// succeeds: `verify_password` recomputes the hash with the salt and parameters that
/// the string records and compares outputs.
#[verifier::external_body]
pub(crate) fn argon2_hash(password: &[u8], salt: &str) -> (r: Result<String, String>)
    ensures
        r is Ok <==> argon2_phc_string(password@, salt@) is Some,
        r matches Ok(phc) ==> argon2_phc_string(password@, salt@) == Some(phc@),
        r matches Ok(phc) ==> argon2_accepts(password@, phc@),
{
    let salt = match SaltString::from_b64(salt) {
        Ok(s) => s,
        Err(e) => return Err(format!("{}", e)),
    };
    match Argon2::default().hash_password(password, &salt) {
        Ok(h) => Ok(h.to_string()),
        Err(e) => Err(format!("{}", e)),
    }
}

/// `PasswordHash::new` and `Argon2::default().verify_password`: true exactly when the
/// string parses and verification succeeds, as named by `argon2_accepts`.
#[verifier::external_body]
pub(crate) fn argon2_verify(password: &[u8], phc: &str) -> (ok: bool)
    ensures
        ok == argon2_accepts(password@, phc@),
{
    match PasswordHash::new(phc) {
        Ok(h) => Argon2::default().verify_password(password, &h).is_ok(),
        Err(_) => false,
    }
}

/// `SaltString::generate` with `rand::thread_rng()`: a fresh random salt of sixteen
/// bytes in B64. Its value is random and not stated; what is stated is that Argon2 with
/// default parameters accepts it with any password of at most `0xFFFF_FFFF` bytes
/// (`MAX_PWD_LEN`), since the salt is longer than Argon2's minimum of eight bytes.
#[verifier::external_body]
pub(crate) fn generate_salt() -> (salt: String)
    ensures
        forall|pw: Seq<u8>| pw.len() <= 0xFFFF_FFFF ==> (#[trigger] argon2_phc_string(pw, salt@)) is Some,
{
    SaltString::generate(&mut rand::thread_rng()).as_str().to_owned()
}

} // verus!
