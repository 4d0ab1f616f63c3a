use vstd::prelude::*;
use vstd::utf8::encode_utf8;
use crate::crypto::{argon2_accepts, argon2_verify};
use crate::errors::AppError;
use crate::models::business::Business;

verus! {

/// Keys shorter than this many characters are refused before any lookup.
pub const API_KEY_PREFIX_LEN: usize = 8;

/// The API key carried by an `Authorization` header value, if the value is `Bearer `
/// followed by a key of at least eight characters.
pub open spec fn bearer_credentials(header: Seq<char>) -> Option<Seq<char>> {
    if header.len() >= 7 && header.subrange(0, 7) == "Bearer "@ && header.len() - 7 >= 8 {
        Some(header.subrange(7, header.len() as int))
    } else {
        None
    }
}

/// The part of a key under which it is looked up: its first eight characters.
pub open spec fn key_prefix(key: Seq<char>) -> Seq<char> {
    key.subrange(0, 8)
}

/// A key taken from a request, with the prefix that selects candidate businesses.
#[derive(Debug)]
pub struct BearerKey {
    pub raw_key: String,
    pub prefix: String,
}

/// Reads the API key from the `Authorization` header value, if present. A value that is
/// missing, does not start with `Bearer `, or carries a key of fewer than eight
/// characters is `Unauthorized`.
pub fn bearer_key(header: Option<&str>) -> (r: Result<BearerKey, AppError>)
    ensures
        r is Err ==> r matches Err(AppError::Unauthorized),
        header is None ==> r is Err,
        header matches Some(h) ==> match bearer_credentials(h@) {
            Some(key) => r matches Ok(k) && k.raw_key@ == key && k.prefix@ == key_prefix(key),
            None => r is Err,
        },
{
    let h = match header {
        Some(h) => h,
        None => return Err(AppError::Unauthorized),
    };
    proof {
        reveal_strlit("Bearer ");
    }
    let n = h.unicode_len();
    if n < 7 {
        return Err(AppError::Unauthorized);
    }
    let head = h.substring_char(0, 7);
    if !crate::text::text_eq(head, "Bearer ") {
        return Err(AppError::Unauthorized);
    }
    if n - 7 < API_KEY_PREFIX_LEN {
        return Err(AppError::Unauthorized);
    }
    let key = h.substring_char(7, n);
    let prefix = h.substring_char(7, 15);
    assert(prefix@ =~= key_prefix(key@));
    Ok(BearerKey { raw_key: crate::text::owned(key), prefix: crate::text::owned(prefix) })
}

/// The first of the candidates whose stored hash accepts the key, if any.
pub open spec fn first_accepting(key: Seq<u8>, candidates: Seq<Business>) -> Option<Business>
    decreases candidates.len(),
{
    if candidates.len() == 0 {
        None
    } else if argon2_accepts(key, candidates[0].api_key_hash@) {
        Some(candidates[0])
    } else {
        first_accepting(key, candidates.drop_first())
    }
}

/// The business that a key authenticates among the candidates stored under its prefix:
/// the first whose stored Argon2 hash the key verifies against; `Unauthorized` where
/// none does.
pub fn authenticate(raw_key: &str, candidates: Vec<Business>) -> (r: Result<Business, AppError>)
    ensures
        first_accepting(encode_utf8(raw_key@), candidates@) matches Some(b) ==> r == Ok::<
            Business,
            AppError,
        >(b),
        first_accepting(encode_utf8(raw_key@), candidates@) is None ==> r matches Err(
            AppError::Unauthorized,
        ),
{
    let ghost key = encode_utf8(raw_key@);
    let ghost all = candidates@;
    let mut pool = candidates;
    assert(all.skip(0) =~= all);
    let bytes = raw_key.as_bytes();
    let mut i: usize = 0;
    let n = pool.len();
    while i < n
        invariant
            n == pool@.len(),
            pool@ == all,
            i <= n,
            bytes@ == key,
            key == encode_utf8(raw_key@),
            all == candidates@,
            first_accepting(key, all) == first_accepting(key, all.skip(i as int)),
        decreases n - i,
    {
        assert(all.skip(i as int)[0] == all[i as int]);
        if argon2_verify(bytes, pool[i].api_key_hash.as_str()) {
            assert(first_accepting(key, all.skip(i as int)) == Some(all[i as int]));
            let b = pool.remove(i);
            assert(b == all[i as int]);
            return Ok(b);
        }
        assert(all.skip(i as int).drop_first() =~= all.skip(i + 1));
        i = i + 1;
    }
    assert(all.skip(n as int).len() == 0);
    Err(AppError::Unauthorized)
}

} // verus!
