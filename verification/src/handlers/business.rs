use vstd::prelude::*;
use vstd::utf8::{encode_utf8, is_ascii_chars, is_ascii_chars_encode_utf8};
use crate::crypto::{argon2_accepts, argon2_hash, argon2_phc_string, generate_salt};
use crate::entropy::{is_ascii_alphanumeric, new_ulid, random_alphanumeric};
use crate::errors::AppError;
use crate::models::business::Business;
use crate::routes::auth::{bearer_credentials, first_accepting, key_prefix};
use crate::text::{joined, owned};

verus! {

/// A request to register a business.
#[derive(Debug)]
pub struct CreateBusinessRequest {
    pub name: String,
}

/// The answer to a registration: the only time the API key is shown.
#[derive(Debug)]
pub struct CreateBusinessResponse {
    pub id: String,
    pub name: String,
    pub api_key: String,
}

/// A business about to be stored: the key itself is not kept, only its Argon2 hash and
/// its prefix.
#[derive(Debug)]
pub struct NewBusiness {
    pub id: String,
    pub name: String,
    pub api_key_hash: String,
    pub api_key_prefix: String,
}

/// The shape of an API key: `sk_` followed by 32 ASCII letters and digits.
pub open spec fn is_api_key(key: Seq<char>) -> bool {
    &&& key.len() == 35
    &&& key.subrange(0, 3) == "sk_"@
    &&& forall|i: int| 3 <= i < 35 ==> is_ascii_alphanumeric(#[trigger] key[i])
}

/// A fresh API key: `sk_` followed by 32 random letters and digits.
pub fn generate_api_key() -> (key: String)
    ensures
        is_api_key(key@),
{
    let random_part = random_alphanumeric(32);
    let key = joined("sk_", random_part.as_str());
    proof {
        reveal_strlit("sk_");
        assert(key@.subrange(0, 3) =~= "sk_"@);
        assert forall|i: int| 3 <= i < 35 implies is_ascii_alphanumeric(#[trigger] key@[i]) by {
            assert(key@[i] == random_part@[i - 3]);
        }
    }
    key
}

/// Registers a business: a fresh id, a fresh API key, its prefix (the first eight
/// characters) and its Argon2 hash under a fresh salt. The key is answered once (only
/// its hash and prefix are kept) and verifies against the stored hash. Registration
/// always succeeds: the generated salt and the 35-byte key are ones Argon2 accepts.
pub fn register_business(request: CreateBusinessRequest) -> (r: Result<
    (NewBusiness, CreateBusinessResponse),
    AppError,
>)
    ensures
        r is Ok,
        r matches Ok((nb, resp)) ==> {
            &&& nb.id@.len() == 26
            &&& resp.id@ == nb.id@
            &&& nb.name@ == request.name@
            &&& resp.name@ == request.name@
            &&& is_api_key(resp.api_key@)
            &&& nb.api_key_prefix@ == key_prefix(resp.api_key@)
            &&& argon2_accepts(encode_utf8(resp.api_key@), nb.api_key_hash@)
        },
{
    let id = new_ulid();
    let raw_key = generate_api_key();
    let prefix = raw_key.as_str().substring_char(0, 8);
    let salt = generate_salt();
    proof {
        assert(is_ascii_chars(raw_key@)) by {
            reveal_strlit("sk_");
            assert forall|i: int| 0 <= i < raw_key@.len() implies '\0' <= #[trigger] raw_key@[i]
                <= '\u{7f}' by {
                if i >= 3 {
                    assert(is_ascii_alphanumeric(raw_key@[i]));
                } else {
                    assert(raw_key@[i] == raw_key@.subrange(0, 3)[i]);
                }
            }
        }
        is_ascii_chars_encode_utf8(raw_key@);
        assert(argon2_phc_string(encode_utf8(raw_key@), salt@) is Some);
    }
    let hashed = argon2_hash(raw_key.as_str().as_bytes(), salt.as_str());
    match hashed {
        Err(msg) => {
            let m = joined("Hashing failed: ", msg.as_str());
            assert(m@ == "Hashing failed: "@ + msg@);
            Err(AppError::Internal(m))
        },
        Ok(api_key_hash) => {
            let nb = NewBusiness {
                id: owned(id.as_str()),
                name: owned(request.name.as_str()),
                api_key_hash,
                api_key_prefix: owned(prefix),
            };
            let resp = CreateBusinessResponse { id, name: request.name, api_key: raw_key };
            Ok((nb, resp))
        },
    }
}

/// A registered key authenticates its business: sent as `Bearer <key>` it is read back
/// whole, with the prefix under which the business was stored; among any candidates
/// that include the business some candidate accepts it, and where no other candidate's
/// hash accepts the key, the business authenticated is that business.
pub proof fn lemma_registered_key_authenticates(
    key: Seq<char>,
    business: Business,
    candidates: Seq<Business>,
)
    requires
        is_api_key(key),
        argon2_accepts(encode_utf8(key), business.api_key_hash@),
        candidates.contains(business),
    ensures
        bearer_credentials("Bearer "@ + key) == Some(key),
        key_prefix(key).len() == 8,
        first_accepting(encode_utf8(key), candidates) is Some,
        (forall|c: Business|
            candidates.contains(c) && argon2_accepts(encode_utf8(key), c.api_key_hash@) ==> c
                == business) ==> first_accepting(encode_utf8(key), candidates) == Some(business),
{
    reveal_strlit("Bearer ");
    let h = "Bearer "@ + key;
    assert(h.subrange(0, 7) =~= "Bearer "@);
    assert(h.subrange(7, h.len() as int) =~= key);
    lemma_accepted_member_found(encode_utf8(key), business, candidates);
}

/// If a candidate accepts the key, the search finds an accepting candidate, and it is
/// that one where no other candidate accepts the key.
proof fn lemma_accepted_member_found(key: Seq<u8>, business: Business, candidates: Seq<Business>)
    requires
        argon2_accepts(key, business.api_key_hash@),
        candidates.contains(business),
    ensures
        first_accepting(key, candidates) matches Some(b) && argon2_accepts(key, b.api_key_hash@)
            && candidates.contains(b),
        (forall|c: Business| candidates.contains(c) && argon2_accepts(key, c.api_key_hash@) ==> c
            == business) ==> first_accepting(key, candidates) == Some(business),
    decreases candidates.len(),
{
    if !argon2_accepts(key, candidates[0].api_key_hash@) {
        let i = choose|i: int| 0 <= i < candidates.len() && candidates[i] == business;
        assert(i != 0);
        let rest = candidates.drop_first();
        assert(rest[i - 1] == business);
        lemma_accepted_member_found(key, business, rest);
        let b = first_accepting(key, rest)->0;
        assert(rest.contains(b));
        let j = choose|j: int| 0 <= j < rest.len() && rest[j] == b;
        assert(candidates[j + 1] == b);
        if forall|c: Business| candidates.contains(c) && argon2_accepts(key, c.api_key_hash@) ==> c
            == business {
            assert forall|c: Business| rest.contains(c) && argon2_accepts(key, c.api_key_hash@) implies c
                == business by {
                let k = choose|k: int| 0 <= k < rest.len() && rest[k] == c;
                assert(candidates[k + 1] == c);
                assert(candidates.contains(c));
            }
        }
    } else {
        assert(candidates.contains(candidates[0]));
    }
}

} // verus!
