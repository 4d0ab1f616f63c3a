use payment_service::errors::AppError;
use payment_service::handlers::business::{generate_api_key, register_business, CreateBusinessRequest};
use payment_service::handlers::customer::{create_customer, get_customer, CreateCustomerRequest};
use payment_service::handlers::payment::idempotency_key;
use payment_service::models::business::Business;
use payment_service::routes::auth::{authenticate, bearer_key};

fn stored(id: &str, hash: &str, prefix: &str) -> Business {
    Business {
        id: id.to_string(),
        name: "Acme Corp".to_string(),
        api_key_hash: hash.to_string(),
        api_key_prefix: prefix.to_string(),
        is_active: true,
        created_at: 0,
        updated_at: 0,
    }
}

#[test]
fn bearer_header_is_parsed() {
    let k = bearer_key(Some("Bearer sk_abcdefghij")).ok().unwrap();
    assert_eq!(k.raw_key, "sk_abcdefghij");
    assert_eq!(k.prefix, "sk_abcde");
}

#[test]
fn bad_headers_are_unauthorized() {
    for h in [None, Some("Basic sk_abcdefghij"), Some("Bearer sk_abcd"), Some("Bearer"), Some("bearer sk_abcdefgh")] {
        assert!(matches!(bearer_key(h), Err(AppError::Unauthorized)), "{:?}", h);
    }
    assert!(bearer_key(Some("Bearer 12345678")).is_ok());
}

#[test]
fn api_key_shape() {
    let k = generate_api_key();
    assert_eq!(k.len(), 35);
    assert!(k.starts_with("sk_"));
    assert!(k[3..].chars().all(|c| c.is_ascii_alphanumeric()));
    assert_ne!(k, generate_api_key());
}

#[test]
fn registered_key_authenticates_its_business() {
    let (nb, resp) = register_business(CreateBusinessRequest { name: "Acme Corp".to_string() }).ok().unwrap();
    assert_eq!(resp.name, "Acme Corp");
    assert_eq!(resp.id, nb.id);
    assert_eq!(nb.api_key_prefix, &resp.api_key[..8]);
    assert!(nb.api_key_hash.starts_with("$argon2id$"));
    let header = format!("Bearer {}", resp.api_key);
    let key = bearer_key(Some(&header)).ok().unwrap();
    assert_eq!(key.prefix, nb.api_key_prefix);
    let other = stored("other", "not-a-phc-string", &nb.api_key_prefix);
    let mine = stored(&nb.id, &nb.api_key_hash, &nb.api_key_prefix);
    let b = authenticate(&key.raw_key, vec![other, mine]).ok().unwrap();
    assert_eq!(b.id, nb.id);
}

#[test]
fn wrong_key_is_unauthorized() {
    let (nb, _resp) = register_business(CreateBusinessRequest { name: "X".to_string() }).ok().unwrap();
    let mine = stored(&nb.id, &nb.api_key_hash, &nb.api_key_prefix);
    assert!(matches!(authenticate("sk_wrongwrongwrong", vec![mine]), Err(AppError::Unauthorized)));
    assert!(matches!(authenticate("sk_anything", vec![]), Err(AppError::Unauthorized)));
}

#[test]
fn missing_idempotency_key_is_validation_error() {
    assert!(matches!(idempotency_key(None), Err(AppError::ValidationError(m)) if m == "Missing Idempotency-Key header"));
    assert_eq!(idempotency_key(Some("abc")).ok().unwrap(), "abc");
}

#[test]
fn customers() {
    let c = create_customer("biz", CreateCustomerRequest { name: "John Doe".to_string(), email: "john@example.com".to_string() });
    assert_eq!(c.business_id, "biz");
    assert_eq!(c.name, "John Doe");
    assert_eq!(c.email, "john@example.com");
    assert_eq!(c.id.len(), 26);
    assert!(matches!(get_customer(None), Err(AppError::NotFound(m)) if m == "Customer not found"));
}
