use std::collections::HashMap;

use jsonwebtoken::{decode, encode, Algorithm, DecodingKey, EncodingKey, Header, Validation};
use jwks::{Jwk, Jwks};
use task_api::infra::auth::auth::{Admin, AuthUser, Claims, HasRole, RealmAccess, Role, UserRole};
use task_api::infra::error::HttpReply;

const TOKEN_K1: &str = "eyJhbGciOiJIUzI1NiIsInR5cCI6IkpXVCIsImtpZCI6ImsxIn0.eyJzdWIiOiJ1In0.sig";
const TOKEN_NO_KID: &str = "eyJhbGciOiJIUzI1NiIsInR5cCI6IkpXVCJ9.eyJzdWIiOiJ1In0.sig";
const TOKEN_K2: &str = "eyJhbGciOiJIUzI1NiIsInR5cCI6IkpXVCIsImtpZCI6ImsyIn0.eyJzdWIiOiJ1In0.sig";

fn key_set() -> Jwks {
    let mut keys = HashMap::new();
    keys.insert("k1".to_owned(), Jwk { alg: None, decoding_key: DecodingKey::from_secret(b"secret") });
    Jwks { keys }
}

fn user_with(roles: &[&str]) -> AuthUser {
    AuthUser(Claims {
        sub: "u".to_owned(),
        exp: 0,
        realm_access: RealmAccess { roles: roles.iter().map(|r| r.to_string()).collect() },
    })
}

fn reply(status: u16, body: &str) -> HttpReply {
    HttpReply { status, body: body.to_owned() }
}

#[test]
fn bearer_token_is_read_from_the_header() {
    assert_eq!(AuthUser::extract_token_from_request_parts(Some("Bearer abc.def")), Ok("abc.def".to_owned()));
    assert_eq!(AuthUser::extract_token_from_request_parts(Some("Bearer ")), Ok(String::new()));
}

#[test]
fn missing_or_foreign_header_is_a_401() {
    assert_eq!(AuthUser::extract_token_from_request_parts(None), Err(reply(401, "Token ausente")));
    assert_eq!(
        AuthUser::extract_token_from_request_parts(Some("Basic abc")),
        Err(reply(401, "Token ausente"))
    );
    assert_eq!(
        AuthUser::extract_token_from_request_parts(Some("bearer abc")),
        Err(reply(401, "Token ausente"))
    );
}

#[test]
fn key_is_found_by_the_header_kid() {
    let jwks = key_set();
    assert!(AuthUser::extract_decoding_key_from_token(TOKEN_K1, &jwks).is_ok());
    assert!(AuthUser::decoding_key_for_header(Some(Some("k1".to_owned())), &jwks).is_ok());
}

#[test]
fn the_key_returned_is_the_one_stored_under_the_kid() {
    let mut keys = HashMap::new();
    keys.insert("k1".to_owned(), Jwk { alg: None, decoding_key: DecodingKey::from_secret(b"first") });
    keys.insert("k2".to_owned(), Jwk { alg: None, decoding_key: DecodingKey::from_secret(b"second") });
    let jwks = Jwks { keys };

    let mut header = Header::new(Algorithm::HS256);
    header.kid = Some("k2".to_owned());
    let mut claims = HashMap::new();
    claims.insert("sub".to_owned(), "u".to_owned());
    let token = encode(&header, &claims, &EncodingKey::from_secret(b"second")).unwrap();

    let key = AuthUser::extract_decoding_key_from_token(&token, &jwks).ok().unwrap();
    let mut validation = Validation::new(Algorithm::HS256);
    validation.required_spec_claims.clear();
    validation.validate_exp = false;
    let decoded = decode::<HashMap<String, String>>(&token, &key, &validation).unwrap();
    assert_eq!(decoded.claims.get("sub"), Some(&"u".to_owned()));

    let other = AuthUser::decoding_key_for_header(Some(Some("k1".to_owned())), &jwks).ok().unwrap();
    assert!(decode::<HashMap<String, String>>(&token, &other, &validation).is_err());
}

#[test]
fn bad_signature_reply() {
    assert_eq!(AuthUser::invalid_token(), reply(401, "Token inválido ou expirado"));
}

#[test]
fn undecodable_header_is_a_401() {
    let jwks = key_set();
    assert_eq!(
        AuthUser::extract_decoding_key_from_token("not a token", &jwks).err(),
        Some(reply(401, "Header do token inválido"))
    );
    assert_eq!(
        AuthUser::decoding_key_for_header(None, &jwks).err(),
        Some(reply(401, "Header do token inválido"))
    );
}

#[test]
fn header_without_kid_is_a_401() {
    let jwks = key_set();
    assert_eq!(
        AuthUser::extract_decoding_key_from_token(TOKEN_NO_KID, &jwks).err(),
        Some(reply(401, "Token sem propriedade kid"))
    );
    assert_eq!(
        AuthUser::decoding_key_for_header(Some(None), &jwks).err(),
        Some(reply(401, "Token sem propriedade kid"))
    );
}

#[test]
fn unknown_kid_is_a_401() {
    let jwks = key_set();
    assert_eq!(
        AuthUser::extract_decoding_key_from_token(TOKEN_K2, &jwks).err(),
        Some(reply(401, "Chave pública não encontrada"))
    );
    assert_eq!(
        AuthUser::decoding_key_for_header(Some(Some("k2".to_owned())), &jwks).err(),
        Some(reply(401, "Chave pública não encontrada"))
    );
}

#[test]
fn request_refusals_come_in_order() {
    let jwks = key_set();
    assert_eq!(
        AuthUser::token_and_key_from_request(None, &jwks).err(),
        Some(reply(401, "Token ausente"))
    );
    assert_eq!(
        AuthUser::token_and_key_from_request(Some("Basic not a token"), &jwks).err(),
        Some(reply(401, "Token ausente"))
    );
    assert_eq!(
        AuthUser::token_and_key_from_request(Some("Bearer not a token"), &jwks).err(),
        Some(reply(401, "Header do token inválido"))
    );
    let no_kid = format!("Bearer {}", TOKEN_NO_KID);
    assert_eq!(
        AuthUser::token_and_key_from_request(Some(no_kid.as_str()), &jwks).err(),
        Some(reply(401, "Token sem propriedade kid"))
    );
    let unknown = format!("Bearer {}", TOKEN_K2);
    assert_eq!(
        AuthUser::token_and_key_from_request(Some(unknown.as_str()), &jwks).err(),
        Some(reply(401, "Chave pública não encontrada"))
    );
    let known = format!("Bearer {}", TOKEN_K1);
    let (token, _key) = AuthUser::token_and_key_from_request(Some(known.as_str()), &jwks).ok().unwrap();
    assert_eq!(token, TOKEN_K1);
}

#[test]
fn role_names() {
    assert_eq!(Admin::name(), "admin");
    assert_eq!(UserRole::name(), "user");
}

#[test]
fn user_holding_the_role_is_admitted() {
    let admitted = HasRole::<Admin>::authorize(user_with(&["user", "admin"]));
    match admitted {
        Ok(h) => assert_eq!(h.0 .0.realm_access.roles, vec!["user".to_owned(), "admin".to_owned()]),
        Err(e) => panic!("refused: {:?}", e),
    }
    assert!(HasRole::<UserRole>::authorize(user_with(&["user"])).is_ok());
}

#[test]
fn user_without_the_role_is_a_403() {
    let refused = HasRole::<Admin>::authorize(user_with(&["user", "Admin"]));
    assert_eq!(refused.err().map(|e| (e.status, e.body)), Some((403, "Acesso negado: Role insuficiente".to_owned())));
    assert!(HasRole::<UserRole>::authorize(user_with(&[])).is_err());
}
