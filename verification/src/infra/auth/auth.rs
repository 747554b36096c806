//! Bearer tokens: reading one from a request, finding the key that signed it,
//! and admitting a user who holds a role.
use vstd::prelude::*;
use vstd::string::*;
use std::marker::PhantomData;
use jsonwebtoken::DecodingKey;
use jwks::Jwks;
use crate::infra::error::HttpReply;
use crate::text::{has_prefix, same_text, strip_prefix};

verus! {

#[verifier::external_type_specification]
#[verifier::external_body]
pub struct ExJwks(Jwks);

#[verifier::external_type_specification]
#[verifier::external_body]
pub struct ExDecodingKey(DecodingKey);

#[verifier::external_type_specification]
#[verifier::external_body]
pub struct ExJwtError(jsonwebtoken::errors::Error);

/// A role a user may hold, by the name the identity provider gives it.
pub trait Role {
    /// The role's name.
    spec fn role_name() -> Seq<char>;

    /// The role's name.
    fn name() -> (r: &'static str)
        ensures
            r@ == Self::role_name(),
    ;
}

/// The administrator role.
pub struct Admin;

impl Role for Admin {
    open spec fn role_name() -> Seq<char> {
        "admin"@
    }

    fn name() -> (r: &'static str) {
        "admin"
    }
}

/// The ordinary user role.
pub struct UserRole;

impl Role for UserRole {
    open spec fn role_name() -> Seq<char> {
        "user"@
    }

    fn name() -> (r: &'static str) {
        "user"
    }
}

/// The roles the identity provider grants in a token.
#[derive(Debug, Clone)]
pub struct RealmAccess {
    pub roles: Vec<String>,
}

/// What a valid token says of its bearer.
#[derive(Debug, Clone)]
pub struct Claims {
    pub sub: String,
    pub exp: usize,
    pub realm_access: RealmAccess,
}

/// A user whose token was checked.
pub struct AuthUser(pub Claims);

/// A checked user who holds role `R`.
pub struct HasRole<R: Role>(pub AuthUser, pub PhantomData<R>);

/// Whether `claims` grant the role named `role`.
pub open spec fn grants(claims: Claims, role: Seq<char>) -> bool {
    exists|i: int|
        0 <= i < claims.realm_access.roles@.len() && #[trigger] claims.realm_access.roles@[i]@
            == role
}

/// The scheme word before a bearer token.
pub open spec fn bearer_prefix() -> Seq<char> {
    "Bearer "@
}

/// The token an `Authorization` header value carries: what follows the
/// `Bearer ` prefix. None where there is no header or no such prefix.
pub open spec fn bearer_token(header: Option<Seq<char>>) -> Option<Seq<char>> {
    match header {
        Some(h) => if has_prefix(h, bearer_prefix()) {
            Some(h.skip(bearer_prefix().len() as int))
        } else {
            None
        },
        None => None,
    }
}

/// The view of an optional text.
pub open spec fn text_of(t: Option<String>) -> Option<Seq<char>> {
    match t {
        Some(s) => Some(s@),
        None => None,
    }
}

/// The view of an optional borrowed text.
pub open spec fn str_of(t: Option<&str>) -> Option<Seq<char>> {
    match t {
        Some(s) => Some(s@),
        None => None,
    }
}

/// A 401 reply with the given message.
pub open spec fn unauthorized(r: HttpReply, message: Seq<char>) -> bool {
    r.status == 401 && r.body@ == message
}

/// What `jsonwebtoken::decode_header` gives for a token: None where the
/// header does not decode, else the header's `kid`, if it has one.
pub uninterp spec fn header_key_id(token: Seq<char>) -> Option<Option<Seq<char>>>;

/// Calls `jsonwebtoken::decode_header` and keeps the header's `kid` field.
/// Claimed: it succeeds exactly when `header_key_id` of the token is some
/// value, and then gives that `kid`. Which tokens decode is not stated: the
/// crate reads the part before the last two dots as base64url-encoded JSON.
#[verifier::external_body]
fn decode_header_kid(token: &str) -> (r: Result<Option<String>, jsonwebtoken::errors::Error>)
    ensures
        r is Ok <==> header_key_id(token@) is Some,
        r matches Ok(kid) ==> header_key_id(token@) == Some(text_of(kid)),
{
    jsonwebtoken::decode_header(token).map(|header| header.kid)
}

/// The decoding keys a key set holds, by key id.
pub uninterp spec fn jwks_keys(jwks: Jwks) -> Map<Seq<char>, DecodingKey>;

/// Looks `kid` up in the key set's map (`HashMap::get`) and clones the
/// decoding key found there. Claimed: a key is found exactly when the set
/// holds one under `kid`, and it is the key held there.
#[verifier::external_body]
fn jwks_decoding_key(jwks: &Jwks, kid: &String) -> (r: Option<DecodingKey>)
    ensures
        r is Some <==> jwks_keys(*jwks).contains_key(kid@),
        r matches Some(k) ==> k == jwks_keys(*jwks)[kid@],
{
    jwks.keys.get(kid).map(|jwk| jwk.decoding_key.clone())
}

/// Why a token is refused before its signature is checked, if it is: its
/// header does not decode, names no key id, or names one the key set holds
/// no key under.
pub open spec fn key_rejection(token: Seq<char>, jwks: Jwks) -> Option<Seq<char>> {
    match header_key_id(token) {
        None => Some("Header do token inválido"@),
        Some(None) => Some("Token sem propriedade kid"@),
        Some(Some(kid)) => if jwks_keys(jwks).contains_key(kid) {
            None
        } else {
            Some("Chave pública não encontrada"@)
        },
    }
}

/// Why a request is refused before its token's signature is checked, if it
/// is: first a missing bearer token, then the token's key rejection.
pub open spec fn request_rejection(authorization: Option<Seq<char>>, jwks: Jwks) -> Option<
    Seq<char>,
> {
    match bearer_token(authorization) {
        None => Some("Token ausente"@),
        Some(token) => key_rejection(token, jwks),
    }
}

fn reply_401(message: &str) -> (r: HttpReply)
    ensures
        unauthorized(r, message@),
{
    HttpReply { status: 401, body: String::from_str(message) }
}

impl AuthUser {
    /// The token of a request, from its `Authorization` header value (None
    /// where the header is missing or is not visible ASCII text): what follows
    /// `Bearer `. Anything else is a 401 saying that the token is missing.
    pub fn extract_token_from_request_parts(authorization: Option<&str>) -> (r: Result<
        String,
        HttpReply,
    >)
        ensures
            r is Ok <==> bearer_token(str_of(authorization)) is Some,
            r matches Ok(t) ==> bearer_token(str_of(authorization)) == Some(t@),
            r matches Err(e) ==> unauthorized(e, "Token ausente"@),
    {
        match authorization {
            Some(value) => match strip_prefix(value, "Bearer ") {
                Some(token) => Ok(String::from_str(token)),
                None => Err(reply_401("Token ausente")),
            },
            None => Err(reply_401("Token ausente")),
        }
    }

    /// The decoding key for a token whose header decoded to `header_kid`
    /// (None where it did not decode): a 401 for a header that did not decode,
    /// for one without a key id, and for a key id the key set holds no key
    /// under; otherwise the key the set holds under that key id.
    pub fn decoding_key_for_header(header_kid: Option<Option<String>>, jwks_client: &Jwks) -> (r:
        Result<DecodingKey, HttpReply>)
        ensures
            r is Ok <==> (header_kid matches Some(Some(kid)) && jwks_keys(*jwks_client).contains_key(
                kid@,
            )),
            r matches Ok(k) ==> (header_kid matches Some(Some(kid)) && k == jwks_keys(
                *jwks_client,
            )[kid@]),
            header_kid is None ==> (r matches Err(e) && unauthorized(e, "Header do token inválido"@)),
            header_kid == Some(None::<String>) ==> (r matches Err(e) && unauthorized(
                e,
                "Token sem propriedade kid"@,
            )),
            header_kid matches Some(Some(kid)) && !jwks_keys(*jwks_client).contains_key(kid@) ==> (r matches Err(
                e,
            ) && unauthorized(e, "Chave pública não encontrada"@)),
    {
        match header_kid {
            None => Err(reply_401("Header do token inválido")),
            Some(None) => Err(reply_401("Token sem propriedade kid")),
            Some(Some(kid)) => match jwks_decoding_key(jwks_client, &kid) {
                Some(key) => Ok(key),
                None => Err(reply_401("Chave pública não encontrada")),
            },
        }
    }

    /// The key that signed `token`, by the key id in its header, among the
    /// keys of `jwks_client`; see [`AuthUser::decoding_key_for_header`].
    pub fn extract_decoding_key_from_token(token: &str, jwks_client: &Jwks) -> (r: Result<
        DecodingKey,
        HttpReply,
    >)
        ensures
            r is Ok <==> (header_key_id(token@) matches Some(Some(kid)) && jwks_keys(
                *jwks_client,
            ).contains_key(kid)),
            r matches Ok(k) ==> (header_key_id(token@) matches Some(Some(kid)) && k == jwks_keys(
                *jwks_client,
            )[kid]),
            header_key_id(token@) is None ==> (r matches Err(e) && unauthorized(
                e,
                "Header do token inválido"@,
            )),
            header_key_id(token@) == Some(None::<Seq<char>>) ==> (r matches Err(e) && unauthorized(
                e,
                "Token sem propriedade kid"@,
            )),
            header_key_id(token@) matches Some(Some(kid)) && !jwks_keys(*jwks_client).contains_key(kid) ==> (r matches Err(
                e,
            ) && unauthorized(e, "Chave pública não encontrada"@)),
    {
        let header_kid = match decode_header_kid(token) {
            Ok(kid) => Some(kid),
            Err(_) => None,
        };
        Self::decoding_key_for_header(header_kid, jwks_client)
    }
}

impl AuthUser {
    /// The bearer token of a request and the key that signed it, from the
    /// request's `Authorization` header value: a request without a bearer
    /// token is refused first, then one whose token names no known key, each
    /// with a 401 and its message; otherwise the token and the key the set
    /// holds under the token's key id.
    pub fn token_and_key_from_request(authorization: Option<&str>, jwks_client: &Jwks) -> (r:
        Result<(String, DecodingKey), HttpReply>)
        ensures
            r is Ok <==> request_rejection(str_of(authorization), *jwks_client) is None,
            r matches Err(e) ==> unauthorized(
                e,
                request_rejection(str_of(authorization), *jwks_client)->0,
            ),
            r matches Ok((token, key)) ==> (bearer_token(str_of(authorization)) == Some(token@)
                && (header_key_id(token@) matches Some(Some(kid)) && key == jwks_keys(
                *jwks_client,
            )[kid])),
    {
        let token = match Self::extract_token_from_request_parts(authorization) {
            Ok(token) => token,
            Err(e) => return Err(e),
        };
        match Self::extract_decoding_key_from_token(token.as_str(), jwks_client) {
            Ok(key) => Ok((token, key)),
            Err(e) => Err(e),
        }
    }

    /// The reply to a token whose signature, expiry or claims do not check
    /// out: a 401 saying that the token is invalid or expired.
    pub fn invalid_token() -> (r: HttpReply)
        ensures
            unauthorized(r, "Token inválido ou expirado"@),
    {
        reply_401("Token inválido ou expirado")
    }
}

impl<R: Role> HasRole<R> {
    /// Admits `auth_user` when the token grants role `R`; otherwise a 403
    /// saying that access is denied.
    pub fn authorize(auth_user: AuthUser) -> (r: Result<HasRole<R>, HttpReply>)
        ensures
            r is Ok <==> grants(auth_user.0, R::role_name()),
            r matches Ok(h) ==> h.0 == auth_user,
            r matches Err(e) ==> e.status == 403 && e.body@ == "Acesso negado: Role insuficiente"@,
    {
        let target_role = R::name();
        let n = auth_user.0.realm_access.roles.len();
        let mut i: usize = 0;
        while i < n
            invariant
                n == auth_user.0.realm_access.roles@.len(),
                i <= n,
                target_role@ == R::role_name(),
                forall|j: int|
                    0 <= j < i ==> #[trigger] auth_user.0.realm_access.roles@[j]@ != target_role@,
            decreases n - i,
        {
            if same_text(auth_user.0.realm_access.roles[i].as_str(), target_role) {
                return Ok(HasRole(auth_user, PhantomData));
            }
            i = i + 1;
        }
        Err(HttpReply { status: 403, body: String::from_str("Acesso negado: Role insuficiente") })
    }
}

/// A header that reads `Bearer ` followed by a token carries exactly that token.
pub proof fn bearer_round_trip(token: Seq<char>)
    ensures
        bearer_token(Some(bearer_prefix() + token)) == Some(token),
{
    let h = bearer_prefix() + token;
    assert(h.subrange(0, bearer_prefix().len() as int) =~= bearer_prefix());
    assert(h.skip(bearer_prefix().len() as int) =~= token);
}

/// Holding the role anywhere in the list is enough: if the token's roles
/// hold the role's name at any position, the role is granted; and it is
/// granted only if some position holds it.
pub proof fn a_role_anywhere_in_the_list_is_granted(claims: Claims, role: Seq<char>, i: int)
    ensures
        0 <= i < claims.realm_access.roles@.len() && claims.realm_access.roles@[i]@ == role
            ==> grants(claims, role),
        grants(claims, role) ==> exists|j: int|
            0 <= j < claims.realm_access.roles@.len() && #[trigger] claims.realm_access.roles@[j]@
                == role,
        claims.realm_access.roles@.len() == 0 ==> !grants(claims, role),
{
    if 0 <= i < claims.realm_access.roles@.len() && claims.realm_access.roles@[i]@ == role {
        assert(claims.realm_access.roles@[i]@ == role);
    }
}

} // verus!
