//! Session tokens: issuing a pair at login, decoding one, judging its expiry,
//! and taking one out of a request's authorization header.
//!
//! Signing and the check of a signature are the `jsonwebtoken` crate's; what
//! is decided around them is decided here, and for every second at which it
//! might be asked.

use crate::handlers::error_handler::{Errors, HttpErrors};
use crate::helpers::clock::{current_timestamp, CLOCK_LIMIT, SECONDS_PER_DAY};
use crate::helpers::enums::JwtTokenType;
use crate::helpers::text::{strip_prefix, without_prefix};
use vstd::prelude::*;

verus! {

/// The error of the `jsonwebtoken` crate. Nothing is read from it but its
/// text.
#[verifier::external_type_specification]
#[verifier::external_body]
pub struct ExTokenError(jsonwebtoken::errors::Error);

/// The compact token that `jsonwebtoken::encode` makes of three claims
/// under the names `names`, signed with HMAC-SHA256 under `secret`; nothing
/// where it fails.
pub uninterp spec fn hs256_signed(
    secret: Seq<char>,
    names: Seq<Seq<char>>,
    user_id: Seq<char>,
    token_type: Seq<char>,
    expiry: u64,
) -> Option<Seq<char>>;

/// What `jsonwebtoken::decode` reads from a token under the same algorithm
/// and `secret`, with no `exp` claim asked for or judged: the claims under
/// the three names of `names`, as far as each is there in its type; nothing
/// where the token is refused.
pub uninterp spec fn hs256_read(secret: Seq<char>, names: Seq<Seq<char>>, token: Seq<char>) -> Option<
    (Option<Seq<char>>, Option<Seq<char>>, Option<u64>),
>;

/// The secret under which tokens are signed.
pub const SECRET: &'static str = "";

/// The name of the claim that says who a token speaks for.
pub const USER_ID_CLAIM: &'static str = "user_id";

/// The name of the claim that says what a token is good for.
pub const TOKEN_TYPE_CLAIM: &'static str = "token_type";

/// The name of the claim that says when a token stops being valid.
pub const EXPIRY_CLAIM: &'static str = "expiry";

/// The names of the three claims, in the order in which they are written.
pub open spec fn claim_names() -> Seq<Seq<char>> {
    seq![USER_ID_CLAIM@, TOKEN_TYPE_CLAIM@, EXPIRY_CLAIM@]
}

/// Whether a name is one of the registered claims that the decoder reads
/// for its own judgement.
pub open spec fn is_registered_claim(name: Seq<char>) -> bool {
    name == "exp"@ || name == "nbf"@ || name == "sub"@ || name == "iss"@ || name == "aud"@
}

/// Whether three names can carry the three claims side by side: they
/// differ from one another, and none is a registered claim.
pub open spec fn plain_names(names: Seq<Seq<char>>) -> bool {
    &&& names.len() == 3
    &&& names[0] != names[1]
    &&& names[0] != names[2]
    &&& names[1] != names[2]
    &&& !is_registered_claim(names[0])
    &&& !is_registered_claim(names[1])
    &&& !is_registered_claim(names[2])
}

/// The names under which this library's claims travel can carry them.
pub proof fn claim_names_are_plain()
    ensures
        plain_names(claim_names()),
{
    reveal_strlit("user_id");
    reveal_strlit("token_type");
    reveal_strlit("expiry");
    reveal_strlit("exp");
    reveal_strlit("nbf");
    reveal_strlit("sub");
    reveal_strlit("iss");
    reveal_strlit("aud");
    assert("user_id"@.len() == 7);
    assert("token_type"@.len() == 10);
    assert("expiry"@.len() == 6);
    assert("exp"@.len() == 3);
    assert("nbf"@.len() == 3);
    assert("sub"@.len() == 3);
    assert("iss"@.len() == 3);
    assert("aud"@.len() == 3);
}

/// The signed form of a token with these claims, under this library's
/// secret and claim names; nothing where signing fails.
pub open spec fn hs256_token(user_id: Seq<char>, token_type: Seq<char>, expiry: u64) -> Option<
    Seq<char>,
> {
    hs256_signed(SECRET@, claim_names(), user_id, token_type, expiry)
}

/// The claims that a token carries under this library's secret and claim
/// names; nothing where its signature or its form is refused.
pub open spec fn hs256_claims(token: Seq<char>) -> Option<
    (Option<Seq<char>>, Option<Seq<char>>, Option<u64>),
> {
    hs256_read(SECRET@, claim_names(), token)
}

/// A session token: who it speaks for, what it is good for, and the second
/// from which on it is no longer valid.
#[derive(Clone, Debug, PartialEq, Eq)]
pub struct JwtToken {
    pub user_id: String,
    pub token_type: JwtTokenType,
    pub expiry: u64,
}

/// A token as a value of mathematics.
pub struct JwtTokenView {
    pub user_id: Seq<char>,
    pub token_type: JwtTokenType,
    pub expiry: u64,
}

impl JwtTokenView {
    /// Whether the token is no longer valid at the second `now`: it is valid
    /// only while `now` is strictly before its expiry.
    pub open spec fn expired_at(self, now: u64) -> bool {
        self.expiry <= now
    }
}

impl View for JwtToken {
    type V = JwtTokenView;

    open spec fn view(&self) -> JwtTokenView {
        JwtTokenView { user_id: self.user_id@, token_type: self.token_type, expiry: self.expiry }
    }
}

/// The claims of a token whose signature held, before their shape is
/// checked: each is there only if the token carried it in its type.
#[derive(Clone, Debug, PartialEq, Eq)]
pub struct RawClaims {
    pub user_id: Option<String>,
    pub token_type: Option<String>,
    pub expiry: Option<u64>,
}

impl View for RawClaims {
    type V = (Option<Seq<char>>, Option<Seq<char>>, Option<u64>);

    open spec fn view(&self) -> (Option<Seq<char>>, Option<Seq<char>>, Option<u64>) {
        (
            match self.user_id {
                Some(text) => Some(text@),
                None => None,
            },
            match self.token_type {
                Some(text) => Some(text@),
                None => None,
            },
            self.expiry,
        )
    }
}

/// The token that a set of claims describes: all three must be there, and
/// the kind must be a known word.
pub open spec fn token_of_claims(
    claims: (Option<Seq<char>>, Option<Seq<char>>, Option<u64>),
) -> Option<JwtTokenView> {
    match claims {
        (Some(user_id), Some(kind), Some(expiry)) => match JwtTokenType::parse(kind) {
            Some(token_type) => Some(JwtTokenView { user_id, token_type, expiry }),
            None => None,
        },
        _ => None,
    }
}

/// The claims under which a token travels.
pub open spec fn claims_of_token(token: JwtTokenView) -> (
    Option<Seq<char>>,
    Option<Seq<char>>,
    Option<u64>,
) {
    (Some(token.user_id), Some(token.token_type.wire_name()), Some(token.expiry))
}

/// What decoding comes to at the second `now`, given what the signature
/// check read: a refused or misshapen token is a bad request, one whose
/// expiry is not ahead of `now` is unauthorized, any other is the token.
pub open spec fn decoded_at(
    read: Option<(Option<Seq<char>>, Option<Seq<char>>, Option<u64>)>,
    now: u64,
) -> Result<JwtTokenView, Errors> {
    match read {
        None => Err(Errors::HttpError(HttpErrors::BadRequest)),
        Some(claims) => match token_of_claims(claims) {
            None => Err(Errors::HttpError(HttpErrors::BadRequest)),
            Some(token) => if token.expired_at(now) {
                Err(Errors::HttpError(HttpErrors::Unauthorized))
            } else {
                Ok(token)
            },
        },
    }
}

/// What a request's authorization header comes to at the second `now`:
/// the token behind the word "Bearer" and one space, if it decodes; in
/// every other case the same refusal.
pub open spec fn extracted_at(authorization: Option<Seq<char>>, now: u64) -> Result<
    JwtTokenView,
    Errors,
> {
    match authorization {
        None => Err(Errors::HttpError(HttpErrors::Unauthorized)),
        Some(header) => match without_prefix(header, "Bearer "@) {
            None => Err(Errors::HttpError(HttpErrors::Unauthorized)),
            Some(token) => match decoded_at(hs256_claims(token), now) {
                Ok(token) => Ok(token),
                Err(_) => Err(Errors::HttpError(HttpErrors::Unauthorized)),
            },
        },
    }
}

/// The text of an authorization header, if the request has one.
pub open spec fn header_text(authorization: Option<&str>) -> Option<Seq<char>> {
    match authorization {
        Some(header) => Some(header@),
        None => None,
    }
}

/// What the signature check read, as values of mathematics.
pub open spec fn claims_read(read: Option<RawClaims>) -> Option<
    (Option<Seq<char>>, Option<Seq<char>>, Option<u64>),
> {
    match read {
        Some(claims) => Some(claims@),
        None => None,
    }
}

/// Whether a result is the one that `expected` describes.
pub open spec fn same_outcome(r: Result<JwtToken, Errors>, expected: Result<JwtTokenView, Errors>) -> bool {
    match expected {
        Ok(token) => r matches Ok(found) && found@ == token,
        Err(e) => r == Err::<JwtToken, Errors>(e),
    }
}

/// Signs three claims with `jsonwebtoken::encode`, under the default
/// header (HS256) and the key that `EncodingKey::from_secret` makes of
/// `secret`.
///
/// Taken on trust, first: the call's outcome depends on the secret, the
/// three names and the three values alone, so it has a name,
/// `hs256_signed`. Nothing is claimed of what the token looks like, nor that
/// the call succeeds.
///
/// Taken on trust, second: a token that this call made is one that
/// `read_claims` accepts under the same secret, and what it reads under the
/// same names is what was signed. The decoder checks an HS256 signature by
/// signing the message again with the key and comparing, and it reads the
/// claims from the very JSON that `encode` wrote. This is claimed only of
/// names that differ from one another, so that no claim overwrites
/// another, and of which none is a registered claim, which the decoder
/// would judge.
#[verifier::external_body]
fn sign_claims(
    secret: &str,
    names: (&str, &str, &str),
    user_id: &str,
    token_type: &str,
    expiry: u64,
) -> (r: Result<String, jsonwebtoken::errors::Error>)
    ensures
        hs256_signed(secret@, seq![names.0@, names.1@, names.2@], user_id@, token_type@, expiry)
            == (match r {
            Ok(token) => Some(token@),
            Err(_) => None,
        }),
        (r is Ok && plain_names(seq![names.0@, names.1@, names.2@])) ==> hs256_read(
            secret@,
            seq![names.0@, names.1@, names.2@],
            r->Ok_0@,
        ) == Some((Some(user_id@), Some(token_type@), Some(expiry))),
{
    let mut claims = serde_json::Map::new();
    claims.insert(names.0.to_owned(), serde_json::Value::from(user_id));
    claims.insert(names.1.to_owned(), serde_json::Value::from(token_type));
    claims.insert(names.2.to_owned(), serde_json::Value::from(expiry));
    let key = jsonwebtoken::EncodingKey::from_secret(secret.as_bytes());
    jsonwebtoken::encode(&jsonwebtoken::Header::default(), &claims, &key)
}

/// Checks a token's signature with `jsonwebtoken::decode`, under HS256 and
/// the key that `DecodingKey::from_secret` makes of `secret`, and hands out
/// the claims it carries under three names. No `exp` claim is asked for or
/// judged there: the expiry is this library's own claim and is judged here.
///
/// Taken on trust: without the judgement of `exp` the call reads no clock,
/// so its outcome depends on the secret, the names and the token alone and
/// has a name, `hs256_read`. A claim is handed out only where the token
/// holds it as a string (the first two) or as an unsigned number (the
/// third).
#[verifier::external_body]
fn read_claims(secret: &str, names: (&str, &str, &str), token: &str) -> (r: Result<
    RawClaims,
    jsonwebtoken::errors::Error,
>)
    ensures
        hs256_read(secret@, seq![names.0@, names.1@, names.2@], token@) == (match r {
            Ok(claims) => Some(claims@),
            Err(_) => None,
        }),
{
    let mut validation = jsonwebtoken::Validation::new(jsonwebtoken::Algorithm::HS256);
    validation.required_spec_claims.clear();
    validation.validate_exp = false;
    let key = jsonwebtoken::DecodingKey::from_secret(secret.as_bytes());
    let claims = jsonwebtoken::decode::<serde_json::Value>(token, &key, &validation)?.claims;
    Ok(RawClaims {
        user_id: claims.get(names.0).and_then(serde_json::Value::as_str).map(str::to_owned),
        token_type: claims.get(names.1).and_then(serde_json::Value::as_str).map(str::to_owned),
        expiry: claims.get(names.2).and_then(serde_json::Value::as_u64),
    })
}

/// The words of a `jsonwebtoken` error, through its `Display`. Nothing is
/// claimed of them.
#[verifier::external_body]
fn token_error_text(error: &jsonwebtoken::errors::Error) -> (r: String) {
    error.to_string()
}

impl Default for JwtToken {
    /// An access token for nobody, long expired.
    fn default() -> (r: Self)
        ensures
            r@ == (JwtTokenView {
                user_id: Seq::<char>::empty(),
                token_type: JwtTokenType::Access,
                expiry: 0,
            }),
    {
        JwtToken { user_id: String::new(), token_type: JwtTokenType::Access, expiry: 0 }
    }
}

impl RawClaims {
    /// Checks the shape of a set of claims: the token they describe, or
    /// nothing where a claim is missing or the kind is no known word.
    pub fn into_token(self) -> (r: Option<JwtToken>)
        ensures
            match token_of_claims(self@) {
                Some(token) => r matches Some(found) && found@ == token,
                None => r is None,
            },
    {
        match (self.user_id, self.token_type, self.expiry) {
            (Some(user_id), Some(kind), Some(expiry)) => match JwtTokenType::from_name(
                kind.as_str(),
            ) {
                Some(token_type) => Some(JwtToken { user_id, token_type, expiry }),
                None => None,
            },
            _ => None,
        }
    }
}

impl JwtToken {
    /// The token that is issued to `user_id` at the second `now`: a refresh
    /// token that runs for one day.
    pub open spec fn issued_at(user_id: Seq<char>, now: u64) -> JwtTokenView {
        JwtTokenView {
            user_id,
            token_type: JwtTokenType::Refresh,
            expiry: (now + SECONDS_PER_DAY) as u64,
        }
    }

    /// Makes the token that is issued to `user_id` at the second `now`.
    pub fn fresh(user_id: String, now: u64) -> (r: JwtToken)
        requires
            now + SECONDS_PER_DAY <= u64::MAX,
        ensures
            r@ == JwtToken::issued_at(user_id@, now),
    {
        JwtToken { user_id, token_type: JwtTokenType::Refresh, expiry: now + SECONDS_PER_DAY }
    }

    /// Issues the pair of tokens for a login at the current time. Both are
    /// the signed form of one and the same token, the one that `fresh`
    /// makes: the first is an access token in name only, since it too says
    /// "Refresh" and runs for a day. A failure to sign is an internal error.
    pub fn create_fresh_pair(user_id: String) -> (r: Result<(String, String), Errors>)
        ensures
            exists|now: u64| now < CLOCK_LIMIT && #[trigger] JwtToken::is_pair_at(user_id@, now, r),
    {
        let now = current_timestamp();
        let r = JwtToken::create_fresh_pair_at(user_id, now);
        assert(JwtToken::is_pair_at(user_id@, now, r));
        r
    }

    /// Whether `r` is what a login of `user_id` at the second `now` is
    /// answered with: twice the signed form of the token issued at `now`,
    /// which reads back as the claims of that token; or, where signing
    /// fails, an internal error.
    pub open spec fn is_pair_at(
        user_id: Seq<char>,
        now: u64,
        r: Result<(String, String), Errors>,
    ) -> bool {
        match hs256_token(
            user_id,
            JwtTokenType::Refresh.wire_name(),
            (now + SECONDS_PER_DAY) as u64,
        ) {
            Some(token) => r matches Ok(pair) && pair.0@ == token && pair.1@ == token
                && hs256_claims(token) == Some(
                claims_of_token(JwtToken::issued_at(user_id, now)),
            ),
            None => r matches Err(e) && e is InternalError,
        }
    }

    /// Issues the pair of tokens for a login at the second `now`.
    pub fn create_fresh_pair_at(user_id: String, now: u64) -> (r: Result<(String, String), Errors>)
        requires
            now + SECONDS_PER_DAY <= u64::MAX,
        ensures
            JwtToken::is_pair_at(user_id@, now, r),
    {
        let token = JwtToken::fresh(user_id, now);
        let access = match token.encode_self() {
            Ok(signed) => signed,
            Err(e) => {
                return Err(e);
            },
        };
        let refresh = match token.encode_self() {
            Ok(signed) => signed,
            Err(e) => {
                return Err(e);
            },
        };
        Ok((access, refresh))
    }

    /// Signs this token. The signed form reads back as the claims of this
    /// token. A failure to sign is an internal error that carries the
    /// signer's words.
    pub fn encode_self(&self) -> (r: Result<String, Errors>)
        ensures
            match hs256_token(self.user_id@, self.token_type.wire_name(), self.expiry) {
                Some(token) => r matches Ok(signed) && signed@ == token,
                None => r matches Err(e) && e is InternalError,
            },
            r matches Ok(signed) ==> hs256_claims(signed@) == Some(claims_of_token(self@)),
    {
        proof {
            claim_names_are_plain();
        }
        match sign_claims(
            SECRET,
            (USER_ID_CLAIM, TOKEN_TYPE_CLAIM, EXPIRY_CLAIM),
            self.user_id.as_str(),
            self.token_type.name(),
            self.expiry,
        ) {
            Ok(signed) => Ok(signed),
            Err(error) => Err(Errors::InternalError(token_error_text(&error))),
        }
    }

    /// Decides what a token comes to at the second `now`, given what the
    /// signature check read from it.
    pub fn check_claims(read: Option<RawClaims>, now: u64) -> (r: Result<JwtToken, Errors>)
        ensures
            same_outcome(
                r,
                decoded_at(claims_read(read), now),
            ),
    {
        match read {
            None => Err(Errors::HttpError(HttpErrors::BadRequest)),
            Some(claims) => match claims.into_token() {
                None => Err(Errors::HttpError(HttpErrors::BadRequest)),
                Some(token) => if token.has_expired_at(now) {
                    Err(Errors::HttpError(HttpErrors::Unauthorized))
                } else {
                    Ok(token)
                },
            },
        }
    }

    /// Decodes a token at the second `now`: checks its signature, then the
    /// shape of its claims, then its expiry.
    pub fn decode_at(token: &str, now: u64) -> (r: Result<JwtToken, Errors>)
        ensures
            same_outcome(r, decoded_at(hs256_claims(token@), now)),
            r matches Err(e) ==> e.is_bad_request() || e.is_unauthorized(),
    {
        let read = match read_claims(SECRET, (USER_ID_CLAIM, TOKEN_TYPE_CLAIM, EXPIRY_CLAIM), token) {
            Ok(claims) => Some(claims),
            Err(_) => None,
        };
        JwtToken::check_claims(read, now)
    }

    /// Decodes a token at the current time. The expiry is judged anew at
    /// every call.
    pub fn decode(token: String) -> (r: Result<JwtToken, Errors>)
        ensures
            exists|now: u64|
                now < CLOCK_LIMIT && #[trigger] same_outcome(
                    r,
                    decoded_at(hs256_claims(token@), now),
                ),
            r matches Err(e) ==> e.is_bad_request() || e.is_unauthorized(),
            hs256_claims(token@) is None ==> (r matches Err(e) && e.is_bad_request()),
    {
        let now = current_timestamp();
        let r = JwtToken::decode_at(token.as_str(), now);
        assert(same_outcome(r, decoded_at(hs256_claims(token@), now)));
        r
    }

    /// Whether this token is no longer valid at the second `now`: it is
    /// valid only while `now` is strictly before its expiry.
    pub fn has_expired_at(&self, now: u64) -> (r: bool)
        ensures
            r == self@.expired_at(now),
    {
        self.expiry <= now
    }

    /// Whether this token is no longer valid at the current time.
    pub fn has_expired(&self) -> (r: bool)
        ensures
            exists|now: u64| now < CLOCK_LIMIT && r == #[trigger] self@.expired_at(now),
    {
        let now = current_timestamp();
        let r = self.has_expired_at(now);
        assert(r == self@.expired_at(now));
        r
    }

    /// Takes the token out of a request's authorization header at the second
    /// `now`. A missing header, a header without the bearer prefix, a forged
    /// or misshapen token and an expired one all give the same refusal.
    pub fn from_request_at(authorization: Option<&str>, now: u64) -> (r: Result<JwtToken, Errors>)
        ensures
            same_outcome(
                r,
                extracted_at(header_text(authorization), now),
            ),
            r matches Err(e) ==> e.is_unauthorized(),
    {
        let header = match authorization {
            Some(header) => header,
            None => {
                return Err(Errors::HttpError(HttpErrors::Unauthorized));
            },
        };
        let token = match strip_prefix(header, "Bearer ") {
            Some(token) => token,
            None => {
                return Err(Errors::HttpError(HttpErrors::Unauthorized));
            },
        };
        match JwtToken::decode_at(token.as_str(), now) {
            Ok(decoded) => Ok(decoded),
            Err(_) => Err(Errors::HttpError(HttpErrors::Unauthorized)),
        }
    }

    /// Takes the token out of a request's authorization header at the
    /// current time.
    pub fn from_request(authorization: Option<&str>) -> (r: Result<JwtToken, Errors>)
        ensures
            exists|now: u64|
                now < CLOCK_LIMIT && #[trigger] same_outcome(
                    r,
                    extracted_at(header_text(authorization), now),
                ),
            r matches Err(e) ==> e.is_unauthorized(),
            (header_text(authorization) matches Some(header) ==> without_prefix(
                header,
                "Bearer "@,
            ) is None) ==> r is Err,
    {
        let now = current_timestamp();
        let r = JwtToken::from_request_at(authorization, now);
        assert(same_outcome(r, extracted_at(header_text(authorization), now)));
        r
    }
}

/// A token that is read back with the claims under which it was issued is
/// accepted, unchanged, at every second before its expiry, and refused as
/// unauthorized from its expiry on.
pub proof fn issued_token_is_accepted_until_expiry(user_id: Seq<char>, issued: u64, now: u64)
    requires
        issued + SECONDS_PER_DAY <= u64::MAX,
    ensures
        now < issued + SECONDS_PER_DAY ==> decoded_at(
            Some(claims_of_token(JwtToken::issued_at(user_id, issued))),
            now,
        ) == Ok::<JwtTokenView, Errors>(JwtToken::issued_at(user_id, issued)),
        now >= issued + SECONDS_PER_DAY ==> decoded_at(
            Some(claims_of_token(JwtToken::issued_at(user_id, issued))),
            now,
        ) == Err::<JwtTokenView, Errors>(Errors::HttpError(HttpErrors::Unauthorized)),
{
    JwtTokenType::parse_inverts_wire_name(JwtTokenType::Refresh);
}

/// The round trip of a login: the first token of the pair that was issued
/// to `user_id` at the second `issued` decodes, at every second before its
/// expiry, to a token for `user_id` that expires a day after `issued`, and
/// is refused as unauthorized from its expiry on.
pub proof fn issued_pair_decodes_until_expiry(
    user_id: Seq<char>,
    issued: u64,
    r: Result<(String, String), Errors>,
    now: u64,
)
    requires
        issued + SECONDS_PER_DAY <= u64::MAX,
        JwtToken::is_pair_at(user_id, issued, r),
        r is Ok,
    ensures
        now < issued + SECONDS_PER_DAY ==> decoded_at(hs256_claims(r->Ok_0.0@), now) == Ok::<
            JwtTokenView,
            Errors,
        >(
            JwtTokenView {
                user_id,
                token_type: JwtTokenType::Refresh,
                expiry: (issued + SECONDS_PER_DAY) as u64,
            },
        ),
        now >= issued + SECONDS_PER_DAY ==> decoded_at(hs256_claims(r->Ok_0.0@), now) == Err::<
            JwtTokenView,
            Errors,
        >(Errors::HttpError(HttpErrors::Unauthorized)),
{
    issued_token_is_accepted_until_expiry(user_id, issued, now);
}

/// A request without an authorization header, or with one that does not
/// begin with the bearer prefix, is refused as unauthorized at every second.
pub proof fn header_without_bearer_is_unauthorized(authorization: Option<Seq<char>>, now: u64)
    requires
        authorization matches Some(header) ==> without_prefix(header, "Bearer "@) is None,
    ensures
        extracted_at(authorization, now) == Err::<JwtTokenView, Errors>(
            Errors::HttpError(HttpErrors::Unauthorized),
        ),
{
}

/// Whatever the header and the second, a refused request is refused as
/// unauthorized and as nothing else.
pub proof fn every_refusal_is_unauthorized(authorization: Option<Seq<char>>, now: u64)
    ensures
        extracted_at(authorization, now) matches Err(e) ==> e.is_unauthorized(),
{
}

} // verus!
