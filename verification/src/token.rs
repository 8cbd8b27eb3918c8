//! The token codec: claims, their expiry, and the signed token string.

use crate::clock::{readable, representable, shift, shifted, utc_now, Timestamp, NANOS_PER_SEC};
use crate::payload::{all_whole, payload_view, Member, MemberView, Payload};
use crate::policy::Policy;
use serde_json::Value;
use vstd::prelude::*;
use vstd::string::*;

verus! {

/// The payload of a session token.
#[derive(Debug, PartialEq, Eq)]
pub struct Claims {
    /// The account that the token was issued to.
    pub sub: String,
    /// The role of that account when the token was issued.
    pub role: String,
    /// The second, counted from 1970-01-01 00:00:00 UTC, at which the token expires.
    pub exp: i64,
}

/// Claims as a mathematical value.
pub struct ClaimsView {
    pub sub: Seq<char>,
    pub role: Seq<char>,
    pub exp: i64,
}

impl View for Claims {
    type V = ClaimsView;

    open spec fn view(&self) -> ClaimsView {
        ClaimsView { sub: self.sub@, role: self.role@, exp: self.exp }
    }
}

impl ClaimsView {
    /// The members that carry the claims: subject, role and expiry, in this order.
    pub open spec fn payload(self) -> Payload {
        seq![
            ("sub"@, MemberView::Text(self.sub)),
            ("role"@, MemberView::Text(self.role)),
            ("exp"@, MemberView::Number(Some(self.exp))),
        ]
    }
}

impl Claims {
    /// Claims of the subject `sub` with `role`, expiring at the second `exp`.
    pub fn new(sub: String, role: String, exp: i64) -> (claims: Claims)
        ensures
            claims@ == (ClaimsView { sub: sub@, role: role@, exp }),
    {
        Claims { sub, role, exp }
    }

    /// Lays the claims out as the members of a payload.
    pub fn payload(&self) -> (members: Vec<(String, Member)>)
        ensures
            payload_view(members@) == self@.payload(),
            all_whole(payload_view(members@)),
    {
        let mut members: Vec<(String, Member)> = Vec::new();
        members.push((String::from_str("sub"), Member::Text(self.sub.clone())));
        members.push((String::from_str("role"), Member::Text(self.role.clone())));
        members.push((String::from_str("exp"), Member::Number(Some(self.exp))));
        assert(payload_view(members@) =~= self@.payload());
        members
    }
}

/// Why no token could be issued.
#[derive(Debug, PartialEq, Eq)]
pub enum TokenError {
    /// The expiry, issue time plus lifetime, is no instant that can be represented.
    ExpiryOutOfRange,
    /// The claims could not be encoded and signed; the text is the signer's report.
    Signing(String),
}

/// A token failure as a mathematical value.
pub enum TokenErrorView {
    ExpiryOutOfRange,
    Signing(Seq<char>),
}

impl View for TokenError {
    type V = TokenErrorView;

    open spec fn view(&self) -> TokenErrorView {
        match self {
            TokenError::ExpiryOutOfRange => TokenErrorView::ExpiryOutOfRange,
            TokenError::Signing(cause) => TokenErrorView::Signing(cause@),
        }
    }
}

/// The compact token that `jsonwebtoken` makes of a payload under the
/// default header and the HMAC secret `secret`.
pub uninterp spec fn hs256_token(payload: Payload, secret: Seq<u8>) -> Seq<char>;

/// The view of a signing result.
pub open spec fn signed_view(signed: Result<String, String>) -> Result<Seq<char>, Seq<char>> {
    match signed {
        Ok(token) => Ok(token@),
        Err(cause) => Err(cause@),
    }
}

/// Encodes and signs `members` with `jsonwebtoken::encode`, under
/// `Header::default()` (HS256) and `EncodingKey::from_secret(secret)`.
///
/// The members go in as a JSON object, each value as the JSON value of
/// its kind. The call succeeds, and its token is `hs256_token` of the
/// members and the secret. It succeeds because none of its three ways to
/// fail is open: the key of a secret and the HS256 header are of one
/// family; header and members are written as JSON into memory, where
/// `serde_json` fails only if the writer does or a name is no string; and
/// the HMAC signature has no error. An error would come back as its text.
#[verifier::external_body]
pub(crate) fn sign(members: &Vec<(String, Member)>, secret: &Vec<u8>) -> (r: Result<String, String>)
    requires
        all_whole(payload_view(members@)),
    ensures
        r is Ok,
        r matches Ok(token) ==> token@ == hs256_token(payload_view(members@), secret@),
{
    let object: serde_json::Map<String, Value> = members.iter().map(|(name, value)| (name.clone(), match value {
        Member::Null => Value::Null,
        Member::Bool(truth) => Value::Bool(*truth),
        Member::Number(number) => Value::from(*number),
        Member::Text(text) => Value::String(text.clone()),
        Member::Array => Value::Array(Vec::new()),
        Member::Object => Value::Object(serde_json::Map::new()),
    })).collect();
    match jsonwebtoken::encode(&jsonwebtoken::Header::default(), &object, &jsonwebtoken::EncodingKey::from_secret(secret)) {
        Ok(token) => Ok(token),
        Err(e) => Err(e.to_string()),
    }
}

/// The result of the codec as a mathematical value.
pub type Issue = Result<(Seq<char>, Timestamp), TokenErrorView>;

/// The token and expiry that the codec owes for a signing result.
pub open spec fn issued_spec(signed: Result<Seq<char>, Seq<char>>, expires_at: Timestamp) -> Issue {
    match signed {
        Ok(token) => Ok((token, expires_at)),
        Err(cause) => Err(TokenErrorView::Signing(cause)),
    }
}

/// The token and expiry that the codec owes for an expiry: the token
/// signed over the claims of `username`, `role` and the expiry's second.
/// No expiry, no token.
pub open spec fn token_spec(
    policy: &Policy,
    username: Seq<char>,
    role: Seq<char>,
    expires_at: Option<Timestamp>,
) -> Issue {
    match expires_at {
        Some(at) => Ok(
            (
                hs256_token(
                    ClaimsView { sub: username, role, exp: at.secs }.payload(),
                    policy.key(),
                ),
                at,
            ),
        ),
        None => Err(TokenErrorView::ExpiryOutOfRange),
    }
}

/// The instant `lifetime` seconds after `now`: the same fraction of a
/// second, `lifetime` seconds on. There is none where `now` has no proper
/// fraction or where `now` or the sum lies outside the days that can be
/// represented.
pub open spec fn expiry_spec(now: Timestamp, lifetime: u32) -> Option<Timestamp> {
    if now.well_formed() {
        shifted(now, lifetime as int)
    } else {
        None
    }
}

/// The view of a codec result: the token as a sequence of characters.
pub open spec fn result_view(r: Result<(String, Timestamp), TokenError>) -> Issue {
    match r {
        Ok((token, at)) => Ok((token@, at)),
        Err(e) => Err(e@),
    }
}

/// Pairs a signed token with its expiry; a signing failure becomes
/// `TokenError::Signing` with the signer's report.
pub fn issued(signed: Result<String, String>, expires_at: Timestamp) -> (r: Result<
    (String, Timestamp),
    TokenError,
>)
    ensures
        result_view(r) == issued_spec(signed_view(signed), expires_at),
{
    match signed {
        Ok(token) => Ok((token, expires_at)),
        Err(cause) => Err(TokenError::Signing(cause)),
    }
}

/// Issues the token that expires at `expires_at`: claims with `username`
/// as subject, `role`, and the expiry in whole seconds, signed with the
/// policy's secret. No expiry, no token.
pub fn token_expiring(policy: &Policy, username: String, role: String, expires_at: Option<
    Timestamp,
>) -> (r: Result<(String, Timestamp), TokenError>)
    ensures
        result_view(r) == token_spec(policy, username@, role@, expires_at),
{
    match expires_at {
        Some(at) => {
            let claims = Claims::new(username, role, at.secs);
            let members = claims.payload();
            issued(sign(&members, policy.secret()), at)
        },
        None => Err(TokenError::ExpiryOutOfRange),
    }
}

/// The instant at which a token issued at `now` expires.
pub fn expiry(now: Timestamp, lifetime: u32) -> (r: Option<Timestamp>)
    ensures
        r == expiry_spec(now, lifetime),
        r matches Some(at) ==> at.secs == now.secs + lifetime && at.nanos == now.nanos,
{
    if now.nanos < NANOS_PER_SEC {
        shift(now, lifetime as i64)
    } else {
        None
    }
}

/// Issues a token for `username` with `role` as if the clock read `now`.
///
/// The token expires the policy's lifetime after `now`, and carries that
/// second as its `exp` claim. A token is issued whenever `now` and the
/// expiry lie on days that can be represented.
pub fn create_token_at(policy: &Policy, username: String, role: String, now: Timestamp) -> (r:
    Result<(String, Timestamp), TokenError>)
    ensures
        result_view(r) == token_spec(policy, username@, role@, expiry_spec(now, policy.ttl())),
        r is Ok <==> now.well_formed() && representable(now.secs as int) && representable(
            now.secs + policy.ttl(),
        ),
        r matches Ok((token, at)) ==> {
            &&& at.secs == now.secs + policy.ttl()
            &&& at.nanos == now.nanos
            &&& token@ == hs256_token(
                ClaimsView { sub: username@, role: role@, exp: at.secs }.payload(),
                policy.key(),
            )
        },
{
    let expires_at = expiry(now, policy.expires_in());
    token_expiring(policy, username, role, expires_at)
}

/// Creates a token with the given username and role, issued now.
///
/// Whatever the clock reads, the result is that of `create_token_at` for
/// that reading.
pub fn create_token(policy: &Policy, username: String, role: String) -> (r: Result<
    (String, Timestamp),
    TokenError,
>)
    ensures
        exists|now: Timestamp|
            readable(now) && #[trigger] token_spec(
                policy,
                username@,
                role@,
                expiry_spec(now, policy.ttl()),
            ) == result_view(r),
{
    let now = utc_now();
    create_token_at(policy, username, role, now)
}

} // verus!
