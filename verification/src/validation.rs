//! Token validation: the signature is checked, the claims are read, and a
//! token that has expired is turned away.

use crate::clock::{readable, utc_now, Timestamp};
use crate::policy::Policy;
use crate::payload::{member, payload_view, Member, MemberView, Payload};
use crate::token::{Claims, ClaimsView};
use serde_json::Value;
use vstd::prelude::*;
use vstd::string::*;

verus! {

/// Why a token is not accepted.
#[derive(Clone, Copy, Debug, PartialEq, Eq, Structural)]
pub enum ValidationError {
    /// The token is no token, or this secret did not sign it.
    Rejected,
    /// The payload lacks a subject, a role or an expiry of the right kind.
    Malformed,
    /// The token has expired.
    Expired,
}

/// The error of `jsonwebtoken`, carried as it comes and never looked into.
#[verifier::external_type_specification]
#[verifier::external_body]
pub struct ExJwtError(jsonwebtoken::errors::Error);

/// The payload that `jsonwebtoken` reads from `token` once it has checked
/// the HS256 signature against `secret`, or `None` where it reports an error.
pub uninterp spec fn hs256_payload(token: Seq<char>, secret: Seq<u8>) -> Option<Payload>;

/// Checks and decodes `token` with `jsonwebtoken::decode`, under
/// `DecodingKey::from_secret(secret)` and `Validation::new(Algorithm::HS256)`
/// with the expiry left unchecked, so that the call reads no clock.
///
/// The result is `hs256_payload` of the token and the secret: the members
/// of the payload where the call succeeds, each value handed out as the
/// `Member` of its kind, a number through `Number::as_i64`, and `None`
/// where it fails.
#[verifier::external_body]
pub(crate) fn open(token: &str, secret: &Vec<u8>) -> (r: Result<
    Vec<(String, Member)>,
    jsonwebtoken::errors::Error,
>)
    ensures
        (match r {
            Ok(members) => hs256_payload(token@, secret@) == Some(payload_view(members@)),
            Err(_) => hs256_payload(token@, secret@) is None,
        }),
{
    let mut rules = jsonwebtoken::Validation::new(jsonwebtoken::Algorithm::HS256);
    rules.validate_exp = false;
    let key = jsonwebtoken::DecodingKey::from_secret(secret);
    let data = jsonwebtoken::decode::<serde_json::Map<String, Value>>(token, &key, &rules)?;
    Ok(data.claims.into_iter().map(|(name, value)| (name, match value {
        Value::Null => Member::Null,
        Value::Bool(truth) => Member::Bool(truth),
        Value::Number(number) => Member::Number(number.as_i64()),
        Value::String(text) => Member::Text(text),
        Value::Array(_) => Member::Array,
        Value::Object(_) => Member::Object,
    })).collect())
}

/// The claims that a payload holds: a subject and a role that are
/// strings, and an expiry that is a whole number.
pub open spec fn claims_of(payload: Payload) -> Option<ClaimsView> {
    match (member(payload, "sub"@), member(payload, "role"@), member(payload, "exp"@)) {
        (
            Some(MemberView::Text(sub)),
            Some(MemberView::Text(role)),
            Some(MemberView::Number(Some(exp))),
        ) => Some(ClaimsView { sub, role, exp }),
        _ => None,
    }
}

/// Claims that were laid out as a payload are read back from it as they were.
pub proof fn lemma_payload_reads_back(claims: ClaimsView)
    ensures
        claims_of(claims.payload()) == Some(claims),
{
    reveal_strlit("sub");
    reveal_strlit("role");
    reveal_strlit("exp");
    reveal_with_fuel(member, 4);
    let payload = claims.payload();
    assert(payload.drop_first() =~= seq![
        ("role"@, MemberView::Text(claims.role)),
        ("exp"@, MemberView::Number(Some(claims.exp))),
    ]);
    assert(payload.drop_first().drop_first() =~= seq![
        ("exp"@, MemberView::Number(Some(claims.exp))),
    ]);
    assert("sub"@ != "role"@) by {
        assert("sub"@[0] != "role"@[0]);
    }
    assert("sub"@ != "exp"@) by {
        assert("sub"@[0] != "exp"@[0]);
    }
    assert("role"@ != "exp"@) by {
        assert("role"@[0] != "exp"@[0]);
    }
}

/// What validation owes at `now` for what the signature check gave: a
/// token is accepted up to the last second before its expiry.
pub open spec fn validated(opened: Option<Payload>, now: Timestamp) -> Result<
    ClaimsView,
    ValidationError,
> {
    match opened {
        None => Err(ValidationError::Rejected),
        Some(payload) => match claims_of(payload) {
            None => Err(ValidationError::Malformed),
            Some(claims) => if now.secs < claims.exp {
                Ok(claims)
            } else {
                Err(ValidationError::Expired)
            },
        },
    }
}

/// The view of a validation result.
pub open spec fn validation_view(r: Result<Claims, ValidationError>) -> Result<
    ClaimsView,
    ValidationError,
> {
    match r {
        Ok(claims) => Ok(claims@),
        Err(e) => Err(e),
    }
}

/// The view of what the signature check gave.
pub open spec fn opened_view(
    opened: Result<Vec<(String, Member)>, jsonwebtoken::errors::Error>,
) -> Option<Payload> {
    match opened {
        Ok(members) => Some(payload_view(members@)),
        Err(_) => None,
    }
}

/// Finds the first member called `name`.
pub fn find<'a>(members: &'a Vec<(String, Member)>, name: &str) -> (found: Option<&'a Member>)
    ensures
        (match found {
            Some(value) => member(payload_view(members@), name@) == Some(value@),
            None => member(payload_view(members@), name@) is None,
        }),
{
    let wanted = String::from_str(name);
    let ghost payload = payload_view(members@);
    let mut i: usize = 0;
    assert(payload.skip(0) == payload);
    while i < members.len()
        invariant
            i <= members.len(),
            payload == payload_view(members@),
            wanted@ == name@,
            member(payload, name@) == member(payload.skip(i as int), name@),
        decreases members.len() - i,
    {
        let ghost rest = payload.skip(i as int);
        assert(rest[0] == payload[i as int]);
        assert(rest.drop_first() == payload.skip(i + 1));
        if members[i].0 == wanted {
            return Some(&members[i].1);
        }
        i += 1;
    }
    assert(payload.skip(i as int).len() == 0);
    None
}

/// Reads the claims from the members of a payload.
pub fn read_claims(members: &Vec<(String, Member)>) -> (claims: Option<Claims>)
    ensures
        (match claims {
            Some(claims) => claims_of(payload_view(members@)) == Some(claims@),
            None => claims_of(payload_view(members@)) is None,
        }),
{
    match (find(members, "sub"), find(members, "role"), find(members, "exp")) {
        (Some(Member::Text(sub)), Some(Member::Text(role)), Some(Member::Number(Some(exp)))) => {
            Some(Claims::new(sub.clone(), role.clone(), *exp))
        },
        _ => None,
    }
}

/// Judges at `now` what the signature check gave: the claims of a payload
/// that holds them and has not expired.
pub fn judge(
    opened: Result<Vec<(String, Member)>, jsonwebtoken::errors::Error>,
    now: Timestamp,
) -> (r: Result<Claims, ValidationError>)
    ensures
        validation_view(r) == validated(opened_view(opened), now),
{
    match opened {
        Err(_) => Err(ValidationError::Rejected),
        Ok(members) => match read_claims(&members) {
            None => Err(ValidationError::Malformed),
            Some(claims) => if now.secs < claims.exp {
                Ok(claims)
            } else {
                Err(ValidationError::Expired)
            },
        },
    }
}

/// Validates `token` as if the clock read `now`: its signature under the
/// policy's secret, its claims, and its expiry.
pub fn validate_token_at(policy: &Policy, token: &str, now: Timestamp) -> (r: Result<
    Claims,
    ValidationError,
>)
    ensures
        validation_view(r) == validated(hs256_payload(token@, policy.key()), now),
        r matches Ok(claims) ==> now.secs < claims.exp,
{
    judge(open(token, policy.secret()), now)
}

/// Validates `token` by the clock.
///
/// Whatever the clock reads, the result is that of `validate_token_at`
/// for that reading.
pub fn validate_token(policy: &Policy, token: &str) -> (r: Result<Claims, ValidationError>)
    ensures
        exists|now: Timestamp|
            readable(now) && #[trigger] validated(hs256_payload(token@, policy.key()), now)
                == validation_view(r),
{
    let now = utc_now();
    validate_token_at(policy, token, now)
}

} // verus!
