use jsonwebtoken::errors::{Error, ErrorKind};
use jsonwebtoken::{encode, EncodingKey, Header};
use review_auth::clock::Timestamp;
use review_auth::payload::Member;
use review_auth::policy::Policy;
use review_auth::token::{create_token, create_token_at, Claims};
use review_auth::validation::{
    find, judge, read_claims, validate_token, validate_token_at, ValidationError,
};
use serde_json::Value;

fn policy() -> Policy {
    Policy::new(3600, b"k3y".to_vec())
}

fn at(secs: i64) -> Timestamp {
    Timestamp { secs, nanos: 0 }
}

/// A token over `members`, signed with the secret of `policy()`.
fn token_of(members: Vec<(&str, Value)>) -> String {
    let mut payload = serde_json::Map::new();
    for (name, value) in members {
        payload.insert(name.to_string(), value);
    }
    encode(&Header::default(), &payload, &EncodingKey::from_secret(b"k3y")).unwrap()
}

fn alice() -> Claims {
    Claims::new("alice".to_string(), "admin".to_string(), 1_700_003_600)
}

#[test]
fn issued_token_validates_to_its_claims() {
    let (token, _) =
        create_token_at(&policy(), "alice".to_string(), "admin".to_string(), at(1_700_000_000))
            .unwrap();
    assert_eq!(validate_token_at(&policy(), &token, at(1_700_000_000)), Ok(alice()));
    assert_eq!(validate_token_at(&policy(), &token, at(1_700_002_000)), Ok(alice()));
}

#[test]
fn token_is_accepted_up_to_the_second_before_its_expiry() {
    let (token, expires_at) =
        create_token_at(&policy(), "alice".to_string(), "admin".to_string(), at(1_700_000_000))
            .unwrap();
    assert_eq!(expires_at.secs, 1_700_003_600);
    assert_eq!(validate_token_at(&policy(), &token, at(1_700_003_599)), Ok(alice()));
    assert_eq!(
        validate_token_at(&policy(), &token, Timestamp { secs: 1_700_003_599, nanos: 999_999_999 }),
        Ok(alice())
    );
    assert_eq!(
        validate_token_at(&policy(), &token, at(1_700_003_600)),
        Err(ValidationError::Expired)
    );
    assert_eq!(
        validate_token_at(&policy(), &token, at(1_800_000_000)),
        Err(ValidationError::Expired)
    );
}

#[test]
fn token_of_another_secret_is_rejected() {
    let (token, _) =
        create_token_at(&policy(), "alice".to_string(), "admin".to_string(), at(1_700_000_000))
            .unwrap();
    let other = Policy::new(3600, b"K3y".to_vec());
    assert_eq!(
        validate_token_at(&other, &token, at(1_700_000_000)),
        Err(ValidationError::Rejected)
    );
    assert_eq!(
        validate_token_at(&Policy::default(), &token, at(1_700_000_000)),
        Err(ValidationError::Rejected)
    );
}

#[test]
fn tampered_token_is_rejected() {
    let (token, _) =
        create_token_at(&policy(), "alice".to_string(), "admin".to_string(), at(1_700_000_000))
            .unwrap();
    let (forged, _) =
        create_token_at(&policy(), "alice".to_string(), "root".to_string(), at(1_700_000_000))
            .unwrap();
    let signature = token.rsplit('.').next().unwrap();
    let mut parts: Vec<&str> = forged.split('.').collect();
    parts[2] = signature;
    let spliced = parts.join(".");
    assert_eq!(
        validate_token_at(&policy(), &spliced, at(1_700_000_000)),
        Err(ValidationError::Rejected)
    );
}

#[test]
fn text_that_is_no_token_is_rejected() {
    for text in ["", "a.jwt.token", "only.two", "....", "not a token at all"] {
        assert_eq!(
            validate_token_at(&policy(), text, at(1_700_000_000)),
            Err(ValidationError::Rejected)
        );
    }
}

#[test]
fn token_without_an_expiry_is_rejected() {
    let token = token_of(vec![("sub", Value::from("alice")), ("role", Value::from("admin"))]);
    assert_eq!(validate_token_at(&policy(), &token, at(0)), Err(ValidationError::Rejected));
}

#[test]
fn token_without_subject_or_role_is_malformed() {
    let no_role = token_of(vec![("sub", Value::from("alice")), ("exp", Value::from(100))]);
    assert_eq!(validate_token_at(&policy(), &no_role, at(0)), Err(ValidationError::Malformed));
    let no_subject = token_of(vec![("role", Value::from("admin")), ("exp", Value::from(100))]);
    assert_eq!(validate_token_at(&policy(), &no_subject, at(0)), Err(ValidationError::Malformed));
    let odd_role = token_of(vec![
        ("sub", Value::from("alice")),
        ("role", Value::from(7)),
        ("exp", Value::from(100)),
    ]);
    assert_eq!(validate_token_at(&policy(), &odd_role, at(0)), Err(ValidationError::Malformed));
    let odd_subject = token_of(vec![
        ("sub", Value::Null),
        ("role", Value::from("admin")),
        ("exp", Value::from(100)),
    ]);
    assert_eq!(validate_token_at(&policy(), &odd_subject, at(0)), Err(ValidationError::Malformed));
}

#[test]
fn token_with_an_expiry_beyond_the_seconds_is_malformed() {
    let token = token_of(vec![
        ("sub", Value::from("alice")),
        ("role", Value::from("admin")),
        ("exp", Value::from(u64::MAX)),
    ]);
    assert_eq!(validate_token_at(&policy(), &token, at(0)), Err(ValidationError::Malformed));
}

#[test]
fn token_with_more_members_keeps_its_claims() {
    let token = token_of(vec![
        ("iat", Value::from(5)),
        ("exp", Value::from(100)),
        ("role", Value::from("admin")),
        ("sub", Value::from("alice")),
        ("extra", Value::Bool(true)),
    ]);
    assert_eq!(
        validate_token_at(&policy(), &token, at(99)),
        Ok(Claims::new("alice".to_string(), "admin".to_string(), 100))
    );
}

#[test]
fn token_by_the_clock_is_valid_when_fresh() {
    let (token, expires_at) =
        create_token(&policy(), "alice".to_string(), "admin".to_string()).unwrap();
    assert_eq!(
        validate_token(&policy(), &token),
        Ok(Claims::new("alice".to_string(), "admin".to_string(), expires_at.secs))
    );
}

#[test]
fn token_by_the_clock_is_expired_when_old() {
    let (token, _) =
        create_token_at(&policy(), "alice".to_string(), "admin".to_string(), at(1_000_000_000))
            .unwrap();
    assert_eq!(validate_token(&policy(), &token), Err(ValidationError::Expired));
    let none = Policy::new(0, b"k3y".to_vec());
    let (token, _) = create_token(&none, "alice".to_string(), "admin".to_string()).unwrap();
    assert_eq!(validate_token(&none, &token), Err(ValidationError::Expired));
}

#[test]
fn find_gives_the_first_member_of_a_name() {
    let members = vec![
        ("sub".to_string(), Member::Text("alice".to_string())),
        ("exp".to_string(), Member::Number(Some(7))),
        ("sub".to_string(), Member::Null),
    ];
    assert_eq!(find(&members, "sub"), Some(&Member::Text("alice".to_string())));
    assert_eq!(find(&members, "exp"), Some(&Member::Number(Some(7))));
    assert_eq!(find(&members, "role"), None);
    assert_eq!(find(&members, "su"), None);
    assert_eq!(find(&Vec::new(), "sub"), None);
}

#[test]
fn claims_are_read_from_members_of_the_right_kind() {
    let full = vec![
        ("exp".to_string(), Member::Number(Some(1_700_003_600))),
        ("sub".to_string(), Member::Text("alice".to_string())),
        ("role".to_string(), Member::Text("admin".to_string())),
    ];
    assert_eq!(read_claims(&full), Some(alice()));
    let fraction = vec![
        ("exp".to_string(), Member::Number(None)),
        ("sub".to_string(), Member::Text("alice".to_string())),
        ("role".to_string(), Member::Text("admin".to_string())),
    ];
    assert_eq!(read_claims(&fraction), None);
    let other = vec![
        ("exp".to_string(), Member::Number(Some(1))),
        ("sub".to_string(), Member::Bool(true)),
        ("role".to_string(), Member::Text("admin".to_string())),
    ];
    assert_eq!(read_claims(&other), None);
    assert_eq!(read_claims(&Vec::new()), None);
}

#[test]
fn judge_gives_each_failure_its_name() {
    let members = vec![
        ("sub".to_string(), Member::Text("alice".to_string())),
        ("role".to_string(), Member::Text("admin".to_string())),
        ("exp".to_string(), Member::Number(Some(1_700_003_600))),
    ];
    assert_eq!(judge(Ok(members), at(1_700_003_599)), Ok(alice()));
    let members = vec![
        ("sub".to_string(), Member::Text("alice".to_string())),
        ("role".to_string(), Member::Text("admin".to_string())),
        ("exp".to_string(), Member::Number(Some(1_700_003_600))),
    ];
    assert_eq!(judge(Ok(members), at(1_700_003_600)), Err(ValidationError::Expired));
    assert_eq!(judge(Ok(Vec::new()), at(0)), Err(ValidationError::Malformed));
    assert_eq!(
        judge(Err(Error::from(ErrorKind::InvalidSignature)), at(0)),
        Err(ValidationError::Rejected)
    );
}

#[test]
fn token_with_a_negative_expiry_is_rejected() {
    let token = token_of(vec![
        ("sub", Value::from("alice")),
        ("role", Value::from("admin")),
        ("exp", Value::from(-5)),
    ]);
    assert_eq!(validate_token_at(&policy(), &token, at(0)), Err(ValidationError::Rejected));
}

#[test]
fn members_of_every_kind_are_told_apart() {
    let token = token_of(vec![
        ("sub", Value::from("alice")),
        ("role", Value::from(vec![Value::from("admin")])),
        ("exp", Value::from(100)),
    ]);
    assert_eq!(validate_token_at(&policy(), &token, at(0)), Err(ValidationError::Malformed));
    let token = token_of(vec![
        ("sub", Value::from("alice")),
        ("role", Value::Object(serde_json::Map::new())),
        ("exp", Value::from(100)),
    ]);
    assert_eq!(validate_token_at(&policy(), &token, at(0)), Err(ValidationError::Malformed));
    let token = token_of(vec![
        ("sub", Value::Bool(false)),
        ("role", Value::from("admin")),
        ("exp", Value::from(100)),
    ]);
    assert_eq!(validate_token_at(&policy(), &token, at(0)), Err(ValidationError::Malformed));
    let token = token_of(vec![
        ("sub", Value::from("alice")),
        ("role", Value::from("admin")),
        ("exp", Value::from(100)),
        ("groups", Value::from(vec![Value::Null, Value::Bool(true)])),
        ("profile", Value::Object(serde_json::Map::new())),
    ]);
    assert_eq!(
        validate_token_at(&policy(), &token, at(0)),
        Ok(Claims::new("alice".to_string(), "admin".to_string(), 100))
    );
}

#[test]
fn claims_laid_out_are_read_back() {
    for claims in [alice(), Claims::new(String::new(), "r\u{f6}le".to_string(), i64::MIN)] {
        let again = Claims::new(claims.sub.clone(), claims.role.clone(), claims.exp);
        assert_eq!(read_claims(&claims.payload()), Some(again));
    }
}
