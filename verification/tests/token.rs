use message_server::auth::error::Error;
use message_server::auth::jwt::Claims;
use message_server::auth::middleware::AccessToken;
use message_server::auth::token::{
    authorization, check_claims, issued_token, starts_with_bearer, Authenticator,
    BearerAuthenticator,
};

fn authenticator() -> BearerAuthenticator {
    BearerAuthenticator::new(String::from("secret"))
}

fn bearer(token: &str) -> AccessToken {
    AccessToken::new(format!("Bearer {}", token))
}

/// The moment the test runs, in seconds since the Unix epoch.
fn now() -> i64 {
    chrono::Utc::now().timestamp()
}

#[test]
fn token_is_the_hs512_jwt_of_subject_and_expiry() {
    // The header {"typ":"JWT","alg":"HS512"}, the claims {"sub":1,"exp":86400}
    // and the HMAC-SHA512 of both under the key "secret".
    assert_eq!(
        authenticator().create_token_at(1, 0),
        Ok(String::from(
            "eyJ0eXAiOiJKV1QiLCJhbGciOiJIUzUxMiJ9.eyJzdWIiOjEsImV4cCI6ODY0MDB9.\
             ZuQFNDkQKYNQ8j8t4c-_-t5C3-Q_Aiu-xtepxHwvhiGnstOKsnxf61yi7wgZ4W1TCMg069bU13p2LViiU2QNsA"
        ))
    );
    assert_eq!(
        authenticator().create_token_at(7, 1_000_000_000),
        Ok(String::from(
            "eyJ0eXAiOiJKV1QiLCJhbGciOiJIUzUxMiJ9.eyJzdWIiOjcsImV4cCI6MTAwMDA4NjQwMH0.\
             ol9UlFzINfV5Wzz6_hXwfFxCd_sRqz00M4Vv7L7HK2RegmrrntxlbBAbxfj_9X-O1IjNv7H2V7lcsMOWrz5d1w"
        ))
    );
}

#[test]
fn token_of_a_negative_identity() {
    assert_eq!(
        authenticator().create_token_at(-3, 4_102_444_800 - 86_400),
        Ok(String::from(
            "eyJ0eXAiOiJKV1QiLCJhbGciOiJIUzUxMiJ9.eyJzdWIiOi0zLCJleHAiOjQxMDI0NDQ4MDB9.\
             gOobw4h4fXr0r5XDo1DVKrqIp104EihKtz55K44fil5tdvnNQ-6Inz3mo3UVdeIu_HVNn9ZV5jodbEnm6-4NoA"
        ))
    );
}

#[test]
fn token_depends_on_the_secret() {
    let other = BearerAuthenticator::new(String::from("another secret"));
    assert_ne!(authenticator().create_token_at(1, 0), other.create_token_at(1, 0));
}

#[test]
fn issued_token_authorizes_its_identity() {
    let auth = authenticator();
    for uid in [1, 2, 42, 0, -7, i32::MAX, i32::MIN] {
        let token = auth.create_token(uid).expect("a token");
        assert_eq!(auth.authorize(&bearer(&token), uid), Ok(()));
    }
}

#[test]
fn token_expires_a_day_after_the_issue() {
    let auth = authenticator();
    // Issued a little less than a day ago: still valid.
    let fresh = auth.create_token_at(5, now() - 86_400 + 600).unwrap();
    assert_eq!(auth.authorize(&bearer(&fresh), 5), Ok(()));
    // Issued more than a day and the decoder's leeway ago: expired.
    let stale = auth.create_token_at(5, now() - 86_400 - 600).unwrap();
    assert_eq!(auth.authorize(&bearer(&stale), 5), Err(Error::JWTTokenError));
    let ancient = auth.create_token_at(5, 0).unwrap();
    assert_eq!(auth.authorize(&bearer(&ancient), 5), Err(Error::JWTTokenError));
}

#[test]
fn token_with_a_changed_signature_is_invalid() {
    let auth = authenticator();
    let token = auth.create_token(1).unwrap();
    let signature_start = token.rfind('.').unwrap() + 1;
    for position in signature_start..token.len() {
        let mut bytes = token.clone().into_bytes();
        bytes[position] = if bytes[position] == b'A' { b'B' } else { b'A' };
        let changed = String::from_utf8(bytes).unwrap();
        assert_ne!(changed, token);
        assert_eq!(auth.authorize(&bearer(&changed), 1), Err(Error::JWTTokenError));
    }
}

#[test]
fn token_with_a_changed_payload_is_invalid() {
    let auth = authenticator();
    let for_one = auth.create_token_at(1, now()).unwrap();
    let for_two = auth.create_token_at(2, now()).unwrap();
    let parts_one: Vec<&str> = for_one.split('.').collect();
    let parts_two: Vec<&str> = for_two.split('.').collect();
    let forged = format!("{}.{}.{}", parts_one[0], parts_two[1], parts_one[2]);
    assert_eq!(auth.authorize(&bearer(&forged), 2), Err(Error::JWTTokenError));
}

#[test]
fn token_signed_with_another_secret_is_invalid() {
    let other = BearerAuthenticator::new(String::from("another secret"));
    let token = other.create_token(1).unwrap();
    assert_eq!(authenticator().authorize(&bearer(&token), 1), Err(Error::JWTTokenError));
}

#[test]
fn token_of_one_identity_does_not_authorize_another() {
    let auth = authenticator();
    let token_for_a = auth.create_token(1).unwrap();
    assert_eq!(auth.authorize(&bearer(&token_for_a), 2), Err(Error::NoPermissionError));
    assert_eq!(auth.authorize(&bearer(&token_for_a), -1), Err(Error::NoPermissionError));
    assert_eq!(auth.authorize(&bearer(&token_for_a), 1), Ok(()));
}

#[test]
fn header_without_the_bearer_prefix_is_malformed() {
    let auth = authenticator();
    let token = auth.create_token(1).unwrap();
    for header in [
        token.clone(),
        format!("bearer {}", token),
        format!("Bearer{}", token),
        format!(" Bearer {}", token),
        String::from("Bearer"),
        String::new(),
    ] {
        assert_eq!(
            auth.authorize(&AccessToken::new(header), 1),
            Err(Error::InvalidAuthHeaderError)
        );
    }
}

#[test]
fn only_one_prefix_is_stripped() {
    let auth = authenticator();
    let token = auth.create_token(1).unwrap();
    let header = AccessToken::new(format!("Bearer Bearer {}", token));
    assert_eq!(auth.jwt_from_header(&header), Ok(format!("Bearer {}", token)));
    assert_eq!(auth.authorize(&header, 1), Err(Error::JWTTokenError));
}

#[test]
fn jwt_from_header_strips_the_prefix() {
    let auth = authenticator();
    assert_eq!(auth.jwt_from_header(&AccessToken::new(String::from("Bearer abc"))), Ok(String::from("abc")));
    assert_eq!(auth.jwt_from_header(&AccessToken::new(String::from("Bearer "))), Ok(String::new()));
    assert_eq!(
        auth.jwt_from_header(&AccessToken::new(String::from("Bearer ñandú 1"))),
        Ok(String::from("ñandú 1"))
    );
    assert_eq!(
        auth.jwt_from_header(&AccessToken::new(String::from("Basic abc"))),
        Err(Error::InvalidAuthHeaderError)
    );
}

#[test]
fn bearer_prefix_is_seven_exact_characters() {
    assert!(starts_with_bearer("Bearer "));
    assert!(starts_with_bearer("Bearer x"));
    assert!(!starts_with_bearer("Bearer"));
    assert!(!starts_with_bearer("BEARER x"));
    assert!(!starts_with_bearer("Bearer\tx"));
    assert!(!starts_with_bearer(""));
    assert!(!starts_with_bearer("ñearer x"));
}

#[test]
fn empty_bearer_token_is_invalid() {
    assert_eq!(
        authenticator().authorize(&AccessToken::new(String::from("Bearer ")), 1),
        Err(Error::JWTTokenError)
    );
    assert_eq!(
        authenticator().authorize(&AccessToken::new(String::from("Bearer a.b.c")), 1),
        Err(Error::JWTTokenError)
    );
}

#[test]
fn claims_decide_the_authorization() {
    let claims = |sub: Option<i64>, exp: Option<u64>| Claims { sub, exp };
    assert_eq!(check_claims(&claims(Some(1), Some(10)), 1), Ok(()));
    assert_eq!(check_claims(&claims(Some(1), Some(10)), 2), Err(Error::NoPermissionError));
    assert_eq!(check_claims(&claims(Some(-5), Some(0)), -5), Ok(()));
    assert_eq!(check_claims(&claims(None, Some(10)), 1), Err(Error::JWTTokenError));
    assert_eq!(check_claims(&claims(Some(1), None), 1), Err(Error::JWTTokenError));
    assert_eq!(check_claims(&claims(None, None), 0), Err(Error::JWTTokenError));
    assert_eq!(
        check_claims(&claims(Some(2_147_483_648), Some(10)), i32::MIN),
        Err(Error::JWTTokenError)
    );
    assert_eq!(
        check_claims(&claims(Some(-2_147_483_649), Some(10)), i32::MAX),
        Err(Error::JWTTokenError)
    );
    assert_eq!(check_claims(&claims(Some(2_147_483_647), Some(10)), i32::MAX), Ok(()));
    assert_eq!(check_claims(&claims(Some(-2_147_483_648), Some(10)), i32::MIN), Ok(()));
}

#[test]
fn refused_token_is_invalid_whatever_the_identity() {
    assert_eq!(authorization(None, 1), Err(Error::JWTTokenError));
    assert_eq!(authorization(Some(Claims { sub: Some(3), exp: Some(1) }), 3), Ok(()));
    assert_eq!(
        authorization(Some(Claims { sub: Some(3), exp: Some(1) }), 4),
        Err(Error::NoPermissionError)
    );
}

#[test]
fn failed_signing_is_a_creation_error() {
    assert_eq!(issued_token(None), Err(Error::JWTTokenCreationError));
    assert_eq!(issued_token(Some(String::from("t"))), Ok(String::from("t")));
}

#[test]
fn created_token_expires_one_day_from_now() {
    let before = now();
    let token = authenticator().create_token(3).unwrap();
    let after = now();
    let decoded = jsonwebtoken::decode::<serde_json::Value>(
        &token,
        &jsonwebtoken::DecodingKey::from_secret("secret".as_bytes()),
        &jsonwebtoken::Validation::new(jsonwebtoken::Algorithm::HS512),
    )
    .unwrap();
    let expiry = decoded.claims.get("exp").and_then(|exp| exp.as_i64()).unwrap();
    assert!(before + 86_400 <= expiry && expiry <= after + 86_400);
    assert_eq!(decoded.claims.get("sub").and_then(|sub| sub.as_i64()), Some(3));
    assert_eq!(decoded.header.alg, jsonwebtoken::Algorithm::HS512);
    assert_eq!(decoded.claims.as_object().map(|claims| claims.len()), Some(2));
}

#[test]
fn issuing_does_not_fail_and_gives_three_parts() {
    let auth = authenticator();
    for (uid, at) in [(0, 0), (1, -86_400), (i32::MAX, i64::MAX - 86_400), (i32::MIN, 1)] {
        let token = auth.create_token_at(uid, at).expect("a token");
        assert!(!token.is_empty());
        assert_eq!(token.split('.').count(), 3);
        assert!(!token.starts_with("Bearer "));
    }
    let short = BearerAuthenticator::new(String::from("k"));
    assert!(short.create_token(1).is_ok());
    let long = BearerAuthenticator::new("a long secret ".repeat(40));
    assert!(long.create_token(1).is_ok());
}
