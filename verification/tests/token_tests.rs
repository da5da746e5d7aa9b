use links_signaling::grant::{grant_json, VideoGrant};
use links_signaling::token::{
    admin_token, claims_json, create_admin_token, signed_token, AccessToken, AccessTokenClaims,
    TokenError, ADMIN_VALIDITY_SECONDS, DEFAULT_VALIDITY_SECONDS,
};

const HS256_HEADER: &str = "eyJ0eXAiOiJKV1QiLCJhbGciOiJIUzI1NiJ9";

fn decode_claims(token: &str, secret: &str) -> serde_json::Value {
    let mut validation = jsonwebtoken::Validation::new(jsonwebtoken::Algorithm::HS256);
    validation.validate_exp = false;
    let key = jsonwebtoken::DecodingKey::from_secret(secret.as_bytes());
    jsonwebtoken::decode::<serde_json::Value>(token, &key, &validation).unwrap().claims
}

fn join_grant(room: &str) -> VideoGrant {
    let mut grant = VideoGrant::default();
    grant.room_join = Some(true);
    grant.room = Some(room.to_string());
    grant.can_publish = Some(true);
    grant.can_subscribe = Some(true);
    grant
}

#[test]
fn default_grant_has_every_field_unset() {
    let g = VideoGrant::default();
    assert!(g.room_create.is_none() && g.room_list.is_none() && g.room_record.is_none());
    assert!(g.room_admin.is_none() && g.room_join.is_none() && g.room.is_none());
    assert!(g.can_publish.is_none() && g.can_subscribe.is_none());
    assert!(g.can_publish_data.is_none() && g.can_publish_sources.is_none());
    assert!(g.can_update_own_metadata.is_none() && g.ingress_admin.is_none());
    assert!(g.hidden.is_none() && g.recorder.is_none() && g.agent.is_none());
}

#[test]
fn unset_grant_serialises_to_empty_object() {
    assert_eq!(grant_json(&VideoGrant::default()), "{}");
}

#[test]
fn grant_omits_unset_fields_and_keeps_false() {
    let mut g = VideoGrant::default();
    g.hidden = Some(false);
    g.room = Some("standup".to_string());
    assert_eq!(grant_json(&g), "{\"room\":\"standup\",\"hidden\":false}");
}

#[test]
fn grant_with_every_field_set_uses_camel_case_in_order() {
    let g = VideoGrant {
        room_create: Some(true),
        room_list: Some(false),
        room_record: Some(true),
        room_admin: Some(false),
        room_join: Some(true),
        room: Some("r".to_string()),
        can_publish: Some(true),
        can_subscribe: Some(false),
        can_publish_data: Some(true),
        can_publish_sources: Some(vec!["camera".to_string(), "microphone".to_string()]),
        can_update_own_metadata: Some(true),
        ingress_admin: Some(false),
        hidden: Some(true),
        recorder: Some(false),
        agent: Some(true),
    };
    assert_eq!(
        grant_json(&g),
        "{\"roomCreate\":true,\"roomList\":false,\"roomRecord\":true,\"roomAdmin\":false,\
         \"roomJoin\":true,\"room\":\"r\",\"canPublish\":true,\"canSubscribe\":false,\
         \"canPublishData\":true,\"canPublishSources\":[\"camera\",\"microphone\"],\
         \"canUpdateOwnMetadata\":true,\"ingressAdmin\":false,\"hidden\":true,\
         \"recorder\":false,\"agent\":true}"
    );
}

#[test]
fn grant_clone_keeps_every_field() {
    let mut g = join_grant("standup");
    g.can_publish_sources = Some(vec!["camera".to_string()]);
    assert_eq!(grant_json(&g.clone()), grant_json(&g));
}

#[test]
fn claims_serialise_in_declared_order_without_unset_members() {
    let claims = AccessTokenClaims {
        exp: 1086400,
        iat: None,
        nbf: 1000000,
        iss: "devkey".to_string(),
        sub: "alice".to_string(),
        video: join_grant("standup"),
        metadata: Some("{\"isHost\":true}".to_string()),
        name: None,
    };
    assert_eq!(
        claims_json(&claims),
        "{\"exp\":1086400,\"nbf\":1000000,\"iss\":\"devkey\",\"sub\":\"alice\",\
         \"video\":{\"roomJoin\":true,\"room\":\"standup\",\"canPublish\":true,\
         \"canSubscribe\":true},\"metadata\":\"{\\\"isHost\\\":true}\"}"
    );
}

#[test]
fn claims_with_issued_at_and_name_write_them() {
    let claims = AccessTokenClaims {
        exp: 20,
        iat: Some(10),
        nbf: 10,
        iss: "k".to_string(),
        sub: "s".to_string(),
        video: VideoGrant::default(),
        metadata: None,
        name: Some("Al".to_string()),
    };
    assert_eq!(
        claims_json(&claims),
        "{\"exp\":20,\"iat\":10,\"nbf\":10,\"iss\":\"k\",\"sub\":\"s\",\"video\":{},\"name\":\"Al\"}"
    );
    assert_eq!(claims_json(&claims.clone()), claims_json(&claims));
}

#[test]
fn builder_claims_have_not_before_at_issuance_and_no_issued_at() {
    let token = AccessToken::new("devkey", "secret")
        .set_identity("alice")
        .set_name("Alice")
        .set_metadata("m")
        .set_video_grant(join_grant("standup"))
        .set_valid_for(60);
    let claims = token.claims(1000);
    assert_eq!(claims.nbf, 1000);
    assert_eq!(claims.exp, 1060);
    assert_eq!(claims.iat, None);
    assert_eq!(claims.iss, "devkey");
    assert_eq!(claims.sub, "alice");
    assert_eq!(claims.name.as_deref(), Some("Alice"));
    assert_eq!(claims.metadata.as_deref(), Some("m"));
    assert_eq!(claims.video.room.as_deref(), Some("standup"));
}

#[test]
fn new_token_is_valid_for_six_hours_with_empty_identity() {
    assert_eq!(DEFAULT_VALIDITY_SECONDS, 6 * 60 * 60);
    let claims = AccessToken::new("k", "s").claims(0);
    assert_eq!(claims.exp, 21600);
    assert_eq!(claims.sub, "");
    assert_eq!(claims.name, None);
    assert_eq!(claims.metadata, None);
    assert_eq!(grant_json(&claims.video), "{}");
}

#[test]
fn signed_token_has_three_segments_under_the_hs256_header() {
    let token = AccessToken::new("devkey", "secret")
        .set_identity("alice")
        .set_video_grant(join_grant("standup"))
        .to_jwt_at(1_700_000_000)
        .unwrap();
    let parts: Vec<&str> = token.split('.').collect();
    assert_eq!(parts.len(), 3);
    assert_eq!(parts[0], HS256_HEADER);
    assert!(!parts[1].is_empty() && !parts[2].is_empty());
    assert!(!token.contains('='));
    assert!(!token.contains('{'));
}

#[test]
fn signed_token_verifies_and_round_trips_the_claims() {
    let now: u64 = 1_700_000_000;
    let validity: u64 = 24 * 60 * 60;
    let token = AccessToken::new("devkey", "secret")
        .set_identity("alice")
        .set_metadata("{\"isHost\":true}")
        .set_video_grant(join_grant("standup"))
        .set_valid_for(validity)
        .to_jwt_at(now)
        .unwrap();
    let claims = decode_claims(&token, "secret");
    assert_eq!(claims.get("sub").and_then(|v| v.as_str()), Some("alice"));
    assert_eq!(claims.get("iss").and_then(|v| v.as_str()), Some("devkey"));
    assert_eq!(claims.get("nbf").and_then(|v| v.as_u64()), Some(now));
    assert_eq!(claims.get("exp").and_then(|v| v.as_u64()), Some(now + validity));
    let exp = claims.get("exp").and_then(|v| v.as_u64()).unwrap();
    let nbf = claims.get("nbf").and_then(|v| v.as_u64()).unwrap();
    assert_eq!(exp - nbf, validity);
    assert!(claims.get("iat").is_none());
    assert!(claims.get("name").is_none());
    assert_eq!(claims.get("metadata").and_then(|v| v.as_str()), Some("{\"isHost\":true}"));
    let video = claims.get("video").unwrap();
    assert_eq!(video.get("room").and_then(|v| v.as_str()), Some("standup"));
    assert_eq!(video.get("roomJoin").and_then(|v| v.as_bool()), Some(true));
    assert!(video.get("roomAdmin").is_none());
}

#[test]
fn signed_token_is_rejected_under_another_secret() {
    let token = AccessToken::new("devkey", "secret").set_identity("a").to_jwt_at(5).unwrap();
    let mut validation = jsonwebtoken::Validation::new(jsonwebtoken::Algorithm::HS256);
    validation.validate_exp = false;
    let key = jsonwebtoken::DecodingKey::from_secret(b"other");
    assert!(jsonwebtoken::decode::<serde_json::Value>(&token, &key, &validation).is_err());
}

#[test]
fn signed_token_payload_is_the_claims_text() {
    let builder = AccessToken::new("devkey", "secret")
        .set_identity("bob \"the\" builder")
        .set_video_grant(join_grant("standup"));
    let token = builder.to_jwt_at(77).unwrap();
    let claims = decode_claims(&token, "secret");
    let expected: serde_json::Value =
        serde_json::from_str(&claims_json(&builder.claims(77))).unwrap();
    assert_eq!(claims, expected);
}

#[test]
fn signing_is_a_function_of_claims_and_secret() {
    let a = AccessToken::new("k", "s").set_identity("x").to_jwt_at(9).unwrap();
    let b = AccessToken::new("k", "s").set_identity("x").to_jwt_at(9).unwrap();
    let c = AccessToken::new("k", "s").set_identity("x").to_jwt_at(10).unwrap();
    let d = AccessToken::new("k", "t").set_identity("x").to_jwt_at(9).unwrap();
    assert_eq!(a, b);
    assert_ne!(a, c);
    assert_ne!(a, d);
}

#[test]
fn expiry_that_does_not_fit_is_refused() {
    let token = AccessToken::new("k", "s").set_valid_for(10);
    assert_eq!(token.to_jwt_at(u64::MAX - 9), Err(TokenError::ExpiryOutOfRange));
    assert!(token.to_jwt_at(u64::MAX - 10).is_ok());
}

#[test]
fn token_issued_now_is_currently_valid() {
    let token = AccessToken::new("devkey", "secret")
        .set_identity("alice")
        .set_valid_for(120)
        .to_jwt()
        .unwrap();
    let mut validation = jsonwebtoken::Validation::new(jsonwebtoken::Algorithm::HS256);
    validation.validate_nbf = true;
    let key = jsonwebtoken::DecodingKey::from_secret(b"secret");
    let claims = jsonwebtoken::decode::<serde_json::Value>(&token, &key, &validation).unwrap().claims;
    let exp = claims.get("exp").and_then(|v| v.as_u64()).unwrap();
    let nbf = claims.get("nbf").and_then(|v| v.as_u64()).unwrap();
    assert_eq!(exp - nbf, 120);
    assert!(claims.get("iat").is_none());
}

#[test]
fn signing_failure_maps_to_signing_error() {
    let failure = jsonwebtoken::errors::Error::from(jsonwebtoken::errors::ErrorKind::InvalidToken);
    assert_eq!(signed_token(Err(failure)), Err(TokenError::Signing));
    assert_eq!(signed_token(Ok("abc".to_string())), Ok("abc".to_string()));
}

#[test]
fn token_errors_have_messages() {
    assert_eq!(TokenError::Signing.message(), "failed to sign token claims");
    assert_eq!(TokenError::ExpiryOutOfRange.message(), "token expiry is out of range");
    assert_eq!(TokenError::ClockBeforeEpoch.message(), "system clock is before the Unix epoch");
}

#[test]
fn admin_token_has_fixed_identity_grant_and_five_minutes() {
    assert_eq!(ADMIN_VALIDITY_SECONDS, 300);
    let claims = admin_token("devkey", "secret").claims(1000);
    assert_eq!(claims.sub, "admin-service");
    assert_eq!(claims.iss, "devkey");
    assert_eq!(claims.nbf, 1000);
    assert_eq!(claims.exp, 1300);
    assert_eq!(claims.iat, None);
    assert_eq!(claims.metadata, None);
    assert_eq!(claims.name, None);
    assert_eq!(
        grant_json(&claims.video),
        "{\"roomCreate\":true,\"roomList\":true,\"roomRecord\":true,\"roomAdmin\":true,\
         \"roomJoin\":true,\"canPublish\":true,\"canSubscribe\":true,\"canPublishData\":true}"
    );
}

#[test]
fn created_admin_token_verifies_with_the_secret() {
    let token = create_admin_token("devkey", "secret").unwrap();
    let claims = decode_claims(&token, "secret");
    assert_eq!(claims.get("sub").and_then(|v| v.as_str()), Some("admin-service"));
    let exp = claims.get("exp").and_then(|v| v.as_u64()).unwrap();
    let nbf = claims.get("nbf").and_then(|v| v.as_u64()).unwrap();
    assert_eq!(exp - nbf, 300);
    let video = claims.get("video").unwrap();
    assert_eq!(video.get("roomAdmin").and_then(|v| v.as_bool()), Some(true));
    assert!(video.get("room").is_none());
}
