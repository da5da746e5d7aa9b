use links_signaling::config::Config;
use links_signaling::grant::grant_json;
use links_signaling::join::{
    begin_join, decide_host, issue, issue_at, join_response, join_token, normalize, normalize_at,
    observe, JoinStep, Observation, SESSION_VALIDITY_SECONDS,
};
use links_signaling::models::{ListParticipantsResponse, LiveKitParticipant, TokenRequest};
use links_signaling::token::TokenError;

fn config() -> Config {
    Config {
        livekit_url: "http://localhost:7880".to_string(),
        livekit_ws_url: "ws://livekit.example:7880".to_string(),
        api_key: "devkey".to_string(),
        api_secret: "secret".to_string(),
        server_port: 8081,
        server_host: "localhost".to_string(),
        enable_https: false,
        ssl_cert_file: "./certs/server.crt".to_string(),
        ssl_key_file: "./certs/server.key".to_string(),
    }
}

fn request(room: &str, participant: &str, is_host: bool) -> TokenRequest {
    TokenRequest {
        room_name: room.to_string(),
        participant_name: participant.to_string(),
        is_host,
    }
}

fn participant(identity: &str) -> LiveKitParticipant {
    LiveKitParticipant {
        sid: None,
        identity: identity.to_string(),
        state: None,
        tracks: None,
        metadata: None,
        joined_at: None,
        name: None,
        version: None,
        permission: None,
        region: None,
        is_publisher: None,
    }
}

fn decode_claims(token: &str, secret: &str) -> serde_json::Value {
    let mut validation = jsonwebtoken::Validation::new(jsonwebtoken::Algorithm::HS256);
    validation.validate_exp = false;
    let key = jsonwebtoken::DecodingKey::from_secret(secret.as_bytes());
    jsonwebtoken::decode::<serde_json::Value>(token, &key, &validation).unwrap().claims
}

#[test]
fn empty_room_name_becomes_default_room() {
    let r = normalize_at(&request("", "alice", false), 1_700_000_000);
    assert_eq!(r.room_name, "default-room");
    assert_eq!(r.participant_name, "alice");
    assert!(!r.is_host);
}

#[test]
fn empty_participant_name_becomes_placeholder_with_timestamp() {
    let r = normalize_at(&request("standup", "", true), 1_700_000_000);
    assert_eq!(r.room_name, "standup");
    assert_eq!(r.participant_name, "user-1700000000");
    assert!(r.is_host);
    assert_eq!(normalize_at(&request("", "", false), -5).participant_name, "user--5");
}

#[test]
fn names_are_trimmed_at_both_ends() {
    let r = normalize_at(&request("  standup \t", "\n alice smith \r\n", false), 0);
    assert_eq!(r.room_name, "standup");
    assert_eq!(r.participant_name, "alice smith");
    let r = normalize_at(&request("\u{a0}\u{3000}room\u{2003}", "\u{85}bob\u{1680}", false), 0);
    assert_eq!(r.room_name, "room");
    assert_eq!(r.participant_name, "bob");
}

#[test]
fn default_is_substituted_before_trimming() {
    let r = normalize_at(&request("   ", " \t", false), 12);
    assert_eq!(r.room_name, "");
    assert_eq!(r.participant_name, "");
}

#[test]
fn normalize_reads_the_clock_only_for_the_placeholder() {
    let r = normalize(&request(" standup ", " alice ", false));
    assert_eq!(r.room_name, "standup");
    assert_eq!(r.participant_name, "alice");
    let r = normalize(&request("", "", false));
    assert_eq!(r.room_name, "default-room");
    assert!(r.participant_name.starts_with("user-"));
    assert!(r.participant_name.len() > 5);
    assert!(r.participant_name[5..].chars().all(|c| c.is_ascii_digit()));
}

#[test]
fn request_for_host_is_issued_without_a_listing() {
    assert_eq!(begin_join(&request("r", "p", true)), JoinStep::Issue { is_host: true });
    assert_eq!(begin_join(&request("r", "p", false)), JoinStep::ListParticipants);
}

#[test]
fn empty_or_unavailable_room_grants_host() {
    assert!(decide_host(false, Observation::Participants(0)));
    assert!(decide_host(false, Observation::Unavailable));
    assert!(decide_host(true, Observation::Participants(0)));
    assert!(decide_host(true, Observation::Unavailable));
}

#[test]
fn occupied_room_grants_host_only_on_request() {
    assert!(!decide_host(false, Observation::Participants(1)));
    assert!(!decide_host(false, Observation::Participants(17)));
    assert!(decide_host(true, Observation::Participants(1)));
    assert!(decide_host(true, Observation::Participants(usize::MAX)));
}

#[test]
fn listing_is_observed_by_its_length_or_its_failure() {
    let empty = Ok(ListParticipantsResponse { participants: vec![] });
    assert_eq!(observe(&empty), Observation::Participants(0));
    let two = Ok(ListParticipantsResponse { participants: vec![participant("a"), participant("b")] });
    assert_eq!(observe(&two), Observation::Participants(2));
    let failed = Err("Failed to list participants: room not found".to_string());
    assert_eq!(observe(&failed), Observation::Unavailable);
}

#[test]
fn concurrent_joiners_of_an_empty_room_are_both_host() {
    let empty = Ok(ListParticipantsResponse { participants: vec![] });
    let first = decide_host(false, observe(&empty));
    let second = decide_host(false, observe(&empty));
    assert!(first && second);
}

#[test]
fn join_token_grants_join_publish_subscribe_whoever_is_host() {
    for is_host in [false, true] {
        let claims = join_token(&config(), &request("standup", "alice", false), is_host).claims(50);
        assert_eq!(claims.sub, "alice");
        assert_eq!(claims.iss, "devkey");
        assert_eq!(claims.exp - claims.nbf, 24 * 60 * 60);
        assert_eq!(claims.name, None);
        assert_eq!(
            grant_json(&claims.video),
            "{\"roomJoin\":true,\"room\":\"standup\",\"canPublish\":true,\"canSubscribe\":true}"
        );
        let expected = if is_host { "{\"isHost\":true}" } else { "{\"isHost\":false}" };
        assert_eq!(claims.metadata.as_deref(), Some(expected));
    }
    assert_eq!(SESSION_VALIDITY_SECONDS, 86400);
}

#[test]
fn join_response_echoes_room_url_and_decision() {
    let cfg = config();
    let req = request("standup", "alice", false);
    let ok = join_response(&cfg, &req, true, Ok("tok".to_string())).unwrap();
    assert_eq!(ok.token, "tok");
    assert_eq!(ok.url, "ws://livekit.example:7880");
    assert_eq!(ok.room_name, "standup");
    assert!(ok.is_host);
    let err = join_response(&cfg, &req, true, Err(TokenError::Signing));
    assert_eq!(err, Err(TokenError::Signing));
}

#[test]
fn issue_at_refuses_an_expiry_out_of_range() {
    let r = issue_at(&config(), &request("standup", "alice", false), false, u64::MAX - 86399);
    assert_eq!(r, Err(TokenError::ExpiryOutOfRange));
}

#[test]
fn issue_signs_with_the_configured_secret() {
    let resp = issue(&config(), &request("standup", "alice", false), false).unwrap();
    let claims = decode_claims(&resp.token, "secret");
    assert_eq!(claims.get("sub").and_then(|v| v.as_str()), Some("alice"));
    assert_eq!(claims.get("metadata").and_then(|v| v.as_str()), Some("{\"isHost\":false}"));
    assert!(!resp.is_host);
}

#[test]
fn first_joiner_of_standup_becomes_host() {
    let cfg = config();
    let req = normalize_at(&request("standup", "alice", false), 1_700_000_000);
    assert_eq!(begin_join(&req), JoinStep::ListParticipants);
    let listing = Ok(ListParticipantsResponse { participants: vec![] });
    let is_host = decide_host(req.is_host, observe(&listing));
    let resp = issue_at(&cfg, &req, is_host, 1_700_000_000).unwrap();
    assert!(resp.is_host);
    assert_eq!(resp.room_name, "standup");
    assert!(!resp.token.is_empty());
    assert_eq!(resp.url, cfg.livekit_ws_url);
    let claims = decode_claims(&resp.token, &cfg.api_secret);
    assert_eq!(claims.get("sub").and_then(|v| v.as_str()), Some("alice"));
    assert_eq!(claims.get("metadata").and_then(|v| v.as_str()), Some("{\"isHost\":true}"));
    assert_eq!(claims.get("nbf").and_then(|v| v.as_u64()), Some(1_700_000_000));
    assert_eq!(claims.get("exp").and_then(|v| v.as_u64()), Some(1_700_086_400));
}
