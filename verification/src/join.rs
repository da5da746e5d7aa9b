//! Joining a room: normalising the request, deciding who is host, and
//! issuing the participant's token.

use vstd::prelude::*;
use vstd::string::*;
use crate::clock::utc_timestamp_now;
use crate::config::Config;
use crate::grant::{unset_grant, GrantView, VideoGrant};
use crate::models::{ListParticipantsResponse, TokenRequest, TokenResponse};
use crate::text::{
    bool_str, bool_text, decimal, digit_char, i64_to_decimal, is_whitespace,
    lemma_trimmed_is_tight, signed_decimal,
    trim, trim_end, trim_start, trimmed,
};
use crate::token::{
    issued_at, issued_by_clock, outcome_view, token_at, AccessToken, TokenError, TokenView,
};

verus! {

/// How long a participant's token is valid: twenty-four hours.
pub const SESSION_VALIDITY_SECONDS: u64 = 86400;

/// The room that a request without a room name is for.
pub open spec fn default_room_name() -> Seq<char> {
    "default-room"@
}

/// The name given to a participant who sent none: `user-` and the time
/// of the request in seconds. Two requests within one second get the
/// same name; nothing makes it unique.
pub open spec fn placeholder_name(now: int) -> Seq<char> {
    "user-"@ + signed_decimal(now)
}

/// The room name of a normalised request: the default for an empty one,
/// then trimmed.
pub open spec fn normalized_room(room: Seq<char>) -> Seq<char> {
    trimmed(
        if room.len() == 0 {
            default_room_name()
        } else {
            room
        },
    )
}

/// The participant name of a request normalised at `now`: the
/// placeholder for an empty one, then trimmed.
pub open spec fn normalized_participant(name: Seq<char>, now: int) -> Seq<char> {
    trimmed(
        if name.len() == 0 {
            placeholder_name(now)
        } else {
            name
        },
    )
}

/// Normalises a request received at `now`: first the default room name
/// for an empty one, then the placeholder for an empty participant name,
/// then both trimmed. The host flag stays.
pub fn normalize_at(req: &TokenRequest, now: i64) -> (r: TokenRequest)
    ensures
        r.room_name@ == normalized_room(req.room_name@),
        r.participant_name@ == normalized_participant(req.participant_name@, now as int),
        r.is_host == req.is_host,
{
    let room = if req.room_name.as_str().unicode_len() == 0 {
        String::from_str("default-room")
    } else {
        req.room_name.clone()
    };
    let participant = if req.participant_name.as_str().unicode_len() == 0 {
        String::from_str("user-").concat(i64_to_decimal(now).as_str())
    } else {
        req.participant_name.clone()
    };
    TokenRequest {
        room_name: String::from_str(trim(room.as_str())),
        participant_name: String::from_str(trim(participant.as_str())),
        is_host: req.is_host,
    }
}

/// Normalises a request received now. The clock is read only where the
/// participant name is empty.
pub fn normalize(req: &TokenRequest) -> (r: TokenRequest)
    ensures
        r.room_name@ == normalized_room(req.room_name@),
        r.is_host == req.is_host,
        req.participant_name@.len() > 0 ==> r.participant_name@ == trimmed(req.participant_name@),
        req.participant_name@.len() == 0 ==> exists|now: int|
            r.participant_name@ == #[trigger] placeholder_name(now),
{
    let now: i64 = if req.participant_name.as_str().unicode_len() == 0 {
        utc_timestamp_now()
    } else {
        0
    };
    let r = normalize_at(req, now);
    proof {
        if req.participant_name@.len() == 0 {
            lemma_placeholder_is_kept(now as int);
            assert(r.participant_name@ == placeholder_name(now as int));
        }
    }
    r
}

/// A decimal numeral is not empty and ends in a digit.
pub proof fn lemma_decimal_ends_in_digit(n: nat)
    ensures
        decimal(n).len() > 0,
        decimal(n).last() == digit_char(n % 10),
        !is_whitespace(decimal(n).last()),
    decreases n,
{
    if n >= 10 {
        lemma_decimal_ends_in_digit(n / 10);
    }
}

/// An empty room name normalises to the default room name.
pub proof fn lemma_empty_room_is_default()
    ensures
        normalized_room(Seq::<char>::empty()) == default_room_name(),
        default_room_name().len() > 0,
{
    reveal_strlit("default-room");
    let d = default_room_name();
    assert(!is_whitespace(d[0]));
    assert(!is_whitespace(d.last()));
    assert(trim_start(d) == d);
    assert(trim_end(d) == d);
}

/// An empty participant name normalises to the placeholder, which is not
/// empty.
pub proof fn lemma_placeholder_is_kept(now: int)
    ensures
        normalized_participant(Seq::<char>::empty(), now) == placeholder_name(now),
        placeholder_name(now).len() > 5,
{
    reveal_strlit("user-");
    let digits = signed_decimal(now);
    if now < 0 {
        lemma_decimal_ends_in_digit((-now) as nat);
    } else {
        lemma_decimal_ends_in_digit(now as nat);
    }
    let p = placeholder_name(now);
    assert(digits.len() > 0);
    assert(p[0] == 'u');
    assert(p.last() == digits.last());
    assert(!is_whitespace(p[0]));
    assert(!is_whitespace(p.last()));
    assert(trim_start(p) == p);
    assert(trim_end(p) == p);
}

/// The names of a normalised request carry no whitespace at either end.
pub proof fn lemma_normalized_names_are_trimmed(room: Seq<char>, name: Seq<char>, now: int)
    ensures
        normalized_room(room).len() > 0 ==> !is_whitespace(normalized_room(room)[0])
            && !is_whitespace(normalized_room(room).last()),
        normalized_participant(name, now).len() > 0 ==> !is_whitespace(
            normalized_participant(name, now)[0],
        ) && !is_whitespace(normalized_participant(name, now).last()),
{
    lemma_trimmed_is_tight(
        if room.len() == 0 {
            default_room_name()
        } else {
            room
        },
    );
    lemma_trimmed_is_tight(
        if name.len() == 0 {
            placeholder_name(now)
        } else {
            name
        },
    );
}

/// What the room service was seen to hold when a join was arbitrated.
#[derive(Debug, Clone, Copy, PartialEq, Eq, Structural)]
pub enum Observation {
    /// The listing succeeded, with this many participants.
    Participants(usize),
    /// The listing failed, for whatever reason: a room that does not
    /// exist yet counts as an empty one.
    Unavailable,
}

/// The host decision: a request that asks for host is host; any other
/// is host if the room was seen empty or could not be seen at all.
pub open spec fn host_decision(requested: bool, seen: Observation) -> bool {
    requested || match seen {
        Observation::Participants(n) => n == 0,
        Observation::Unavailable => true,
    }
}

/// What to do next for a join request.
#[derive(Debug, Clone, Copy, PartialEq, Eq, Structural)]
pub enum JoinStep {
    /// Ask the room service for the room's participants.
    ListParticipants,
    /// Issue the token with this host decision.
    Issue { is_host: bool },
}

/// The first step for a normalised request: a request that asks for host
/// is issued as host without a look at the room; any other needs the
/// room's participants.
pub fn begin_join(req: &TokenRequest) -> (r: JoinStep)
    ensures
        r == if req.is_host {
            JoinStep::Issue { is_host: true }
        } else {
            JoinStep::ListParticipants
        },
{
    if req.is_host {
        JoinStep::Issue { is_host: true }
    } else {
        JoinStep::ListParticipants
    }
}

/// What a listing of the room's participants shows.
pub fn observe(listing: &Result<ListParticipantsResponse, String>) -> (r: Observation)
    ensures
        r == match *listing {
            Ok(list) => Observation::Participants(list.participants@.len() as usize),
            Err(_) => Observation::Unavailable,
        },
{
    match listing {
        Ok(list) => Observation::Participants(list.participants.len()),
        Err(_) => Observation::Unavailable,
    }
}

/// Decides whether the requester is host.
pub fn decide_host(requested: bool, seen: Observation) -> (r: bool)
    ensures
        r == host_decision(requested, seen),
{
    if requested {
        true
    } else {
        match seen {
            Observation::Participants(n) => n == 0,
            Observation::Unavailable => true,
        }
    }
}

/// A room seen empty, or not seen at all, makes the requester host,
/// whether or not the request asked for it.
pub proof fn lemma_empty_room_grants_host(requested: bool, seen: Observation)
    requires
        seen == Observation::Unavailable || seen == Observation::Participants(0),
    ensures
        host_decision(requested, seen),
{
}

/// A room seen with a participant in it makes the requester host only
/// if the request asked for it.
pub proof fn lemma_occupied_room_needs_request(requested: bool, n: usize)
    requires
        n >= 1,
    ensures
        host_decision(requested, Observation::Participants(n)) == requested,
{
}

/// The permissions of a participant: to join the room, to publish and to
/// subscribe, whoever is host.
pub open spec fn join_grant(room: Seq<char>) -> GrantView {
    GrantView {
        room_join: Some(true),
        room: Some(room),
        can_publish: Some(true),
        can_subscribe: Some(true),
        ..unset_grant()
    }
}

/// The metadata of a participant's token: a JSON object with the host
/// flag.
pub open spec fn host_metadata(is_host: bool) -> Seq<char> {
    "{\"isHost\":"@ + bool_text(is_host) + "}"@
}

/// The token of a participant, not yet signed.
pub open spec fn join_token_view(
    api_key: Seq<char>,
    api_secret: Seq<char>,
    room: Seq<char>,
    participant: Seq<char>,
    is_host: bool,
) -> TokenView {
    TokenView {
        api_key,
        api_secret,
        identity: participant,
        name: None,
        metadata: Some(host_metadata(is_host)),
        grant: join_grant(room),
        valid_for: SESSION_VALIDITY_SECONDS as nat,
    }
}

/// Builds the token of a participant, not yet signed.
pub fn join_token(config: &Config, req: &TokenRequest, is_host: bool) -> (r: AccessToken)
    ensures
        r@ == join_token_view(
            config.api_key@,
            config.api_secret@,
            req.room_name@,
            req.participant_name@,
            is_host,
        ),
{
    let mut grant = VideoGrant::default();
    grant.room_join = Some(true);
    grant.room = Some(req.room_name.clone());
    grant.can_publish = Some(true);
    grant.can_subscribe = Some(true);
    let metadata = String::from_str("{\"isHost\":").concat(bool_str(is_host)).concat("}");
    AccessToken::new(config.api_key.as_str(), config.api_secret.as_str()).set_identity(
        req.participant_name.as_str(),
    ).set_metadata(metadata.as_str()).set_video_grant(grant).set_valid_for(
        SESSION_VALIDITY_SECONDS,
    )
}

/// Whether `r` answers a join request for the outcome `signed` of the
/// issuance: the token with the client's address of the room service, the
/// room name and the host decision, or the issuance's error.
pub open spec fn answers(
    r: Result<TokenResponse, TokenError>,
    config: Config,
    req: TokenRequest,
    is_host: bool,
    signed: Result<Seq<char>, TokenError>,
) -> bool {
    match signed {
        Ok(token) => r matches Ok(resp) && resp.token@ == token && resp.url@
            == config.livekit_ws_url@ && resp.room_name@ == req.room_name@ && resp.is_host
            == is_host,
        Err(e) => r == Err::<TokenResponse, TokenError>(e),
    }
}

/// The token of a participant for a configuration and a normalised
/// request, not yet signed.
pub open spec fn join_view(config: Config, req: TokenRequest, is_host: bool) -> TokenView {
    join_token_view(
        config.api_key@,
        config.api_secret@,
        req.room_name@,
        req.participant_name@,
        is_host,
    )
}

/// Whether `r` answers a join request by a clock that reads `clock`:
/// `ClockBeforeEpoch` where the clock stands before the epoch, else the
/// answer for what issuing the participant's token at the instant read
/// gives.
pub open spec fn answered_by_clock(
    r: Result<TokenResponse, TokenError>,
    config: Config,
    req: TokenRequest,
    is_host: bool,
    clock: Option<u64>,
) -> bool {
    match clock {
        Some(now) => answers(
            r,
            config,
            req,
            is_host,
            token_at(join_view(config, req, is_host), now as nat),
        ),
        None => r == Err::<TokenResponse, TokenError>(TokenError::ClockBeforeEpoch),
    }
}

/// The answer to a join request for an outcome of the signature: the
/// token with the client's address of the room service, the room name
/// and the host decision, or the signature's error.
pub fn join_response(
    config: &Config,
    req: &TokenRequest,
    is_host: bool,
    signed: Result<String, TokenError>,
) -> (r: Result<TokenResponse, TokenError>)
    ensures
        answers(r, *config, *req, is_host, outcome_view(signed)),
        match signed {
            Ok(token) => r matches Ok(resp) && resp.token == token && resp.url@
                == config.livekit_ws_url@ && resp.room_name@ == req.room_name@ && resp.is_host
                == is_host,
            Err(e) => r == Err::<TokenResponse, TokenError>(e),
        },
{
    match signed {
        Ok(token) => Ok(
            TokenResponse {
                token,
                url: config.livekit_ws_url.clone(),
                room_name: req.room_name.clone(),
                is_host,
            },
        ),
        Err(e) => Err(e),
    }
}

/// Issues the token for a normalised request and a host decision, as of
/// `now`. An expiry that does not fit is refused; past that, success is the
/// signature's to give.
pub fn issue_at(config: &Config, req: &TokenRequest, is_host: bool, now: u64) -> (r: Result<
    TokenResponse,
    TokenError,
>)
    ensures
        answered_by_clock(r, *config, *req, is_host, Some(now)),
        now + SESSION_VALIDITY_SECONDS > u64::MAX <==> r == Err::<TokenResponse, TokenError>(
            TokenError::ExpiryOutOfRange,
        ),
        r matches Ok(resp) ==> {
            &&& issued_at(
                join_token_view(
                    config.api_key@,
                    config.api_secret@,
                    req.room_name@,
                    req.participant_name@,
                    is_host,
                ),
                now as nat,
                resp.token@,
            )
            &&& resp.url@ == config.livekit_ws_url@
            &&& resp.room_name@ == req.room_name@
            &&& resp.is_host == is_host
        },
{
    let signed = join_token(config, req, is_host).to_jwt_at(now);
    join_response(config, req, is_host, signed)
}

/// Issues the token for a normalised request and a host decision, as of
/// now. The result is the answer by some reading of the clock:
/// `ClockBeforeEpoch` for a clock before the epoch; else, for the instant
/// read, the signed token of the participant with the client's address of
/// the room service, the room name and the host decision, `Signing` where
/// signing it fails, or `ExpiryOutOfRange` where a day past that instant
/// does not fit.
pub fn issue(config: &Config, req: &TokenRequest, is_host: bool) -> (r: Result<
    TokenResponse,
    TokenError,
>)
    ensures
        exists|clock: Option<u64>| #[trigger] answered_by_clock(r, *config, *req, is_host, clock),
        r matches Ok(resp) ==> {
            &&& exists|now: nat| #[trigger]
                issued_at(
                    join_token_view(
                        config.api_key@,
                        config.api_secret@,
                        req.room_name@,
                        req.participant_name@,
                        is_host,
                    ),
                    now,
                    resp.token@,
                )
            &&& resp.url@ == config.livekit_ws_url@
            &&& resp.room_name@ == req.room_name@
            &&& resp.is_host == is_host
        },
{
    let signed = join_token(config, req, is_host).to_jwt();
    let ghost clock = choose|clock: Option<u64>| #[trigger]
        issued_by_clock(join_view(*config, *req, is_host), clock, outcome_view(signed));
    let r = join_response(config, req, is_host, signed);
    assert(answered_by_clock(r, *config, *req, is_host, clock));
    r
}

} // verus!
