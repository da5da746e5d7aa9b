//! The values that cross the server's boundary: requests, responses, and
//! rooms and participants as the room service reports them.

use vstd::prelude::*;
use vstd::string::*;
use crate::clock::{utc_rfc3339_now, utc_timestamp_now};
use crate::text::{i64_to_decimal, signed_decimal};

verus! {

/// A JSON value of `serde_json`, carried through untouched.
#[verifier::external_type_specification]
#[verifier::external_body]
pub struct ExJsonValue(serde_json::Value);

/// A room as clients see it. `created_at` is in seconds since the Unix
/// epoch.
#[derive(Debug, Clone, PartialEq, Eq)]
pub struct Room {
    pub name: String,
    pub display_name: String,
    pub participants: i32,
    pub created_at: i64,
}

/// A request for a token to join a room.
#[derive(Debug, Clone, PartialEq, Eq)]
pub struct TokenRequest {
    pub room_name: String,
    pub participant_name: String,
    pub is_host: bool,
}

/// The answer to a token request.
#[derive(Debug, Clone, PartialEq, Eq)]
pub struct TokenResponse {
    pub token: String,
    pub url: String,
    pub room_name: String,
    pub is_host: bool,
}

/// The body of every error response.
#[derive(Debug, Clone, PartialEq, Eq)]
pub struct ErrorResponse {
    pub error: String,
}

/// A request to create a room.
#[derive(Debug, Clone, PartialEq, Eq)]
pub struct CreateRoomRequest {
    pub name: String,
}

/// The answer to a health check.
#[derive(Debug, Clone, PartialEq, Eq)]
pub struct HealthResponse {
    pub status: String,
    pub time: String,
}

/// A plain message, with the identity it is about where there is one.
#[derive(Debug, Clone, PartialEq, Eq)]
pub struct MessageResponse {
    pub message: String,
    pub identity: Option<String>,
}

/// A room as the room service reports it.
#[derive(Debug, Clone)]
pub struct LiveKitRoom {
    pub sid: Option<String>,
    pub name: String,
    pub empty_timeout: Option<u32>,
    pub max_participants: Option<u32>,
    pub creation_time: Option<i64>,
    pub turn_password: Option<String>,
    pub enabled_codecs: Option<Vec<serde_json::Value>>,
    pub metadata: Option<String>,
    pub num_participants: Option<u32>,
    pub num_publishers: Option<u32>,
    pub active_recording: Option<bool>,
}

/// A participant as the room service reports it.
#[derive(Debug, Clone)]
pub struct LiveKitParticipant {
    pub sid: Option<String>,
    pub identity: String,
    pub state: Option<i32>,
    pub tracks: Option<Vec<serde_json::Value>>,
    pub metadata: Option<String>,
    pub joined_at: Option<i64>,
    pub name: Option<String>,
    pub version: Option<u32>,
    pub permission: Option<serde_json::Value>,
    pub region: Option<String>,
    pub is_publisher: Option<bool>,
}

/// The room service's list of rooms.
#[derive(Debug, Clone)]
pub struct ListRoomsResponse {
    pub rooms: Vec<LiveKitRoom>,
}

/// The room service's list of a room's participants.
#[derive(Debug, Clone)]
pub struct ListParticipantsResponse {
    pub participants: Vec<LiveKitParticipant>,
}

/// The seconds after which an empty room is closed, for rooms created here.
pub const ROOM_EMPTY_TIMEOUT_SECONDS: u32 = 300;

/// The most participants that a room created here admits.
pub const ROOM_MAX_PARTICIPANTS: u32 = 50;

/// A count of the room service as the signed number that clients are
/// given: the same number while it fits, else wrapped by 2^32.
pub open spec fn signed_count(n: u32) -> i32 {
    if n <= i32::MAX {
        n as i32
    } else {
        (n - 0x1_0000_0000) as i32
    }
}

/// Converts a count to the signed number that clients are given.
pub fn count_to_i32(n: u32) -> (r: i32)
    ensures
        r == signed_count(n),
{
    if n <= 0x7fff_ffff {
        n as i32
    } else {
        let above: u32 = n - 0x8000_0000;
        (above as i32) + i32::MIN
    }
}

/// The number of participants that a room is shown with: the reported
/// number, zero where none is reported.
pub open spec fn shown_participants(reported: Option<u32>) -> i32 {
    match reported {
        Some(n) => signed_count(n),
        None => 0,
    }
}

/// The creation time that a room is shown with: the reported one, else
/// the current time.
pub open spec fn shown_creation(reported: Option<i64>, now: i64) -> i64 {
    match reported {
        Some(t) => t,
        None => now,
    }
}

/// Whether `shown` is how `room` is presented to clients at `now`.
pub open spec fn presents(shown: Room, room: LiveKitRoom, now: i64) -> bool {
    &&& shown.name@ == room.name@
    &&& shown.display_name@ == room.name@
    &&& shown.participants == shown_participants(room.num_participants)
    &&& shown.created_at == shown_creation(room.creation_time, now)
}

/// Presents a room of the room service to clients. The room's name is
/// also its display name.
pub fn room_info(room: &LiveKitRoom, now: i64) -> (r: Room)
    ensures
        presents(r, *room, now),
{
    Room {
        name: room.name.clone(),
        display_name: room.name.clone(),
        participants: match room.num_participants {
            Some(n) => count_to_i32(n),
            None => 0,
        },
        created_at: match room.creation_time {
            Some(t) => t,
            None => now,
        },
    }
}

/// Presents each room of a list, in order.
pub fn room_list(rooms: &Vec<LiveKitRoom>, now: i64) -> (r: Vec<Room>)
    ensures
        r@.len() == rooms@.len(),
        forall|i: int| 0 <= i < rooms@.len() ==> presents(#[trigger] r@[i], rooms@[i], now),
{
    let mut out: Vec<Room> = Vec::new();
    let mut i: usize = 0;
    while i < rooms.len()
        invariant
            i <= rooms.len(),
            out@.len() == i,
            forall|k: int| 0 <= k < i ==> presents(#[trigger] out@[k], rooms@[k], now),
        decreases rooms.len() - i,
    {
        out.push(room_info(&rooms[i], now));
        i += 1;
    }
    out
}

/// The name that a room is created under when the request gives none.
pub open spec fn generated_room_name(now: int) -> Seq<char> {
    "room-"@ + signed_decimal(now)
}

/// The name to create a room under at `now`: the requested one, or a
/// generated one where the request's is empty.
pub fn room_name_at(req: &CreateRoomRequest, now: i64) -> (r: String)
    ensures
        r@ == if req.name@.len() == 0 {
            generated_room_name(now as int)
        } else {
            req.name@
        },
{
    if req.name.as_str().unicode_len() == 0 {
        String::from_str("room-").concat(i64_to_decimal(now).as_str())
    } else {
        req.name.clone()
    }
}

/// The name to create a room under: the requested one, or one generated
/// from the current time where the request's is empty.
pub fn room_name_for(req: &CreateRoomRequest) -> (r: String)
    ensures
        req.name@.len() > 0 ==> r@ == req.name@,
        req.name@.len() == 0 ==> exists|now: int| r@ == #[trigger] generated_room_name(now),
{
    if req.name.as_str().unicode_len() == 0 {
        let now = utc_timestamp_now();
        let r = room_name_at(req, now);
        assert(r@ == generated_room_name(now as int));
        r
    } else {
        req.name.clone()
    }
}

/// The answer to a health check taken at `time`.
pub fn health_at(time: String) -> (r: HealthResponse)
    ensures
        r.status@ == "ok"@,
        r.time == time,
{
    HealthResponse { status: String::from_str("ok"), time }
}

/// The answer to a health check taken now; the time is the clock's.
pub fn health() -> (r: HealthResponse)
    ensures
        r.status@ == "ok"@,
{
    health_at(utc_rfc3339_now())
}

/// The answer after a room was deleted.
pub fn room_deleted() -> (r: MessageResponse)
    ensures
        r.message@ == "Room deleted"@,
        r.identity is None,
{
    MessageResponse { message: String::from_str("Room deleted"), identity: None }
}

/// The answer after a participant was removed.
pub fn participant_removed(identity: String) -> (r: MessageResponse)
    ensures
        r.message@ == "Participant removed"@,
        r.identity == Some(identity),
{
    MessageResponse { message: String::from_str("Participant removed"), identity: Some(identity) }
}

/// The answer after a meeting was ended.
pub fn meeting_ended() -> (r: MessageResponse)
    ensures
        r.message@ == "Meeting ended"@,
        r.identity is None,
{
    MessageResponse { message: String::from_str("Meeting ended"), identity: None }
}

/// An error response with the given message.
pub fn error_response(message: &str) -> (r: ErrorResponse)
    ensures
        r.error@ == message@,
{
    ErrorResponse { error: String::from_str(message) }
}

/// The error response for a token that could not be issued.
pub fn token_failure() -> (r: ErrorResponse)
    ensures
        r.error@ == "Failed to generate token"@,
{
    error_response("Failed to generate token")
}

/// A call to the room service.
#[derive(Debug, Clone, Copy, PartialEq, Eq, Structural)]
pub enum GatewayCall {
    ListRooms,
    CreateRoom,
    DeleteRoom,
    ListParticipants,
    RemoveParticipant,
}

/// What a failed call is reported with, before the service's own words.
pub open spec fn failure_prefix(call: GatewayCall) -> Seq<char> {
    match call {
        GatewayCall::ListRooms => "Failed to list rooms: "@,
        GatewayCall::CreateRoom => "Failed to create room: "@,
        GatewayCall::DeleteRoom => "Failed to delete room: "@,
        GatewayCall::ListParticipants => "Failed to list participants: "@,
        GatewayCall::RemoveParticipant => "Failed to remove participant: "@,
    }
}

/// The message for a failed call to the room service: what was attempted,
/// then the service's own words.
pub fn gateway_failure(call: GatewayCall, detail: &str) -> (r: String)
    ensures
        r@ == failure_prefix(call) + detail@,
{
    let prefix = match call {
        GatewayCall::ListRooms => "Failed to list rooms: ",
        GatewayCall::CreateRoom => "Failed to create room: ",
        GatewayCall::DeleteRoom => "Failed to delete room: ",
        GatewayCall::ListParticipants => "Failed to list participants: ",
        GatewayCall::RemoveParticipant => "Failed to remove participant: ",
    };
    String::from_str(prefix).concat(detail)
}

} // verus!
