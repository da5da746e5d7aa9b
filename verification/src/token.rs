//! Capability tokens: the claims, the builder and the signature.

use vstd::prelude::*;
use vstd::string::*;
use crate::clock::unix_seconds_now;
use crate::grant::{
    flag_member, grant_json, grant_text, opt_text, put_text, text_member, GrantView, VideoGrant,
    clone_opt_text, unset_grant,
};
use crate::json::{carries, lacks, render_object, Member, ObjectWriter};
use crate::text::{
    decimal, lemma_decimal_reads_back, lemma_quoted_reads_back, number_of, quoted, u64_to_decimal,
    unquoted,
};

verus! {

/// The claims that a token asserts.
#[derive(Debug)]
pub struct AccessTokenClaims {
    /// Expiry, in seconds since the Unix epoch.
    pub exp: u64,
    /// Issued-at, in seconds since the Unix epoch.
    pub iat: Option<u64>,
    /// Not-before, in seconds since the Unix epoch.
    pub nbf: u64,
    /// Issuer: the API key.
    pub iss: String,
    /// Subject: the participant's identity.
    pub sub: String,
    /// The permissions granted.
    pub video: VideoGrant,
    /// Opaque participant metadata.
    pub metadata: Option<String>,
    /// The participant's display name.
    pub name: Option<String>,
}

/// The mathematical value of a set of claims.
pub struct ClaimsView {
    pub exp: nat,
    pub iat: Option<nat>,
    pub nbf: nat,
    pub iss: Seq<char>,
    pub sub: Seq<char>,
    pub video: GrantView,
    pub metadata: Option<Seq<char>>,
    pub name: Option<Seq<char>>,
}

impl View for AccessTokenClaims {
    type V = ClaimsView;

    open spec fn view(&self) -> ClaimsView {
        ClaimsView {
            exp: self.exp as nat,
            iat: match self.iat {
                Some(t) => Some(t as nat),
                None => None,
            },
            nbf: self.nbf as nat,
            iss: self.iss@,
            sub: self.sub@,
            video: self.video@,
            metadata: opt_text(self.metadata),
            name: opt_text(self.name),
        }
    }
}

impl Clone for AccessTokenClaims {
    fn clone(&self) -> (r: Self)
        ensures
            r@ == self@,
    {
        AccessTokenClaims {
            exp: self.exp,
            iat: self.iat,
            nbf: self.nbf,
            iss: self.iss.clone(),
            sub: self.sub.clone(),
            video: self.video.clone(),
            metadata: clone_opt_text(&self.metadata),
            name: clone_opt_text(&self.name),
        }
    }
}

/// The member that an optional instant contributes: none while unset.
pub open spec fn instant_member(key: Seq<char>, v: Option<nat>) -> Seq<Member> {
    match v {
        Some(t) => seq![Member { key, value: decimal(t) }],
        None => Seq::empty(),
    }
}

/// The members of the signed payload, in the order in which they are
/// written: expiry, issued-at if set, not-before, issuer, subject, the
/// grant, then metadata and name if set.
pub open spec fn claims_members(c: ClaimsView) -> Seq<Member> {
    Seq::<Member>::empty() + instant_member("exp"@, Some(c.exp)) + instant_member("iat"@, c.iat)
        + instant_member("nbf"@, Some(c.nbf)) + text_member("iss"@, Some(c.iss)) + text_member(
        "sub"@,
        Some(c.sub),
    ) + seq![Member { key: "video"@, value: grant_text(c.video) }] + text_member(
        "metadata"@,
        c.metadata,
    ) + text_member("name"@, c.name)
}

/// The JSON text of the signed payload.
pub open spec fn claims_text(c: ClaimsView) -> Seq<char> {
    render_object(claims_members(c))
}

fn put_instant(w: &mut ObjectWriter, key: &str, v: Option<u64>)
    requires
        old(w).wf(),
    ensures
        final(w).wf(),
        final(w).members() == old(w).members() + instant_member(
            key@,
            match v {
                Some(t) => Some(t as nat),
                None => None,
            },
        ),
{
    match v {
        Some(t) => {
            let digits = u64_to_decimal(t);
            w.put(key, digits.as_str());
            assert(w.members() =~= old(w).members() + instant_member(key@, Some(t as nat)));
        },
        None => {
            assert(w.members() =~= old(w).members() + instant_member(key@, None));
        },
    }
}

/// Writes the payload that is signed.
pub fn claims_json(c: &AccessTokenClaims) -> (r: String)
    ensures
        r@ == claims_text(c@),
{
    let mut w = ObjectWriter::new();
    put_instant(&mut w, "exp", Some(c.exp));
    put_instant(&mut w, "iat", c.iat);
    put_instant(&mut w, "nbf", Some(c.nbf));
    let issuer = Some(c.iss.clone());
    put_text(&mut w, "iss", &issuer);
    let subject = Some(c.sub.clone());
    put_text(&mut w, "sub", &subject);
    let ghost before = w.members();
    let video = grant_json(&c.video);
    w.put("video", video.as_str());
    assert(w.members() =~= before + seq![Member { key: "video"@, value: grant_text(c.video@) }]);
    put_text(&mut w, "metadata", &c.metadata);
    put_text(&mut w, "name", &c.name);
    w.finish()
}

/// Why no token was issued.
#[derive(Debug, Clone, Copy, PartialEq, Eq, Structural)]
pub enum TokenError {
    /// The machine's clock stands before the Unix epoch.
    ClockBeforeEpoch,
    /// Issuance time plus validity does not fit the expiry claim.
    ExpiryOutOfRange,
    /// The claims could not be serialised or signed.
    Signing,
}

impl TokenError {
    /// The error as a message for logs and responses.
    pub fn message(&self) -> (r: String)
        ensures
            r@ == match *self {
                TokenError::ClockBeforeEpoch => "system clock is before the Unix epoch"@,
                TokenError::ExpiryOutOfRange => "token expiry is out of range"@,
                TokenError::Signing => "failed to sign token claims"@,
            },
    {
        match self {
            TokenError::ClockBeforeEpoch => String::from_str(
                "system clock is before the Unix epoch",
            ),
            TokenError::ExpiryOutOfRange => String::from_str("token expiry is out of range"),
            TokenError::Signing => String::from_str("failed to sign token claims"),
        }
    }
}

/// The error type of `jsonwebtoken`.
#[verifier::external_type_specification]
#[verifier::external_body]
pub struct ExJwtError(jsonwebtoken::errors::Error);

/// What `jsonwebtoken::encode` gives for a JSON payload under the HS256
/// header and a secret used as the raw HMAC key: the compact signed token,
/// or `None` where the call fails.
pub uninterp spec fn hs256_token(payload: Seq<char>, secret: Seq<char>) -> Option<Seq<char>>;

/// `jsonwebtoken::encode` with the header `Header::new(Algorithm::HS256)`
/// and the key `EncodingKey::from_secret`, on a payload that is handed over
/// as JSON text through `serde_json::value::RawValue::from_string`, so that
/// it is signed as written. Nothing but the payload and the secret enters
/// the call, so its outcome is the one named `hs256_token`: the token where
/// it succeeds, `None` where it fails. On which payloads it succeeds is
/// left open: `RawValue::from_string` refuses a text that is not JSON.
#[verifier::external_body]
fn sign_hs256(payload: &str, secret: &str) -> (r: Result<String, jsonwebtoken::errors::Error>)
    ensures
        match r {
            Ok(t) => hs256_token(payload@, secret@) == Some(t@),
            Err(_) => hs256_token(payload@, secret@) is None,
        },
{
    let raw = serde_json::value::RawValue::from_string(payload.to_string())?;
    jsonwebtoken::encode(
        &jsonwebtoken::Header::new(jsonwebtoken::Algorithm::HS256),
        &raw,
        &jsonwebtoken::EncodingKey::from_secret(secret.as_bytes()),
    )
}

/// What the issuer returns for an outcome of the signature: the token as
/// it came, or `TokenError::Signing` for any failure.
pub fn signed_token(outcome: Result<String, jsonwebtoken::errors::Error>) -> (r: Result<
    String,
    TokenError,
>)
    ensures
        match outcome {
            Ok(t) => r == Ok::<String, TokenError>(t),
            Err(_) => r == Err::<String, TokenError>(TokenError::Signing),
        },
{
    match outcome {
        Ok(t) => Ok(t),
        Err(_) => Err(TokenError::Signing),
    }
}

/// A token under construction: who issues it, for whom, with which
/// permissions and for how long.
pub struct AccessToken {
    api_key: String,
    api_secret: String,
    identity: String,
    name: Option<String>,
    metadata: Option<String>,
    video_grant: VideoGrant,
    valid_for_seconds: u64,
}

/// The mathematical value of a token under construction.
pub struct TokenView {
    pub api_key: Seq<char>,
    pub api_secret: Seq<char>,
    pub identity: Seq<char>,
    pub name: Option<Seq<char>>,
    pub metadata: Option<Seq<char>>,
    pub grant: GrantView,
    pub valid_for: nat,
}

/// The validity of a token whose builder was given none: six hours.
pub const DEFAULT_VALIDITY_SECONDS: u64 = 21600;

/// The validity of a service token: five minutes.
pub const ADMIN_VALIDITY_SECONDS: u64 = 300;

/// The claims of a token issued at the instant `now`: not-before is the
/// issuance instant, expiry lies the validity later, and there is no
/// issued-at claim.
pub open spec fn claims_at(t: TokenView, now: nat) -> ClaimsView {
    ClaimsView {
        exp: now + t.valid_for,
        iat: None,
        nbf: now,
        iss: t.api_key,
        sub: t.identity,
        video: t.grant,
        metadata: t.metadata,
        name: t.name,
    }
}

/// What issuing `t` at the instant `now` gives: `ExpiryOutOfRange` where
/// the expiry does not fit the claim; else the token that signing the
/// claims of that instant gives, or `Signing` where signing fails.
pub open spec fn token_at(t: TokenView, now: nat) -> Result<Seq<char>, TokenError> {
    if now + t.valid_for > u64::MAX {
        Err(TokenError::ExpiryOutOfRange)
    } else {
        match hs256_token(claims_text(claims_at(t, now)), t.api_secret) {
            Some(token) => Ok(token),
            None => Err(TokenError::Signing),
        }
    }
}

/// Whether `token` is what signing gives for `t` issued at `now`.
pub open spec fn issued_at(t: TokenView, now: nat, token: Seq<char>) -> bool {
    token_at(t, now) == Ok::<Seq<char>, TokenError>(token)
}

/// The outcome of an issuance, with the token as a text.
pub open spec fn outcome_view(r: Result<String, TokenError>) -> Result<Seq<char>, TokenError> {
    match r {
        Ok(t) => Ok(t@),
        Err(e) => Err(e),
    }
}

/// Whether `outcome` is what issuing `t` gives by a clock that reads
/// `clock`: `ClockBeforeEpoch` where the clock stands before the epoch,
/// else what issuing at the instant read gives.
pub open spec fn issued_by_clock(
    t: TokenView,
    clock: Option<u64>,
    outcome: Result<Seq<char>, TokenError>,
) -> bool {
    match clock {
        Some(now) => outcome == token_at(t, now as nat),
        None => outcome == Err::<Seq<char>, TokenError>(TokenError::ClockBeforeEpoch),
    }
}

impl View for AccessToken {
    type V = TokenView;

    closed spec fn view(&self) -> TokenView {
        TokenView {
            api_key: self.api_key@,
            api_secret: self.api_secret@,
            identity: self.identity@,
            name: opt_text(self.name),
            metadata: opt_text(self.metadata),
            grant: self.video_grant@,
            valid_for: self.valid_for_seconds as nat,
        }
    }
}

impl AccessToken {
    /// Starts a token for the given key and secret: no identity, name or
    /// metadata, no permission, valid for six hours.
    pub fn new(api_key: &str, api_secret: &str) -> (r: Self)
        ensures
            r@ == (TokenView {
                api_key: api_key@,
                api_secret: api_secret@,
                identity: Seq::<char>::empty(),
                name: None,
                metadata: None,
                grant: unset_grant(),
                valid_for: DEFAULT_VALIDITY_SECONDS as nat,
            }),
    {
        AccessToken {
            api_key: String::from_str(api_key),
            api_secret: String::from_str(api_secret),
            identity: String::new(),
            name: None,
            metadata: None,
            video_grant: VideoGrant::default(),
            valid_for_seconds: DEFAULT_VALIDITY_SECONDS,
        }
    }

    /// Sets the participant's identity.
    pub fn set_identity(self, identity: &str) -> (r: Self)
        ensures
            r@ == (TokenView { identity: identity@, ..self@ }),
    {
        let mut token = self;
        token.identity = String::from_str(identity);
        token
    }

    /// Sets the participant's display name.
    pub fn set_name(self, name: &str) -> (r: Self)
        ensures
            r@ == (TokenView { name: Some(name@), ..self@ }),
    {
        let mut token = self;
        token.name = Some(String::from_str(name));
        token
    }

    /// Sets the participant's metadata.
    pub fn set_metadata(self, metadata: &str) -> (r: Self)
        ensures
            r@ == (TokenView { metadata: Some(metadata@), ..self@ }),
    {
        let mut token = self;
        token.metadata = Some(String::from_str(metadata));
        token
    }

    /// Sets the permissions.
    pub fn set_video_grant(self, grant: VideoGrant) -> (r: Self)
        ensures
            r@ == (TokenView { grant: grant@, ..self@ }),
    {
        let mut token = self;
        token.video_grant = grant;
        token
    }

    /// Sets how long the token is valid, in seconds.
    pub fn set_valid_for(self, seconds: u64) -> (r: Self)
        ensures
            r@ == (TokenView { valid_for: seconds as nat, ..self@ }),
    {
        let mut token = self;
        token.valid_for_seconds = seconds;
        token
    }

    /// The claims of this token when issued at `now`.
    pub fn claims(&self, now: u64) -> (r: AccessTokenClaims)
        requires
            now + self@.valid_for <= u64::MAX,
        ensures
            r@ == claims_at(self@, now as nat),
    {
        AccessTokenClaims {
            exp: now + self.valid_for_seconds,
            iat: None,
            nbf: now,
            iss: self.api_key.clone(),
            sub: self.identity.clone(),
            video: self.video_grant.clone(),
            metadata: clone_opt_text(&self.metadata),
            name: clone_opt_text(&self.name),
        }
    }

    /// Signs the token as issued at `now`. The expiry must fit the claim,
    /// else `ExpiryOutOfRange`; past that, the result is the signature's
    /// outcome: the signed token, or `Signing`.
    pub fn to_jwt_at(&self, now: u64) -> (r: Result<String, TokenError>)
        ensures
            outcome_view(r) == token_at(self@, now as nat),
            now + self@.valid_for > u64::MAX <==> r == Err::<String, TokenError>(
                TokenError::ExpiryOutOfRange,
            ),
            r matches Ok(t) ==> issued_at(self@, now as nat, t@),
            r matches Err(e) ==> e != TokenError::ClockBeforeEpoch,
    {
        if now > u64::MAX - self.valid_for_seconds {
            return Err(TokenError::ExpiryOutOfRange);
        }
        let claims = self.claims(now);
        let payload = claims_json(&claims);
        let outcome = sign_hs256(payload.as_str(), self.api_secret.as_str());
        signed_token(outcome)
    }

    /// Signs the token as issued now, by the machine's clock. The result
    /// is what some reading of the clock gives: `ClockBeforeEpoch` for a
    /// clock before the epoch, else the outcome of issuing at the instant
    /// read. So a token that comes back was issued at some instant with
    /// which the expiry fits, and a token of no validity never fails on its
    /// expiry.
    pub fn to_jwt(&self) -> (r: Result<String, TokenError>)
        ensures
            exists|clock: Option<u64>| #[trigger] issued_by_clock(self@, clock, outcome_view(r)),
            r matches Ok(t) ==> exists|now: nat| #[trigger] issued_at(self@, now, t@),
            r == Err::<String, TokenError>(TokenError::ExpiryOutOfRange) ==> self@.valid_for > 0,
    {
        let clock = unix_seconds_now();
        let r = match clock {
            Some(now) => self.to_jwt_at(now),
            None => Err(TokenError::ClockBeforeEpoch),
        };
        proof {
            assert(issued_by_clock(self@, clock, outcome_view(r)));
            if r is Ok {
                assert(issued_at(self@, clock->Some_0 as nat, r->Ok_0@));
            }
        }
        r
    }
}

/// The permissions of a service token: every room-level permission and
/// the full session permissions, bound to no room.
pub open spec fn admin_grant() -> GrantView {
    GrantView {
        room_create: Some(true),
        room_list: Some(true),
        room_record: Some(true),
        room_admin: Some(true),
        room_join: Some(true),
        can_publish: Some(true),
        can_subscribe: Some(true),
        can_publish_data: Some(true),
        ..unset_grant()
    }
}

/// The service token for a key and a secret: the identity
/// `admin-service`, the administrative grant, valid for five minutes.
pub open spec fn admin_token_view(api_key: Seq<char>, api_secret: Seq<char>) -> TokenView {
    TokenView {
        api_key,
        api_secret,
        identity: "admin-service"@,
        name: None,
        metadata: None,
        grant: admin_grant(),
        valid_for: ADMIN_VALIDITY_SECONDS as nat,
    }
}

/// Builds the service token, not yet signed.
pub fn admin_token(api_key: &str, api_secret: &str) -> (r: AccessToken)
    ensures
        r@ == admin_token_view(api_key@, api_secret@),
{
    let mut grant = VideoGrant::default();
    grant.room_create = Some(true);
    grant.room_list = Some(true);
    grant.room_record = Some(true);
    grant.room_admin = Some(true);
    grant.room_join = Some(true);
    grant.can_publish = Some(true);
    grant.can_subscribe = Some(true);
    grant.can_publish_data = Some(true);
    AccessToken::new(api_key, api_secret).set_identity("admin-service").set_video_grant(
        grant,
    ).set_valid_for(ADMIN_VALIDITY_SECONDS)
}

/// Issues a signed service token for calls to the room service. The
/// result is what issuing the service token gives by some reading of the
/// clock: `ClockBeforeEpoch` for a clock before the epoch, else the signed
/// service token of the instant read, `Signing` where signing it fails, or
/// `ExpiryOutOfRange` where five minutes past that instant do not fit.
pub fn create_admin_token(api_key: &str, api_secret: &str) -> (r: Result<String, TokenError>)
    ensures
        exists|clock: Option<u64>| #[trigger]
            issued_by_clock(admin_token_view(api_key@, api_secret@), clock, outcome_view(r)),
        r matches Ok(t) ==> exists|now: nat| #[trigger]
            issued_at(admin_token_view(api_key@, api_secret@), now, t@),
{
    admin_token(api_key, api_secret).to_jwt()
}

/// The signed payload carries the subject, the issuer, the not-before and
/// the expiry that the token was built with, each once. Reading each back
/// gives what was written: the subject and the issuer as texts, the two
/// instants as numbers, and the expiry read back lies exactly the validity
/// after the not-before read back.
pub proof fn lemma_claims_read_back(t: TokenView, now: nat)
    ensures
        carries(claims_members(claims_at(t, now)), "sub"@, quoted(t.identity)),
        carries(claims_members(claims_at(t, now)), "iss"@, quoted(t.api_key)),
        carries(claims_members(claims_at(t, now)), "nbf"@, decimal(now)),
        carries(claims_members(claims_at(t, now)), "exp"@, decimal(now + t.valid_for)),
        unquoted(quoted(t.identity)) == t.identity,
        unquoted(quoted(t.api_key)) == t.api_key,
        number_of(decimal(now)) == now,
        number_of(decimal(now + t.valid_for)) - number_of(decimal(now)) == t.valid_for,
        claims_at(t, now).exp - claims_at(t, now).nbf == t.valid_for,
{
    reveal_claim_keys();
    lemma_quoted_reads_back(t.identity);
    lemma_quoted_reads_back(t.api_key);
    lemma_decimal_reads_back(now);
    lemma_decimal_reads_back(now + t.valid_for);
    let ms = claims_members(claims_at(t, now));
    let fixed = seq![
        Member { key: "exp"@, value: decimal(now + t.valid_for) },
        Member { key: "nbf"@, value: decimal(now) },
        Member { key: "iss"@, value: quoted(t.api_key) },
        Member { key: "sub"@, value: quoted(t.identity) },
        Member { key: "video"@, value: grant_text(t.grant) },
    ];
    assert(ms =~= fixed + text_member("metadata"@, t.metadata) + text_member("name"@, t.name));
    assert(ms[0] == fixed[0]);
    assert(ms[1] == fixed[1]);
    assert(ms[2] == fixed[2]);
    assert(ms[3] == fixed[3]);
}

/// A token's not-before is its issuance instant, and its payload has no
/// issued-at member.
pub proof fn lemma_not_before_is_issuance(t: TokenView, now: nat)
    ensures
        claims_at(t, now).nbf == now,
        claims_at(t, now).iat is None,
        lacks(claims_members(claims_at(t, now)), "iat"@),
{
    reveal_claim_keys();
    let ms = claims_members(claims_at(t, now));
    let fixed = seq![
        Member { key: "exp"@, value: decimal(now + t.valid_for) },
        Member { key: "nbf"@, value: decimal(now) },
        Member { key: "iss"@, value: quoted(t.api_key) },
        Member { key: "sub"@, value: quoted(t.identity) },
        Member { key: "video"@, value: grant_text(t.grant) },
    ];
    assert(ms =~= fixed + text_member("metadata"@, t.metadata) + text_member("name"@, t.name));
}

proof fn reveal_claim_keys()
    ensures
        "exp"@ =~= seq!['e', 'x', 'p'],
        "iat"@ =~= seq!['i', 'a', 't'],
        "nbf"@ =~= seq!['n', 'b', 'f'],
        "iss"@ =~= seq!['i', 's', 's'],
        "sub"@ =~= seq!['s', 'u', 'b'],
        "video"@.len() == 5,
        "metadata"@.len() == 8,
        "name"@.len() == 4,
{
    reveal_strlit("exp");
    reveal_strlit("iat");
    reveal_strlit("nbf");
    reveal_strlit("iss");
    reveal_strlit("sub");
    reveal_strlit("video");
    reveal_strlit("metadata");
    reveal_strlit("name");
}

} // verus!
