use vstd::prelude::*;

use crate::decimal::{format_i32, int_text, lemma_i32_text_round_trip, parse_i32, parse_i32_spec};
use crate::error::{AppError, InternalError};
use crate::text::{push_char, same_text};
use crate::user::{Role, User};

verus! {

/// The claims that an access token carries.
pub struct Claims {
    /// The id of the user, in decimal.
    pub sub: String,
    pub logged_in_from_rv_terminal: bool,
    /// The expiry time, in seconds since the epoch.
    pub exp: usize,
    /// The issue time, in seconds since the epoch.
    pub iat: usize,
}

/// The claims of a token as plain values: subject, terminal flag, expiry,
/// issue time.
pub open spec fn claims_view(c: Claims) -> (Seq<char>, bool, usize, usize) {
    (c.sub@, c.logged_in_from_rv_terminal, c.exp, c.iat)
}

/// The user on whose behalf a request is made, as its token says.
#[derive(Clone, Copy, Debug, PartialEq, Eq, Structural)]
pub struct AuthUser {
    pub user_id: i32,
    pub logged_in_from_rv_terminal: bool,
}

#[verifier::external_type_specification]
#[verifier::external_body]
pub struct ExJwtError(jsonwebtoken::errors::Error);

/// The characters that a signed token is written in: the URL-safe base64
/// alphabet and the dots between its three parts.
pub open spec fn is_token_char(c: char) -> bool {
    ('A' <= c && c <= 'Z') || ('a' <= c && c <= 'z') || ('0' <= c && c <= '9') || c == '-' || c == '_' || c == '.'
}

/// The HS256-signed token (default header) of the claims, in the order
/// subject, terminal flag, expiry, issue time, under a secret.
pub uninterp spec fn jwt_hs256_token(
    sub: Seq<char>,
    from_terminal: bool,
    exp: usize,
    iat: usize,
    secret: Seq<char>,
) -> Seq<char>;

/// The claims that an HS256 token carries when its signature checks under
/// the secret and its claims are well-formed; `None` otherwise. The expiry
/// time is not compared with the clock here.
pub uninterp spec fn jwt_hs256_claims(token: Seq<char>, secret: Seq<char>) -> Option<(Seq<char>, bool, usize, usize)>;

/// Signs claims into a token.
///
/// Trusted: calls `jsonwebtoken::encode` with the default header (HS256)
/// and an HMAC key made of the secret, on a JSON object that holds the
/// four claims in declaration order (as the serialisation of the claims
/// struct would). With an HMAC key it does not fail. The token is named
/// (`jwt_hs256_token`); it is written in the URL-safe base64 alphabet with
/// dots, and decoding it under the same secret gives the claims back.
#[verifier::external_body]
fn jwt_encode(claims: &Claims, secret: &str) -> (r: Result<String, jsonwebtoken::errors::Error>)
    ensures
        r is Ok,
        r matches Ok(t) ==> t@ == jwt_hs256_token(claims.sub@, claims.logged_in_from_rv_terminal, claims.exp, claims.iat, secret@),
        r matches Ok(t) ==> jwt_hs256_claims(t@, secret@) == Some(claims_view(*claims)),
        r matches Ok(t) ==> forall|i: int| 0 <= i < t@.len() ==> is_token_char(#[trigger] t@[i]),
{
    let mut m = serde_json::Map::new();
    m.insert("sub".to_string(), serde_json::Value::from(claims.sub.clone()));
    m.insert("logged_in_from_rv_terminal".to_string(), serde_json::Value::from(claims.logged_in_from_rv_terminal));
    m.insert("exp".to_string(), serde_json::Value::from(claims.exp));
    m.insert("iat".to_string(), serde_json::Value::from(claims.iat));
    let key = jsonwebtoken::EncodingKey::from_secret(secret.as_bytes());
    jsonwebtoken::encode(&jsonwebtoken::Header::default(), &m, &key)
}

/// Checks the signature of a token and reads its claims.
///
/// Trusted: calls `jsonwebtoken::decode` with the default validation
/// (HS256 only, `exp` required) except that the expiry is not compared
/// with the clock, then takes the four claims out of the JSON object; any
/// failure gives `None`. The outcome is named (`jwt_hs256_claims`).
#[verifier::external_body]
fn jwt_decode(token: &str, secret: &str) -> (r: Option<Claims>)
    ensures
        match r {
            Some(c) => jwt_hs256_claims(token@, secret@) == Some(claims_view(c)),
            None => jwt_hs256_claims(token@, secret@) is None,
        },
{
    let mut v = jsonwebtoken::Validation::default();
    v.validate_exp = false;
    let key = jsonwebtoken::DecodingKey::from_secret(secret.as_bytes());
    let c = jsonwebtoken::decode::<serde_json::Map<String, serde_json::Value>>(token, &key, &v).ok()?.claims;
    Some(Claims {
        sub: c.get("sub")?.as_str()?.to_string(),
        logged_in_from_rv_terminal: c.get("logged_in_from_rv_terminal")?.as_bool()?,
        exp: usize::try_from(c.get("exp")?.as_u64()?).ok()?,
        iat: usize::try_from(c.get("iat")?.as_u64()?).ok()?,
    })
}

#[verifier::external_type_specification]
#[verifier::external_body]
pub struct ExSystemTime(std::time::SystemTime);

#[verifier::external_type_specification]
#[verifier::external_body]
pub struct ExSystemTimeError(std::time::SystemTimeError);

/// Reads the system clock.
///
/// Trusted: calls `std::time::SystemTime::now`. Nothing is stated of the
/// value: it depends on the clock.
#[verifier::external_body]
fn system_time_now() -> (r: std::time::SystemTime) {
    std::time::SystemTime::now()
}

/// The time elapsed since the Unix epoch.
///
/// Trusted: calls `SystemTime::duration_since` with `UNIX_EPOCH`, which
/// fails where the time lies before the epoch. Nothing is stated of the
/// outcome: the time is opaque here.
#[verifier::external_body]
fn since_unix_epoch(t: &std::time::SystemTime) -> (r: Result<core::time::Duration, std::time::SystemTimeError>) {
    t.duration_since(std::time::UNIX_EPOCH)
}

/// The whole seconds of a duration.
///
/// Trusted: calls `Duration::as_secs`. Nothing is stated of the value:
/// the duration is opaque here.
#[verifier::external_body]
fn whole_seconds(d: &core::time::Duration) -> (r: u64) {
    d.as_secs()
}

/// The current time in whole seconds since the Unix epoch; `None` where
/// the clock reads before the epoch or beyond what an `i64` counts.
fn unix_now() -> (r: Option<i64>)
    ensures
        r matches Some(t) ==> t >= 0,
{
    let now = system_time_now();
    match since_unix_epoch(&now) {
        Ok(d) => {
            let secs = whole_seconds(&d);
            if secs <= 0x7fff_ffff_ffff_ffff {
                Some(secs as i64)
            } else {
                None
            }
        },
        Err(_) => None,
    }
}

/// The seconds of clock skew that expiry checks tolerate.
pub const EXPIRY_LEEWAY: i64 = 60;

/// The second that lies `seconds` after the second `at`, as the date
/// library computes it: `None` where the span or either time lies outside
/// what it can represent.
pub uninterp spec fn chrono_seconds_after(at: i64, seconds: i64) -> Option<i64>;

/// Adds a span of seconds to a time.
///
/// Trusted: calls `chrono::TimeDelta::try_seconds`, then
/// `DateTime::<Utc>::from_timestamp` and `checked_add_signed`, and reads
/// the result back with `timestamp`. Each step fails only where a value
/// leaves the library's range; the outcome is named
/// (`chrono_seconds_after`), and where it exists it is the plain sum.
#[verifier::external_body]
fn seconds_after(at: i64, seconds: i64) -> (r: Option<i64>)
    ensures
        r == chrono_seconds_after(at, seconds),
        r matches Some(e) ==> e == at + seconds,
{
    let span = chrono::TimeDelta::try_seconds(seconds)?;
    let start = chrono::DateTime::<chrono::Utc>::from_timestamp(at, 0)?;
    Some(start.checked_add_signed(span)?.timestamp())
}

/// Whether a token issued at `now` that lives `expiry` seconds has an
/// expiry time that the date library can represent.
pub open spec fn token_time_ok(now: i64, expiry: i64) -> bool {
    chrono_seconds_after(now, expiry) is Some
}

/// The claims of a token for a user, issued at `now` for `expiry` seconds.
pub open spec fn token_claims_spec(user_id: i32, from_terminal: bool, now: i64, expiry: i64) -> (Seq<char>, bool, usize, usize) {
    (int_text(user_id as int), from_terminal, (now + expiry) as usize, now as usize)
}

/// The token issued for a user at `now` for `expiry` seconds.
pub open spec fn issued_token(user_id: i32, from_terminal: bool, secret: Seq<char>, expiry: i64, now: i64) -> Seq<char> {
    let c = token_claims_spec(user_id, from_terminal, now, expiry);
    jwt_hs256_token(c.0, c.1, c.2, c.3, secret)
}

/// Issues the token of a user at time `now`, valid for `expiry` seconds;
/// fails where the expiry time cannot be represented.
pub fn generate_token_at(user_id: i32, logged_in_from_rv_terminal: bool, secret: &str, expiry: i64, now: i64) -> (r: Result<String, AppError>)
    ensures
        r is Ok <==> token_time_ok(now, expiry),
        r matches Ok(t) ==> t@ == issued_token(user_id, logged_in_from_rv_terminal, secret@, expiry, now),
        r matches Ok(t) ==> (0 <= now && now + expiry <= usize::MAX ==> forall|later: i64|
            later - EXPIRY_LEEWAY <= now + expiry ==> #[trigger] authenticated(Some(bearer_header(t@)), secret@, later)
                == Ok::<AuthUser, AppError>(AuthUser { user_id, logged_in_from_rv_terminal })),
        r matches Ok(t) ==> (0 <= now + expiry <= usize::MAX ==> forall|later: i64|
            later - EXPIRY_LEEWAY <= now + expiry ==> #[trigger] validated_claims(t@, secret@, later)
                == Some(token_claims_spec(user_id, logged_in_from_rv_terminal, now, expiry))),
        r matches Err(e) ==> e == AppError::Internal(InternalError::TokenTimeOutOfRange),
{
    let exp_time = match seconds_after(now, expiry) {
        Some(e) => e,
        None => return Err(AppError::Internal(InternalError::TokenTimeOutOfRange)),
    };
    let exp = exp_time as usize;
    let iat = now as usize;
    let claims = Claims { sub: format_i32(user_id), logged_in_from_rv_terminal, exp, iat };
    match jwt_encode(&claims, secret) {
        Ok(t) => {
            proof {
                assert(claims_view(claims) == token_claims_spec(user_id, logged_in_from_rv_terminal, now, expiry));
                if 0 <= now + expiry <= usize::MAX {
                    assert forall|later: i64| later - EXPIRY_LEEWAY <= now + expiry implies #[trigger] validated_claims(
                        t@, secret@, later) == Some(token_claims_spec(user_id, logged_in_from_rv_terminal, now, expiry)) by {
                        assert(((now + expiry) as usize) as int == now + expiry);
                    }
                }
                if 0 <= now && now + expiry <= usize::MAX {
                    assert forall|later: i64| later - EXPIRY_LEEWAY <= now + expiry implies #[trigger] authenticated(
                        Some(bearer_header(t@)), secret@, later) == Ok::<AuthUser, AppError>(
                        AuthUser { user_id, logged_in_from_rv_terminal }) by {
                        lemma_issued_token_authenticates(user_id, logged_in_from_rv_terminal, secret@, expiry, now, later);
                    }
                }
            }
            Ok(t)
        },
        Err(_) => Err(AppError::Internal(InternalError::Jwt)),
    }
}

/// Whether `t` is the token of a user issued at second `now` (not before
/// the epoch) for `expiry` seconds: the token of its claims, which
/// authenticates the user and gives back the claims (subject, terminal
/// flag, expiry and issue time) whenever it is checked up to its expiry
/// plus the leeway.
pub open spec fn token_issued_at(t: Seq<char>, user_id: i32, from_terminal: bool, secret: Seq<char>, expiry: i64, now: i64) -> bool {
    &&& 0 <= now
    &&& token_time_ok(now, expiry)
    &&& issued_token(user_id, from_terminal, secret, expiry, now) == t
    &&& (now + expiry <= usize::MAX ==> forall|later: i64|
        later - EXPIRY_LEEWAY <= now + expiry ==> #[trigger] authenticated(Some(bearer_header(t)), secret, later)
            == Ok::<AuthUser, AppError>(AuthUser { user_id, logged_in_from_rv_terminal: from_terminal }))
    &&& (0 <= now + expiry <= usize::MAX ==> forall|later: i64|
        later - EXPIRY_LEEWAY <= now + expiry ==> #[trigger] validated_claims(t, secret, later)
            == Some(token_claims_spec(user_id, from_terminal, now, expiry)))
}

/// Issues the token of a user at the current time, valid for `expiry`
/// seconds; fails where the clock cannot be read as seconds since the
/// epoch, or where the expiry time cannot be represented.
pub fn generate_token(user_id: i32, logged_in_from_rv_terminal: bool, secret: &str, expiry: i64) -> (r: Result<String, AppError>)
    ensures
        r matches Ok(t) ==> exists|now: i64|
            #[trigger] token_issued_at(t@, user_id, logged_in_from_rv_terminal, secret@, expiry, now),
        r matches Err(e) ==> e == AppError::Internal(InternalError::TokenTimeOutOfRange)
            || e == AppError::Internal(InternalError::ClockOutOfRange),
{
    let now = match unix_now() {
        Some(t) => t,
        None => return Err(AppError::Internal(InternalError::ClockOutOfRange)),
    };
    let r = generate_token_at(user_id, logged_in_from_rv_terminal, secret, expiry, now);
    proof {
        if r is Ok {
            assert(token_issued_at(r->Ok_0@, user_id, logged_in_from_rv_terminal, secret@, expiry, now));
        }
    }
    r
}

/// What checking a token at time `now` gives: the claims where the
/// signature checks under the secret, the claims are well-formed and the
/// expiry time plus the leeway has not passed.
pub open spec fn validated_claims(token: Seq<char>, secret: Seq<char>, now: i64) -> Option<(Seq<char>, bool, usize, usize)> {
    match jwt_hs256_claims(token, secret) {
        Some(c) => if (c.2 as int) < now - EXPIRY_LEEWAY { None } else { Some(c) },
        None => None,
    }
}

/// Checks a token at time `now`: every failure is answered with
/// `InvalidToken`.
pub fn validate_token_at(token: &str, secret: &str, now: i64) -> (r: Result<Claims, AppError>)
    ensures
        match r {
            Ok(c) => validated_claims(token@, secret@, now) == Some(claims_view(c)),
            Err(e) => validated_claims(token@, secret@, now) is None && e == AppError::InvalidToken,
        },
{
    match jwt_decode(token, secret) {
        None => Err(AppError::InvalidToken),
        Some(c) => {
            if (c.exp as i128) < (now as i128) - (EXPIRY_LEEWAY as i128) {
                Err(AppError::InvalidToken)
            } else {
                Ok(c)
            }
        },
    }
}

/// Checks a token at the current time: every failure of the token is
/// answered with `InvalidToken`; a clock that cannot be read as seconds
/// since the epoch is an internal error.
pub fn validate_token(token: &str, secret: &str) -> (r: Result<Claims, AppError>)
    ensures
        r matches Ok(c) ==> exists|now: i64| 0 <= now && #[trigger] validated_claims(token@, secret@, now) == Some(claims_view(c)),
        r matches Err(e) ==> e == AppError::InvalidToken || e == AppError::Internal(InternalError::ClockOutOfRange),
{
    let now = match unix_now() {
        Some(t) => t,
        None => return Err(AppError::Internal(InternalError::ClockOutOfRange)),
    };
    validate_token_at(token, secret, now)
}

/// A byte that an HTTP header value may hold where it is read as text:
/// visible ASCII or a tab.
pub open spec fn is_visible_ascii(b: u8) -> bool {
    (32 <= b && b < 127) || b == 9
}

/// The bytes of `Bearer ` that introduce a token in the Authorization header.
pub open spec fn bearer_prefix() -> Seq<u8> {
    seq![66u8, 101u8, 97u8, 114u8, 101u8, 114u8, 32u8]
}

/// The token that an Authorization header value carries: the header must
/// be present, all visible ASCII, and start with `Bearer `.
pub open spec fn bearer_token(header: Option<Seq<u8>>) -> Option<Seq<char>> {
    match header {
        None => None,
        Some(h) => if (forall|i: int| 0 <= i < h.len() ==> is_visible_ascii(#[trigger] h[i])) && h.len() >= 7
            && h.subrange(0, 7) == bearer_prefix() {
            Some(Seq::new((h.len() - 7) as nat, |i: int| h[i + 7] as char))
        } else {
            None
        },
    }
}

/// Takes the token out of an Authorization header value; any malformed
/// header is a bad request.
pub fn extract_bearer_token(header: Option<&[u8]>) -> (r: Result<String, AppError>)
    ensures
        match r {
            Ok(t) => header matches Some(h) && bearer_token(Some(h@)) == Some(t@),
            Err(e) => (match header {
                Some(h) => bearer_token(Some(h@)),
                None => bearer_token(None),
            }) is None && e == AppError::BadRequest,
        },
{
    let h = match header {
        Some(h) => h,
        None => return Err(AppError::BadRequest),
    };
    let n = h.len();
    let mut i: usize = 0;
    while i < n
        invariant
            header_view(header) == Some(h@),
            n == h@.len(),
            i <= n,
            forall|j: int| 0 <= j < i ==> is_visible_ascii(#[trigger] h@[j]),
        decreases n - i,
    {
        let b = h[i];
        if !((32 <= b && b < 127) || b == 9) {
            assert(!is_visible_ascii(h@[i as int]));
            return Err(AppError::BadRequest);
        }
        i = i + 1;
    }
    if n < 7 || h[0] != 66 || h[1] != 101 || h[2] != 97 || h[3] != 114 || h[4] != 101 || h[5] != 114 || h[6] != 32 {
        proof {
            if n >= 7 {
                assert(h@.subrange(0, 7)[0] == h@[0]);
                assert(h@.subrange(0, 7)[1] == h@[1]);
                assert(h@.subrange(0, 7)[2] == h@[2]);
                assert(h@.subrange(0, 7)[3] == h@[3]);
                assert(h@.subrange(0, 7)[4] == h@[4]);
                assert(h@.subrange(0, 7)[5] == h@[5]);
                assert(h@.subrange(0, 7)[6] == h@[6]);
            }
        }
        return Err(AppError::BadRequest);
    }
    assert(h@.subrange(0, 7) =~= bearer_prefix());
    let mut t = String::new();
    let mut k: usize = 7;
    while k < n
        invariant
            n == h@.len(),
            7 <= k <= n,
            t@ == Seq::new((k - 7) as nat, |i: int| h@[i + 7] as char),
        decreases n - k,
    {
        push_char(&mut t, h[k] as char);
        assert(t@ =~= Seq::new((k + 1 - 7) as nat, |i: int| h@[i + 7] as char));
        k = k + 1;
    }
    Ok(t)
}

/// What authenticating a request gives: the token of its Authorization
/// header checked at time `now`, and the user id read from the subject.
pub open spec fn authenticated(header: Option<Seq<u8>>, secret: Seq<char>, now: i64) -> Result<AuthUser, AppError> {
    match bearer_token(header) {
        None => Err(AppError::BadRequest),
        Some(t) => match validated_claims(t, secret, now) {
            None => Err(AppError::InvalidToken),
            Some(c) => match parse_i32_spec(c.0) {
                None => Err(AppError::Internal(InternalError::ParseInt)),
                Some(id) => Ok(AuthUser { user_id: id, logged_in_from_rv_terminal: c.1 }),
            },
        },
    }
}

pub open spec fn header_view(header: Option<&[u8]>) -> Option<Seq<u8>> {
    match header {
        Some(h) => Some(h@),
        None => None,
    }
}

/// Authenticates a request by its Authorization header at time `now`.
pub fn authenticate_at(header: Option<&[u8]>, secret: &str, now: i64) -> (r: Result<AuthUser, AppError>)
    ensures
        r == authenticated(header_view(header), secret@, now),
{
    let token = match extract_bearer_token(header) {
        Ok(t) => t,
        Err(e) => return Err(e),
    };
    let claims = match validate_token_at(token.as_str(), secret, now) {
        Ok(c) => c,
        Err(e) => return Err(e),
    };
    match parse_i32(claims.sub.as_str()) {
        Some(id) => Ok(AuthUser { user_id: id, logged_in_from_rv_terminal: claims.logged_in_from_rv_terminal }),
        None => Err(AppError::Internal(InternalError::ParseInt)),
    }
}

/// Authenticates a request by its Authorization header at the current time.
pub fn authenticate(header: Option<&[u8]>, secret: &str) -> (r: Result<AuthUser, AppError>)
    ensures
        r == Err::<AuthUser, AppError>(AppError::Internal(InternalError::ClockOutOfRange))
            || exists|now: i64| 0 <= now && #[trigger] authenticated(header_view(header), secret@, now) == r,
{
    let now = match unix_now() {
        Some(t) => t,
        None => return Err(AppError::Internal(InternalError::ClockOutOfRange)),
    };
    authenticate_at(header, secret, now)
}

/// The Authorization header value that presents a token.
pub open spec fn bearer_header(token: Seq<char>) -> Seq<u8> {
    bearer_prefix() + Seq::new(token.len(), |i: int| token[i] as u8)
}

/// A token issued for a user, whose characters and claims are those that
/// signing gives, authenticates that user with the same terminal flag at
/// any time up to its expiry plus the leeway.
proof fn lemma_issued_token_authenticates(
    user_id: i32,
    from_terminal: bool,
    secret: Seq<char>,
    expiry: i64,
    issued_at: i64,
    now: i64,
)
    requires
        token_time_ok(issued_at, expiry),
        0 <= issued_at,
        issued_at + expiry <= usize::MAX,
        now - EXPIRY_LEEWAY <= issued_at + expiry,
        forall|i: int| 0 <= i < issued_token(user_id, from_terminal, secret, expiry, issued_at).len()
            ==> is_token_char(#[trigger] issued_token(user_id, from_terminal, secret, expiry, issued_at)[i]),
        jwt_hs256_claims(issued_token(user_id, from_terminal, secret, expiry, issued_at), secret)
            == Some(token_claims_spec(user_id, from_terminal, issued_at, expiry)),
    ensures
        authenticated(Some(bearer_header(issued_token(user_id, from_terminal, secret, expiry, issued_at))), secret, now)
            == Ok::<AuthUser, AppError>(AuthUser { user_id, logged_in_from_rv_terminal: from_terminal }),
{
    let t = issued_token(user_id, from_terminal, secret, expiry, issued_at);
    let h = bearer_header(t);
    assert forall|i: int| 0 <= i < h.len() implies is_visible_ascii(#[trigger] h[i]) by {
        if i >= 7 {
            assert(is_token_char(t[i - 7]));
        }
    }
    assert(h.subrange(0, 7) =~= bearer_prefix());
    assert(Seq::new((h.len() - 7) as nat, |i: int| h[i + 7] as char) =~= t) by {
        assert forall|i: int| 0 <= i < t.len() implies (h[i + 7] as char) == t[i] by {
            assert(is_token_char(t[i]));
        }
    }
    assert(bearer_token(Some(h)) == Some(t));
    lemma_i32_text_round_trip(user_id);
    let c = token_claims_spec(user_id, from_terminal, issued_at, expiry);
    assert(validated_claims(t, secret, now) == Some(c));
}

/// Admits a user to a route that needs a role: only a user of exactly
/// that role passes.
pub fn require_role(user: &User, role: Role) -> (r: Result<(), AppError>)
    ensures
        r is Ok <==> user.role == role,
        r matches Err(e) ==> e == AppError::NotAuthorized,
{
    if user.role != role {
        return Err(AppError::NotAuthorized);
    }
    Ok(())
}

/// Admits a user to the account routes when its role is `Inactive`;
/// any other role is answered with `NotAuthorized`.
pub fn require_active_account(user: &User) -> (r: Result<(), AppError>)
    ensures
        r is Ok <==> user.role == Role::Inactive,
        r matches Err(e) ==> e == AppError::NotAuthorized,
{
    if user.role != Role::Inactive {
        return Err(AppError::NotAuthorized);
    }
    Ok(())
}

/// Admits a request to the terminal routes: its body must carry the
/// terminal secret of the configuration.
pub fn require_rv_terminal(secret: Option<&str>, expected: &str) -> (r: Result<(), AppError>)
    ensures
        r is Ok <==> (secret matches Some(s) && s@ == expected@),
        r matches Err(e) ==> e == AppError::Forbidden,
{
    match secret {
        Some(s) => {
            if same_text(s, expected) {
                Ok(())
            } else {
                Err(AppError::Forbidden)
            }
        },
        None => Err(AppError::Forbidden),
    }
}

} // verus!
