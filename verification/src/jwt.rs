//! Claims of a token, and how the parts of a token are put together.

use crate::auth::Role;
use vstd::prelude::*;
use vstd::string::*;

verus! {

/// Who issues tokens, unless told otherwise.
pub const DEFAULT_ISSUER: &'static str = "up.sector42.io/auth";

/// For whom tokens are meant, unless told otherwise.
pub const DEFAULT_AUDIENCE: &'static str = "up.sector42.io/server";

/// Seconds of an hour.
pub const SECONDS_PER_HOUR: i64 = 3600;

/// Header of a token.
#[derive(Debug)]
pub struct Header {
    pub key_id: String,
    pub algorithm: String,
}

impl Header {
    /// The header of a token signed with the key `key_id`.
    pub fn new(key_id: &str) -> (r: Self)
        ensures
            r.key_id@ == key_id@,
            r.algorithm@ == "RS256"@,
    {
        Header { key_id: key_id.to_string(), algorithm: "RS256".to_string() }
    }
}

/// Claims of a token. Times are seconds since the Unix epoch.
#[derive(Debug)]
pub struct Claims {
    pub issuer: Option<String>,
    pub audience: Option<String>,
    pub issued_at: i64,
    pub expires_at: i64,
    pub subject: Option<String>,
    pub roles: Vec<Role>,
}

/// The end of the life of a token made at `now` to live `expiry_hours`
/// hours. Negative hours give a token that has already expired.
pub open spec fn expiry(now: i64, expiry_hours: i64) -> int {
    now + expiry_hours * SECONDS_PER_HOUR
}

impl Claims {
    /// The claims of a token for `subject`, made at `now` to live
    /// `expiry_hours` hours. A token with negative hours is issued at its
    /// expiry, so that it was never valid.
    pub fn new(issuer: &str, audience: &str, subject: &str, roles: Vec<Role>, expiry_hours: i64, now: i64) -> (r:
        Self)
        requires
            i64::MIN <= expiry(now, expiry_hours) <= i64::MAX,
        ensures
            r.issuer matches Some(i) && i@ == issuer@,
            r.audience matches Some(a) && a@ == audience@,
            r.subject matches Some(s) && s@ == subject@,
            r.roles == roles,
            r.expires_at == expiry(now, expiry_hours),
            r.issued_at == if expiry_hours < 0 {
                r.expires_at
            } else {
                now
            },
            r.issued_at <= now,
    {
        let expires_at = (now as i128 + expiry_hours as i128 * 3600) as i64;
        Claims {
            issuer: Some(issuer.to_string()),
            audience: Some(audience.to_string()),
            issued_at: if expiry_hours < 0 {
                expires_at
            } else {
                now
            },
            expires_at,
            subject: Some(subject.to_string()),
            roles,
        }
    }

    /// The claims of a token for `subject`, for any lifetime: `None` where
    /// the end of the token's life is out of the range of times.
    pub fn checked_new(issuer: &str, audience: &str, subject: &str, roles: Vec<Role>, expiry_hours: i64, now: i64) -> (r:
        Option<Self>)
        ensures
            r is Some <==> i64::MIN <= expiry(now, expiry_hours) <= i64::MAX,
            r matches Some(c) ==> c.expires_at == expiry(now, expiry_hours) && c.roles == roles,
    {
        let end = now as i128 + expiry_hours as i128 * 3600;
        if end < i64::MIN as i128 || end > i64::MAX as i128 {
            None
        } else {
            Some(Claims::new(issuer, audience, subject, roles, expiry_hours, now))
        }
    }

    /// Whether the token is past its life at `now`.
    pub fn is_expired(&self, now: i64) -> (r: bool)
        ensures
            r == (now > self.expires_at),
    {
        now > self.expires_at
    }
}

/// What is signed of a token: its encoded header and its encoded claims,
/// with a dot between them.
pub open spec fn signing_text(header: Seq<char>, claims: Seq<char>) -> Seq<char> {
    header + seq!['.'] + claims
}

/// Puts together what is signed of a token.
pub fn signing_input(header: &str, claims: &str) -> (r: String)
    ensures
        r@ == signing_text(header@, claims@),
{
    proof {
        reveal_strlit(".");
    }
    let mut r = String::from_str(header);
    r.append(".");
    r.append(claims);
    r
}

/// Puts a token together: what was signed and the encoded signature, with
/// a dot between them.
pub fn token(signed: &str, signature: &str) -> (r: String)
    ensures
        r@ == signing_text(signed@, signature@),
{
    signing_input(signed, signature)
}

/// What a verifier asks of a token.
#[derive(Debug)]
pub enum Validation {
    SubjectPresent,
    NotExpired,
    Issuer(String),
    Audience(String),
}

/// What a verifier is set up to ask for.
#[derive(Debug)]
pub struct Verifier {
    pub issuer: Option<String>,
    pub audience: Option<String>,
}

impl Verifier {
    /// What the verifier asks of every token: a subject, a life that has
    /// not ended, and the issuer and the audience that it was set up with,
    /// where it was.
    pub fn validations(&self) -> (r: Vec<Validation>)
        ensures
            r@.len() == 2 + (if self.issuer is Some { 1int } else { 0int }) + (if self.audience is Some {
                1int
            } else {
                0int
            }),
            r@[0] is SubjectPresent,
            r@[1] is NotExpired,
            self.issuer matches Some(i) ==> r@[2] matches Validation::Issuer(t) && t@ == i@,
            self.audience matches Some(a) ==> r@[r@.len() - 1] matches Validation::Audience(t) && t@ == a@,
    {
        let mut r: Vec<Validation> = Vec::new();
        r.push(Validation::SubjectPresent);
        r.push(Validation::NotExpired);
        match &self.issuer {
            Some(issuer) => {
                r.push(Validation::Issuer(issuer.clone()));
            },
            None => {},
        }
        match &self.audience {
            Some(audience) => {
                r.push(Validation::Audience(audience.clone()));
            },
            None => {},
        }
        r
    }
}

} // verus!
