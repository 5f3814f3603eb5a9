//! Issues signed, time-limited tokens bound to an identity and checks a
//! presented token against a claimed identity.

use crate::auth::error::{AuthResult, Error};
use crate::auth::jwt::{current_timestamp, decode_hs512, encode_hs512, Claims};
use crate::auth::middleware::AccessToken;
use vstd::prelude::*;
use vstd::string::*;

verus! {

/// How long a token stays valid after it was issued, in seconds: one day.
pub const TOKEN_LIFETIME_SECONDS: i64 = 86_400;

/// The prefix that a presented token must carry.
pub open spec fn bearer_prefix() -> Seq<char> {
    seq!['B', 'e', 'a', 'r', 'e', 'r', ' ']
}

/// Whether a header value starts with the bearer prefix.
pub open spec fn has_bearer_prefix(header: Seq<char>) -> bool {
    header.len() >= 7 && header.subrange(0, 7) == bearer_prefix()
}

/// The token that a header value with the bearer prefix carries: what
/// follows the prefix.
pub open spec fn bearer_token(header: Seq<char>) -> Seq<char> {
    header.subrange(7, header.len() as int)
}

/// The identity that well-formed claims speak for: the subject, where it is
/// an identity id and an expiry stands beside it.
pub open spec fn claimed_subject(claims: Claims) -> Option<int> {
    match (claims.sub, claims.exp) {
        (Some(sub), Some(_)) => if i32::MIN <= sub <= i32::MAX {
            Some(sub as int)
        } else {
            None
        },
        _ => None,
    }
}

/// The outcome of holding decoded claims against a claimed identity.
pub open spec fn verdict(claims: Claims, uid: i32) -> AuthResult<()> {
    match claimed_subject(claims) {
        None => Err(Error::JWTTokenError),
        Some(sub) => if sub == uid {
            Ok(())
        } else {
            Err(Error::NoPermissionError)
        },
    }
}

/// Decides on decoded claims: claims without a subject that is an identity id,
/// or without an expiry, make the token invalid; a subject other than the
/// claimed identity is a lack of permission.
pub fn check_claims(claims: &Claims, uid: i32) -> (r: AuthResult<()>)
    ensures
        r == verdict(*claims, uid),
{
    match (claims.sub, claims.exp) {
        (Some(sub), Some(_)) => {
            if sub < -2147483648i64 || sub > 2147483647i64 {
                Err(Error::JWTTokenError)
            } else if sub == uid as i64 {
                Ok(())
            } else {
                Err(Error::NoPermissionError)
            }
        },
        _ => Err(Error::JWTTokenError),
    }
}

/// Whether a header value starts with the bearer prefix.
pub fn starts_with_bearer(header: &str) -> (r: bool)
    ensures
        r == has_bearer_prefix(header@),
{
    let prefix = "Bearer ";
    proof {
        reveal_strlit("Bearer ");
    }
    if header.unicode_len() < 7 {
        return false;
    }
    let mut i: usize = 0;
    while i < 7
        invariant
            i <= 7,
            header@.len() >= 7,
            prefix@ == bearer_prefix(),
            forall|j: int| 0 <= j < i ==> header@[j] == bearer_prefix()[j],
        decreases 7 - i,
    {
        if header.get_char(i) != prefix.get_char(i) {
            assert(header@.subrange(0, 7)[i as int] != bearer_prefix()[i as int]);
            return false;
        }
        i += 1;
    }
    assert(header@.subrange(0, 7) =~= bearer_prefix());
    true
}

/// What issuing hands out for the result of the signing: the token, or the
/// one error that stands for every failure to sign.
pub fn issued_token(encoded: Option<String>) -> (r: AuthResult<String>)
    ensures
        r == match encoded {
            Some(token) => Ok::<String, Error>(token),
            None => Err::<String, Error>(Error::JWTTokenCreationError),
        },
{
    match encoded {
        Some(token) => Ok(token),
        None => Err(Error::JWTTokenCreationError),
    }
}

/// What authorizing answers for the result of the decoding: a token that
/// was refused is invalid, and claims that were read are held against the
/// claimed identity.
pub fn authorization(decoded: Option<Claims>, uid: i32) -> (r: AuthResult<()>)
    ensures
        r == match decoded {
            Some(claims) => verdict(claims, uid),
            None => Err::<(), Error>(Error::JWTTokenError),
        },
{
    match decoded {
        Some(claims) => check_claims(&claims, uid),
        None => Err(Error::JWTTokenError),
    }
}

/// The identity that a token speaks for under `secret`: the subject of its
/// claims, where its signature verifies under the secret and the claims are
/// well formed.
pub open spec fn verified_subject(secret: Seq<char>, token: Seq<char>) -> Option<int> {
    match crate::auth::jwt::verified_claims(secret, token) {
        Some(claims) => claimed_subject(claims),
        None => None,
    }
}

/// Whether `answer` is an answer that a session authority with the signing
/// secret `secret` may give to a header value presented for the identity
/// `uid`. A header without the bearer prefix is malformed. Otherwise the
/// token is decoded with the secret. The decoding may refuse the token as
/// invalid: it does so where the signature does not verify under the secret
/// or the token has expired. Where it does not refuse, the signature has
/// verified under the secret, and the claims of the token decide.
pub open spec fn may_answer(
    secret: Seq<char>,
    header: Seq<char>,
    uid: i32,
    answer: AuthResult<()>,
) -> bool {
    if has_bearer_prefix(header) {
        answer == Err::<(), Error>(Error::JWTTokenError) || (crate::auth::jwt::verified_claims(
            secret,
            bearer_token(header),
        ) matches Some(claims) && answer == verdict(claims, uid))
    } else {
        answer == Err::<(), Error>(Error::InvalidAuthHeaderError)
    }
}

/// A token issued for an identity and presented in the bearer form for that
/// identity, to an authority with the secret it was signed with, is
/// authorized, unless the decoding refuses it as invalid.
pub proof fn issued_token_authorizes_its_identity(
    secret: Seq<char>,
    token: Seq<char>,
    uid: i32,
    answer: AuthResult<()>,
)
    requires
        verified_subject(secret, token) == Some(uid as int),
        may_answer(secret, bearer_prefix() + token, uid, answer),
    ensures
        has_bearer_prefix(bearer_prefix() + token),
        bearer_token(bearer_prefix() + token) == token,
        answer is Ok || answer == Err::<(), Error>(Error::JWTTokenError),
{
    let header = bearer_prefix() + token;
    assert(header.subrange(0, 7) =~= bearer_prefix());
    assert(bearer_token(header) =~= token);
}

/// A token issued for one identity never authorizes another: presented for
/// the other, it is answered with a lack of permission, unless the decoding
/// refuses it as invalid before.
pub proof fn token_of_one_identity_authorizes_no_other(
    secret: Seq<char>,
    token: Seq<char>,
    a: i32,
    b: i32,
    answer: AuthResult<()>,
)
    requires
        verified_subject(secret, token) == Some(a as int),
        a != b,
        may_answer(secret, bearer_prefix() + token, b, answer),
    ensures
        answer == Err::<(), Error>(Error::NoPermissionError) || answer == Err::<(), Error>(
            Error::JWTTokenError,
        ),
{
    let header = bearer_prefix() + token;
    assert(header.subrange(0, 7) =~= bearer_prefix());
    assert(bearer_token(header) =~= token);
}

/// A token whose signature does not verify under the secret of an authority
/// is never authorized by it, whatever identity it is presented for.
pub proof fn unverified_token_authorizes_nobody(
    secret: Seq<char>,
    header: Seq<char>,
    uid: i32,
    answer: AuthResult<()>,
)
    requires
        has_bearer_prefix(header),
        crate::auth::jwt::verified_claims(secret, bearer_token(header)) is None,
        may_answer(secret, header, uid, answer),
    ensures
        answer == Err::<(), Error>(Error::JWTTokenError),
{
}

pub trait Authenticator {
    /// The identity that a token speaks for, where it speaks for one. An
    /// authenticator that does not say so leaves it open.
    open spec fn subject_of(&self, token: Seq<char>) -> Option<int> {
        arbitrary()
    }

    /// Whether this authenticator issues a token whenever it is asked. An
    /// authenticator is taken to fail unless it says otherwise.
    open spec fn issues(&self) -> bool {
        false
    }

    /// Creates a token for the identity `uid`, which is not empty. Only a
    /// failure to sign makes this fail.
    fn create_token(&self, uid: i32) -> (r: AuthResult<String>)
        ensures
            self.issues() ==> r is Ok,
            r matches Ok(token) ==> token@.len() > 0 && self.subject_of(token@) == Some(
                uid as int,
            ),
            r matches Err(e) ==> e == Error::JWTTokenCreationError,
    ;

    /// Authorizes the identity `uid` where the access token, which must be in
    /// the bearer form, is valid and was issued for `uid`.
    fn authorize(&self, token: &AccessToken, uid: i32) -> (r: AuthResult<()>)
        ensures
            r == Err::<(), Error>(Error::InvalidAuthHeaderError) <==> !has_bearer_prefix(token@),
            r is Ok ==> self.subject_of(bearer_token(token@)) == Some(uid as int),
            r == Err::<(), Error>(Error::NoPermissionError) ==> self.subject_of(
                bearer_token(token@),
            ) is Some && self.subject_of(bearer_token(token@)) != Some(uid as int),
    ;
}

/// The session authority: it signs and checks tokens with one symmetric
/// secret and keeps no other state. It never consults the sessions: a token
/// authorizes its identity for its whole lifetime, also after a later login
/// has replaced it as the current token of the session. The authority
/// revokes nothing.
pub struct BearerAuthenticator {
    secret: String,
}

impl BearerAuthenticator {
    /// The signing secret.
    pub closed spec fn secret(&self) -> Seq<char> {
        self.secret@
    }

    /// A session authority that signs with `secret`, which must not be empty.
    pub fn new(secret: String) -> (r: BearerAuthenticator)
        requires
            secret@.len() > 0,
        ensures
            r.secret() == secret@,
    {
        BearerAuthenticator { secret }
    }

    /// Extracts the token from an access token of the form `Bearer xxxxx`:
    /// what follows the first seven characters, whatever it is.
    pub fn jwt_from_header(&self, token: &AccessToken) -> (r: AuthResult<String>)
        ensures
            has_bearer_prefix(token@) ==> r is Ok && r->Ok_0@ == bearer_token(token@),
            !has_bearer_prefix(token@) ==> r == Err::<String, Error>(
                Error::InvalidAuthHeaderError,
            ),
    {
        let header = token.get_token();
        if !starts_with_bearer(header.as_str()) {
            return Err(Error::InvalidAuthHeaderError);
        }
        let n = header.as_str().unicode_len();
        Ok(String::from_str(header.as_str().substring_char(7, n)))
    }

    /// Creates the token that an issue at the time `now`, in seconds since the
    /// Unix epoch, gives for the identity `uid`: it expires one day later.
    /// The signing does not fail.
    pub fn create_token_at(&self, uid: i32, now: i64) -> (r: AuthResult<String>)
        requires
            0 <= now + TOKEN_LIFETIME_SECONDS <= i64::MAX,
        ensures
            r matches Ok(token) && token@ == crate::auth::jwt::hs512_token(
                self.secret(),
                uid as int,
                now + TOKEN_LIFETIME_SECONDS,
            ) && token@.len() > 0 && crate::auth::jwt::verified_claims(self.secret(), token@)
                == Some(
                Claims {
                    sub: Some(uid as i64),
                    exp: Some((now + TOKEN_LIFETIME_SECONDS) as u64),
                },
            ),
    {
        let expiration: i64 = now + TOKEN_LIFETIME_SECONDS;
        issued_token(encode_hs512(self.secret.as_str(), uid, expiration as u64))
    }
}

impl Authenticator for BearerAuthenticator {
    open spec fn subject_of(&self, token: Seq<char>) -> Option<int> {
        verified_subject(self.secret(), token)
    }

    open spec fn issues(&self) -> bool {
        true
    }

    /// Reads the clock and creates the token of that time, which expires one
    /// day later.
    fn create_token(&self, uid: i32) -> (r: AuthResult<String>)
        ensures
            r matches Ok(token) && exists|now: int|
                0 <= now && token@ == #[trigger] crate::auth::jwt::hs512_token(
                    self.secret(),
                    uid as int,
                    now + TOKEN_LIFETIME_SECONDS,
                ),
    {
        let now = current_timestamp();
        self.create_token_at(uid, now)
    }

    /// Answers `Ok` only for a token whose signature has verified under the
    /// secret of this authority.
    fn authorize(&self, token: &AccessToken, uid: i32) -> (r: AuthResult<()>)
        ensures
            may_answer(self.secret(), token@, uid, r),
    {
        let token_as_string = match self.jwt_from_header(token) {
            Ok(t) => t,
            Err(e) => {
                return Err(e);
            },
        };
        authorization(decode_hs512(token_as_string.as_str(), self.secret.as_str()), uid)
    }
}

} // verus!
