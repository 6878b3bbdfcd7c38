//! The registration handler, and the session cookie it sets.
use vstd::prelude::*;
use crate::api_error::ApiError;
use crate::config::{DevMode, EnvConfig};
use crate::dtos::auth_dto::RegisterUserDto;
use crate::flows::{DbFailure, Next};
use crate::hash::{hash_password, is_argon2id_phc, password_matches};
use crate::jwt::{claims_at, generate_jwt, signed_token, token_claims};
use crate::response::ApiResponse;
use crate::validation::{email_accepted, error_report, format_validation_errors, outcome};

verus! {

/// The `SameSite` policy of a cookie.
#[derive(Debug, Clone, Copy, PartialEq, Eq, Structural)]
pub enum SameSitePolicy {
    Strict,
    Lax,
    NoRestriction,
}

/// A cookie to set on the client.
#[derive(Debug, Clone)]
pub struct SessionCookie {
    pub name: String,
    pub value: String,
    pub path: String,
    pub http_only: bool,
    pub secure: bool,
    pub same_site: SameSitePolicy,
}

/// The session cookie for a token: `token`, on path `/`, HTTP-only, `SameSite=Lax`,
/// and secure unless the service runs in development mode.
pub open spec fn is_session_cookie(c: SessionCookie, token: Seq<char>, dev_mode: DevMode) -> bool {
    &&& c.name@ == "token"@
    &&& c.value@ == token
    &&& c.path@ == "/"@
    &&& c.http_only
    &&& c.secure == (dev_mode != DevMode::Development)
    &&& c.same_site == SameSitePolicy::Lax
}

/// The session cookie that carries a token.
pub fn session_cookie(token: String, dev_mode: DevMode) -> (c: SessionCookie)
    ensures
        is_session_cookie(c, token@, dev_mode),
{
    SessionCookie {
        name: String::from_str("token"),
        value: token,
        path: String::from_str("/"),
        http_only: true,
        secure: dev_mode != DevMode::Development,
        same_site: SameSitePolicy::Lax,
    }
}

/// The database operations of the registration handler.
#[derive(Debug)]
pub enum RegisterOperation {
    /// Whether a user with this e-mail exists.
    FindUserByEmail { email: String },
    /// Insert a user and return it with its id.
    InsertUser { email: String, name: String, password_hash: String },
}

/// The events of `register_user`.
pub enum RegisterEvent<U> {
    Start,
    /// Whether a user with the e-mail exists.
    Looked(Result<bool, DbFailure>),
    /// The new user's id and the user.
    Inserted(Result<(u128, U), DbFailure>),
}

/// A successful registration: the session cookie to set, and the body, which is
/// sent with its own status code (201).
pub struct RegisterReply<U> {
    pub cookie: SessionCookie,
    pub body: ApiResponse<U>,
}

/// The answer of the registration handler: a reply, or an error answer.
pub type RegisterAnswer<U> = Result<RegisterReply<U>, ApiError>;

/// The handler finishes with an error of this status and message.
pub open spec fn register_refuses<U>(n: Next<RegisterOperation, RegisterAnswer<U>>, status: u16, message: Seq<char>) -> bool {
    n matches Next::Finish(Err(e)) && e.spec_status() == status && e.spec_message() == message
}

/// The handler finishes with the new user: a 201 body carrying it, and a session
/// cookie holding a token signed with the secret for the user's id, expiring seven
/// days after some time the clock gave.
pub open spec fn register_succeeds<U>(
    n: Next<RegisterOperation, RegisterAnswer<U>>,
    user_id: u128,
    user: U,
    secret: Seq<char>,
    dev_mode: DevMode,
) -> bool {
    n matches Next::Finish(Ok(reply)) && reply.body.success && reply.body.status_code == 201
        && reply.body.message@ == "User registered successfully"@ && reply.body.data == Some(user)
        && (exists|now: i64|
        #![trigger claims_at(user_id, now)]
        {
            &&& is_session_cookie(
                reply.cookie,
                signed_token(user_id, claims_at(user_id, now).exp, secret),
                dev_mode,
            )
            &&& token_claims(reply.cookie.value@, secret) == Some((user_id, claims_at(user_id, now).exp))
        })
}

/// `POST /auth/register`: a valid payload whose e-mail is not yet taken becomes a
/// user with an Argon2 hash of the password; a session token is signed for it and
/// set as cookie. Hashing fails only on a password of more than 0x3fff_ffff
/// characters, which a payload that passed its checks never has.
pub fn register_user_step<U>(payload: &RegisterUserDto, config: &EnvConfig, event: RegisterEvent<U>) -> (n: Next<RegisterOperation, RegisterAnswer<U>>)
    ensures
        match event {
            RegisterEvent::Start => match outcome(payload.failures()) {
                Err(f) => register_refuses(n, 400, error_report(f)),
                Ok(_) => n matches Next::Run(RegisterOperation::FindUserByEmail { email })
                    && email@ == payload.email@,
            },
            RegisterEvent::Looked(Err(_)) => register_refuses(n, 500, "Failed to check existing user"@),
            RegisterEvent::Looked(Ok(true)) => register_refuses(n, 409, "User is already registered"@),
            RegisterEvent::Looked(Ok(false)) => (payload.password@.len() > 0x3fff_ffff && register_refuses(
                n,
                500,
                "Failed to hash password"@,
            )) || (n matches Next::Run(RegisterOperation::InsertUser { email, name, password_hash })
                && email@ == payload.email@ && name@ == payload.name@ && password_matches(
                password_hash@,
                payload.password@,
            ) && is_argon2id_phc(password_hash@)),
            RegisterEvent::Inserted(Err(_)) => register_refuses(n, 500, "Failed to create user"@),
            RegisterEvent::Inserted(Ok((id, u))) => register_succeeds(n, id, u, config.jwt_secret@, config.dev_mode),
        },
        (event matches RegisterEvent::Start && n matches Next::Run(_)) ==> (payload.confirm_password@
            == payload.password@ && 6 <= payload.password@.len() <= 12 && payload.name@.len() >= 1
            && payload.email@.len() >= 1 && email_accepted(payload.email@)),
{
    match event {
        RegisterEvent::Start => {
            match payload.validate() {
                Err(e) => {
                    return Next::Finish(Err(ApiError::BadRequest(format_validation_errors(&e))));
                },
                Ok(()) => {},
            }
            if !crate::validation::texts_equal(payload.password.as_str(), payload.confirm_password.as_str()) {
                // A second guard behind the `must_match` check, which already compares them.
                return Next::Finish(Err(ApiError::BadRequest(String::from_str("Passwords do not match"))));
            }
            Next::Run(RegisterOperation::FindUserByEmail { email: payload.email.clone() })
        },
        RegisterEvent::Looked(Err(_)) => Next::Finish(
            Err(ApiError::InternalServerError(String::from_str("Failed to check existing user"))),
        ),
        RegisterEvent::Looked(Ok(true)) => Next::Finish(
            Err(ApiError::Conflict(String::from_str("User is already registered"))),
        ),
        RegisterEvent::Looked(Ok(false)) => match hash_password(payload.password.as_str()) {
            Err(_) => Next::Finish(Err(ApiError::InternalServerError(String::from_str("Failed to hash password")))),
            Ok(h) => Next::Run(
                RegisterOperation::InsertUser { email: payload.email.clone(), name: payload.name.clone(), password_hash: h },
            ),
        },
        RegisterEvent::Inserted(Err(_)) => Next::Finish(
            Err(ApiError::InternalServerError(String::from_str("Failed to create user"))),
        ),
        RegisterEvent::Inserted(Ok((id, u))) => match generate_jwt(id, config.jwt_secret.as_str()) {
            Err(_) => {
                proof {
                    assert(false);
                }
                Next::Finish(Err(ApiError::InternalServerError(String::from_str("Failed to generate token"))))
            },
            Ok(token) => {
                let ghost t = token@;
                let cookie = session_cookie(token, config.dev_mode);
                let n = Next::Finish(
                    Ok(
                        RegisterReply {
                            cookie,
                            body: ApiResponse::new(true, 201, String::from_str("User registered successfully"), Some(u)),
                        },
                    ),
                );
                proof {
                    let now = choose|now: i64|
                        #![trigger claims_at(id, now)]
                        t == signed_token(id, claims_at(id, now).exp, config.jwt_secret@) && token_claims(
                            t,
                            config.jwt_secret@,
                        ) == Some((id, claims_at(id, now).exp));
                    assert(is_session_cookie(cookie, signed_token(id, claims_at(id, now).exp, config.jwt_secret@), config.dev_mode));
                }
                n
            },
        },
    }
}

} // verus!
