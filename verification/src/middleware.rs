//! Authentication of a request by its session cookie.
use vstd::prelude::*;
use crate::api_error::ApiError;
use crate::config::{DevMode, EnvConfig};
use crate::flows::{DbFailure, Next};
use crate::jwt::{Claims, TokenFailure};

verus! {

/// The user a request is authenticated as.
pub struct AuthUser<U>(pub U);

/// The id of the user every request is authenticated as in test mode.
pub const TEST_USER_ID: u128 = 0x1f29c101_830e_4d99_80a0_48b8b56fa091;

/// The identity of the test user.
#[derive(Debug, Clone)]
pub struct TestUserProfile {
    pub id: u128,
    pub email: String,
    pub name: String,
}

/// Whether a profile is the test user's: `test@example.com`, named `Test User`.
pub open spec fn is_test_user(p: TestUserProfile) -> bool {
    &&& p.id == TEST_USER_ID
    &&& p.email@ == "test@example.com"@
    &&& p.name@ == "Test User"@
}

/// The identity of the test user.
pub fn test_user_profile() -> (p: TestUserProfile)
    ensures
        is_test_user(p),
{
    TestUserProfile {
        id: TEST_USER_ID,
        email: String::from_str("test@example.com"),
        name: String::from_str("Test User"),
    }
}

/// What the request's cookies hold.
pub enum CookieLookup {
    /// The cookies could not be read at all.
    NoCookieJar,
    /// There is no `token` cookie.
    NoToken,
    /// The value of the `token` cookie.
    Token(String),
}

/// The operations of authentication.
#[derive(Debug)]
pub enum AuthOperation {
    /// Check a token's signature with the secret and its expiry (`verify_jwt`),
    /// and hand back its claims.
    VerifyToken { token: String, secret: String },
    /// The user with this id, if there is one.
    FindUser { user_id: u128 },
    /// Build the test user from its identity (no database involved).
    MakeTestUser(TestUserProfile),
}

/// The events of authentication.
pub enum AuthEvent<U> {
    Start(CookieLookup),
    Verified(Result<Claims, TokenFailure>),
    Found(Result<Option<U>, DbFailure>),
    TestUserMade(U),
}

/// Authentication finishes with an error of this status and message.
pub open spec fn refuses<U>(n: Next<AuthOperation, Result<AuthUser<U>, ApiError>>, status: u16, message: Seq<char>) -> bool {
    n matches Next::Finish(Err(e)) && e.spec_status() == status && e.spec_message() == message
}

/// Authenticates a request. In test mode every request is authenticated as the test
/// user. Otherwise its `token` cookie must hold a token signed with the secret and
/// unexpired, whose subject is a user that exists.
pub fn authenticate_step<U>(config: &EnvConfig, event: AuthEvent<U>) -> (n: Next<AuthOperation, Result<AuthUser<U>, ApiError>>)
    ensures
        match event {
            AuthEvent::Start(lookup) => if config.dev_mode == DevMode::Test {
                n matches Next::Run(AuthOperation::MakeTestUser(p)) && is_test_user(p)
            } else {
                match lookup {
                    CookieLookup::NoCookieJar => refuses(n, 401, "No auth cookie found"@),
                    CookieLookup::NoToken => refuses(n, 401, "No auth token found"@),
                    CookieLookup::Token(t) => n matches Next::Run(AuthOperation::VerifyToken { token, secret })
                        && token@ == t@ && secret@ == config.jwt_secret@,
                }
            },
            AuthEvent::Verified(Err(_)) => refuses(n, 401, "Invalid auth token"@),
            AuthEvent::Verified(Ok(c)) => n matches Next::Run(AuthOperation::FindUser { user_id })
                && user_id == c.sub,
            AuthEvent::Found(Err(_)) => refuses(n, 500, "Failed to fetch user"@),
            AuthEvent::Found(Ok(None)) => refuses(n, 401, "User not found"@),
            AuthEvent::Found(Ok(Some(u))) => n matches Next::Finish(Ok(a)) && a.0 == u,
            AuthEvent::TestUserMade(u) => n matches Next::Finish(Ok(a)) && a.0 == u,
        },
{
    match event {
        AuthEvent::Start(lookup) => {
            if config.dev_mode == DevMode::Test {
                return Next::Run(AuthOperation::MakeTestUser(test_user_profile()));
            }
            match lookup {
                CookieLookup::NoCookieJar => Next::Finish(
                    Err(ApiError::Unauthorized(String::from_str("No auth cookie found"))),
                ),
                CookieLookup::NoToken => Next::Finish(
                    Err(ApiError::Unauthorized(String::from_str("No auth token found"))),
                ),
                CookieLookup::Token(token) => Next::Run(
                    AuthOperation::VerifyToken { token, secret: config.jwt_secret.clone() },
                ),
            }
        },
        AuthEvent::Verified(Err(_)) => Next::Finish(
            Err(ApiError::Unauthorized(String::from_str("Invalid auth token"))),
        ),
        AuthEvent::Verified(Ok(claims)) => Next::Run(AuthOperation::FindUser { user_id: claims.sub }),
        AuthEvent::Found(Err(_)) => Next::Finish(
            Err(ApiError::InternalServerError(String::from_str("Failed to fetch user"))),
        ),
        AuthEvent::Found(Ok(None)) => Next::Finish(
            Err(ApiError::Unauthorized(String::from_str("User not found"))),
        ),
        AuthEvent::Found(Ok(Some(u))) => Next::Finish(Ok(AuthUser(u))),
        AuthEvent::TestUserMade(u) => Next::Finish(Ok(AuthUser(u))),
    }
}

} // verus!
