//! Fixed values of the service.
use vstd::prelude::*;

verus! {

/// How many days a session token stays valid.
pub const JWT_EXPIRATION_DAYS: i64 = 7;

/// The expiry claim written where the expiry time cannot be computed: seven days in milliseconds.
pub const JWT_EXPIRATION_DAYS_FALLBACK_IN_MILLISECONDS: usize = 7 * 24 * 3600 * 1000;

} // verus!
