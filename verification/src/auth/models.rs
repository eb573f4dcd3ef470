//! What signing in and changing a password ask for and give back.

use vstd::prelude::*;
use vstd::utf8::encode_utf8;

verus! {

/// What is asked when an administrator changes the password.
#[derive(Debug)]
pub struct ChangePasswordRequest {
    pub current_password: String,
    pub new_password: String,
}

impl ChangePasswordRequest {
    /// The new password takes fewer than eight bytes in UTF-8.
    pub open spec fn too_short(&self) -> bool {
        (encode_utf8(self.new_password@).len() as usize) < 8
    }
}

/// What a session token says of its bearer.
#[derive(Debug)]
pub struct Claims {
    /// The administrator's username.
    pub sub: String,
    pub name: String,
    pub role: String,
    /// When the token was issued, in seconds since the start of 1970.
    pub iat: usize,
    /// When the token expires, in seconds since the start of 1970.
    pub exp: usize,
}

/// What a caller is told of the administrator who signed in.
#[derive(Debug)]
pub struct AdminInfo {
    pub username: String,
    pub name: String,
    pub role: String,
}

/// What a served sign-in gives back.
#[derive(Debug)]
pub struct LoginResponse {
    pub token: String,
    pub user: AdminInfo,
}

/// One administrator as stored, with the hash of the password.
#[derive(Debug)]
pub struct AdminRow {
    pub id: i32,
    pub username: String,
    pub name: String,
    pub role: String,
    pub password_hash: String,
}

/// The seconds in `hours` hours after `now`.
pub open spec fn expiry_after(now: int, hours: int) -> int {
    now + hours * 3600
}

/// Both moments of a token issued at `now` for `hours` hours are counts of
/// seconds that a token can carry.
pub open spec fn token_times_fit(now: int, hours: int) -> bool {
    &&& 0 <= now <= usize::MAX
    &&& 0 <= expiry_after(now, hours) <= usize::MAX
    &&& expiry_after(now, hours) <= i64::MAX
}

impl Claims {
    /// The claims of a token issued to an administrator at `now` for
    /// `expiry_hours` hours, or `None` where either moment is not a count of
    /// seconds that a token can carry.
    pub fn issue(admin: &AdminRow, now: i64, expiry_hours: i64) -> (claims: Option<Claims>)
        ensures
            claims is Some == token_times_fit(now as int, expiry_hours as int),
            claims matches Some(c) ==> {
                &&& c.sub@ == admin.username@
                &&& c.name@ == admin.name@
                &&& c.role@ == admin.role@
                &&& c.iat == now
                &&& c.exp == expiry_after(now as int, expiry_hours as int)
            },
    {
        let lifetime: i64 = match expiry_hours.checked_mul(3600) {
            Some(seconds) => seconds,
            None => {
                return None;
            },
        };
        if now < 0 || now as u64 > usize::MAX as u64 {
            return None;
        }
        let expiry: i64 = match now.checked_add(lifetime) {
            Some(seconds) => seconds,
            None => {
                return None;
            },
        };
        if expiry < 0 || expiry as u64 > usize::MAX as u64 {
            return None;
        }
        Some(
            Claims {
                sub: admin.username.clone(),
                name: admin.name.clone(),
                role: admin.role.clone(),
                iat: now as usize,
                exp: expiry as usize,
            },
        )
    }
}

impl LoginResponse {
    /// The answer to a served sign-in: the token, and the administrator
    /// without the password's hash.
    pub fn new(token: String, admin: &AdminRow) -> (response: LoginResponse)
        ensures
            response.token@ == token@,
            response.user.username@ == admin.username@,
            response.user.name@ == admin.name@,
            response.user.role@ == admin.role@,
    {
        LoginResponse {
            token,
            user: AdminInfo {
                username: admin.username.clone(),
                name: admin.name.clone(),
                role: admin.role.clone(),
            },
        }
    }
}

} // verus!
