//! Users, their roles, and what others see of them.

use vstd::prelude::*;
use crate::models::security::text_view;

verus! {

/// What a user may do, from the least to the most.
#[derive(Debug, Clone, Copy, PartialEq, Eq, Structural)]
pub enum UserRole {
    User,
    Resident,
    Owner,
    Council,
    Chairman,
    Moderator,
    Admin,
    SuperAdmin,
}

impl Default for UserRole {
    fn default() -> (r: Self)
        ensures
            r == UserRole::User,
    {
        UserRole::User
    }
}

/// A user of the service.
#[derive(Debug)]
pub struct User {
    pub id: u128,
    pub phone: String,
    pub first_name: Option<String>,
    pub last_name: Option<String>,
    pub middle_name: Option<String>,
    pub email: Option<String>,
    pub avatar_url: Option<String>,
    pub role: UserRole,
    pub is_verified: bool,
    pub is_blocked: bool,
    pub blocked_reason: Option<String>,
    pub blocked_at: Option<i64>,
    pub last_login_at: Option<i64>,
    pub created_at: i64,
    pub updated_at: i64,
}

/// What other users see of a user: the phone number is masked.
#[derive(Debug)]
pub struct UserPublic {
    pub id: u128,
    pub phone: String,
    pub first_name: Option<String>,
    pub last_name: Option<String>,
    pub avatar_url: Option<String>,
    pub role: UserRole,
    pub is_verified: bool,
}

/// A phone number with all but its first four and last four characters
/// replaced by four asterisks; a number of eight characters or fewer is
/// shown as it is.
pub open spec fn masked_phone(phone: Seq<char>) -> Seq<char> {
    if phone.len() > 8 {
        phone.take(4) + seq!['*', '*', '*', '*'] + phone.skip(phone.len() - 4)
    } else {
        phone
    }
}

/// The phone number as others may see it.
pub fn mask_phone(phone: &str) -> (r: String)
    ensures
        r@ == masked_phone(phone@),
{
    let n = phone.unicode_len();
    if n > 8 {
        proof {
            reveal_strlit("****");
        }
        let mut r = String::from_str(phone.substring_char(0, 4));
        r.append("****");
        r.append(phone.substring_char(n - 4, n));
        assert(r@ =~= masked_phone(phone@));
        r
    } else {
        String::from_str(phone)
    }
}

impl UserPublic {
    /// This is what others see of `user`.
    pub open spec fn shows(&self, user: User) -> bool {
        &&& self.id == user.id
        &&& self.phone@ == masked_phone(user.phone@)
        &&& text_view(self.first_name) == text_view(user.first_name)
        &&& text_view(self.last_name) == text_view(user.last_name)
        &&& text_view(self.avatar_url) == text_view(user.avatar_url)
        &&& self.role == user.role
        &&& self.is_verified == user.is_verified
    }
}

impl UserPublic {
    /// What others see of `user`.
    pub fn from(user: User) -> (r: Self)
        ensures
            r.shows(user),
    {
        UserPublic {
            id: user.id,
            phone: mask_phone(user.phone.as_str()),
            first_name: user.first_name,
            last_name: user.last_name,
            avatar_url: user.avatar_url,
            role: user.role,
            is_verified: user.is_verified,
        }
    }
}

/// A request for a confirmation code.
#[derive(Debug)]
pub struct SendCodeRequest {
    pub phone: String,
}

/// A confirmation code offered for a phone number.
#[derive(Debug)]
pub struct VerifyCodeRequest {
    pub phone: String,
    pub code: String,
    pub device_info: Option<String>,
}

/// A request for fresh tokens.
#[derive(Debug)]
pub struct RefreshTokenRequest {
    pub refresh_token: String,
}

/// A pair of tokens.
#[derive(Debug)]
pub struct TokenResponse {
    pub access_token: String,
    pub refresh_token: String,
}

/// A change of a user's own details.
#[derive(Debug)]
pub struct UpdateUserRequest {
    pub first_name: Option<String>,
    pub last_name: Option<String>,
    pub middle_name: Option<String>,
    pub email: Option<String>,
}

} // verus!
