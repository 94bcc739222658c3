//! Who is asking: the verified identity behind a request, and what its role
//! allows.

use vstd::prelude::*;
use crate::models::user::UserRole;
use crate::services::auth_service::Claims;
use crate::utils::text::same_text;

verus! {

/// The verified identity behind a request.
#[derive(Debug, Clone, Copy)]
pub struct AuthUser {
    pub user_id: u128,
    pub role: UserRole,
}

/// Why a request carries no identity.
#[derive(Debug, Clone, Copy, PartialEq, Eq, Structural)]
pub enum AuthRejection {
    /// There is no authorization header.
    MissingHeader,
    /// The authorization header does not start with `Bearer `.
    BadHeaderFormat,
    /// The token is not an access token.
    WrongTokenType,
    /// The token names no user.
    BadUserId,
}

/// The role is chairman, admin or super admin.
pub open spec fn spec_is_chairman_or_higher(role: UserRole) -> bool {
    role == UserRole::Chairman || role == UserRole::Admin || role == UserRole::SuperAdmin
}

/// The role is admin or super admin.
pub open spec fn spec_is_admin_or_higher(role: UserRole) -> bool {
    role == UserRole::Admin || role == UserRole::SuperAdmin
}

/// The role is owner, council, chairman, admin or super admin.
pub open spec fn spec_is_owner_or_higher(role: UserRole) -> bool {
    role == UserRole::Owner || role == UserRole::Council || role == UserRole::Chairman || role
        == UserRole::Admin || role == UserRole::SuperAdmin
}

/// The role is any but that of a plain user.
pub open spec fn spec_is_resident_or_higher(role: UserRole) -> bool {
    role != UserRole::User
}

pub fn is_chairman_or_higher(role: &UserRole) -> (r: bool)
    ensures
        r == spec_is_chairman_or_higher(*role),
{
    match role {
        UserRole::Chairman | UserRole::Admin | UserRole::SuperAdmin => true,
        _ => false,
    }
}

pub fn is_admin_or_higher(role: &UserRole) -> (r: bool)
    ensures
        r == spec_is_admin_or_higher(*role),
{
    match role {
        UserRole::Admin | UserRole::SuperAdmin => true,
        _ => false,
    }
}

pub fn is_owner_or_higher(role: &UserRole) -> (r: bool)
    ensures
        r == spec_is_owner_or_higher(*role),
{
    match role {
        UserRole::Owner | UserRole::Council | UserRole::Chairman | UserRole::Admin
        | UserRole::SuperAdmin => true,
        _ => false,
    }
}

pub fn is_resident_or_higher(role: &UserRole) -> (r: bool)
    ensures
        r == spec_is_resident_or_higher(*role),
{
    match role {
        UserRole::User => false,
        _ => true,
    }
}

/// The role that a token calls `name`; a name that is none of the roles'
/// stands for a plain user.
pub open spec fn role_named(name: Seq<char>) -> UserRole {
    if name == "resident"@ {
        UserRole::Resident
    } else if name == "owner"@ {
        UserRole::Owner
    } else if name == "council"@ {
        UserRole::Council
    } else if name == "chairman"@ {
        UserRole::Chairman
    } else if name == "moderator"@ {
        UserRole::Moderator
    } else if name == "admin"@ {
        UserRole::Admin
    } else if name == "superadmin"@ || name == "super_admin"@ {
        UserRole::SuperAdmin
    } else {
        UserRole::User
    }
}

/// The role that a token calls `role_str`.
pub fn parse_role(role_str: &str) -> (role: UserRole)
    ensures
        role == role_named(role_str@),
{
    if same_text(role_str, "resident") {
        UserRole::Resident
    } else if same_text(role_str, "owner") {
        UserRole::Owner
    } else if same_text(role_str, "council") {
        UserRole::Council
    } else if same_text(role_str, "chairman") {
        UserRole::Chairman
    } else if same_text(role_str, "moderator") {
        UserRole::Moderator
    } else if same_text(role_str, "admin") {
        UserRole::Admin
    } else if same_text(role_str, "superadmin") || same_text(role_str, "super_admin") {
        UserRole::SuperAdmin
    } else {
        UserRole::User
    }
}

/// The name under which a token carries `role`: the role's own name in
/// lower case, without a separator.
pub open spec fn role_name(role: UserRole) -> Seq<char> {
    match role {
        UserRole::User => "user"@,
        UserRole::Resident => "resident"@,
        UserRole::Owner => "owner"@,
        UserRole::Council => "council"@,
        UserRole::Chairman => "chairman"@,
        UserRole::Moderator => "moderator"@,
        UserRole::Admin => "admin"@,
        UserRole::SuperAdmin => "superadmin"@,
    }
}

/// The name under which a token carries `role`.
pub fn role_text(role: &UserRole) -> (name: &'static str)
    ensures
        name@ == role_name(*role),
{
    match role {
        UserRole::User => "user",
        UserRole::Resident => "resident",
        UserRole::Owner => "owner",
        UserRole::Council => "council",
        UserRole::Chairman => "chairman",
        UserRole::Moderator => "moderator",
        UserRole::Admin => "admin",
        UserRole::SuperAdmin => "superadmin",
    }
}

/// A role survives the way into a token and back.
pub proof fn law_role_round_trip(role: UserRole)
    ensures
        role_named(role_name(role)) == role,
{
    reveal_strlit("user");
    reveal_strlit("resident");
    reveal_strlit("owner");
    reveal_strlit("council");
    reveal_strlit("chairman");
    reveal_strlit("moderator");
    reveal_strlit("admin");
    reveal_strlit("superadmin");
    reveal_strlit("super_admin");
    assert("user"@.len() == 4 && "user"@[0] == 'u');
    assert("resident"@.len() == 8 && "resident"@[0] == 'r');
    assert("owner"@.len() == 5 && "owner"@[0] == 'o');
    assert("council"@.len() == 7 && "council"@[0] == 'c');
    assert("chairman"@.len() == 8 && "chairman"@[0] == 'c');
    assert("moderator"@.len() == 9 && "moderator"@[0] == 'm');
    assert("admin"@.len() == 5 && "admin"@[0] == 'a');
    assert("superadmin"@.len() == 10 && "superadmin"@[0] == 's');
    assert("super_admin"@.len() == 11 && "super_admin"@[0] == 's');
}

/// What follows `Bearer ` in an authorization header that starts with it.
pub open spec fn bearer_part(header: Seq<char>) -> Option<Seq<char>> {
    if header.len() >= 7 && header.take(7) == "Bearer "@ {
        Some(header.skip(7))
    } else {
        None
    }
}

/// The token that an authorization header carries, if it carries one.
pub fn bearer_token(header: &str) -> (token: Option<String>)
    ensures
        match token {
            Some(t) => bearer_part(header@) == Some(t@),
            None => bearer_part(header@) is None,
        },
{
    let n = header.unicode_len();
    if n >= 7 && same_text(header.substring_char(0, 7), "Bearer ") {
        Some(String::from_str(header.substring_char(7, n)))
    } else {
        None
    }
}

impl AuthUser {
    /// The identity that the claims of a verified token stand for, given the
    /// user id that was read from the token's subject. Only an access token
    /// that names a user stands for anyone.
    pub fn from_claims(claims: &Claims, user_id: Option<u128>) -> (r: Result<
        AuthUser,
        AuthRejection,
    >)
        ensures
            claims.token_type@ != "access"@ ==> r == Err::<AuthUser, AuthRejection>(
                AuthRejection::WrongTokenType,
            ),
            claims.token_type@ == "access"@ && user_id is None ==> r == Err::<
                AuthUser,
                AuthRejection,
            >(AuthRejection::BadUserId),
            claims.token_type@ == "access"@ && user_id is Some ==> r == Ok::<
                AuthUser,
                AuthRejection,
            >(AuthUser { user_id: user_id->0, role: role_named(claims.role@) }),
    {
        if !same_text(claims.token_type.as_str(), "access") {
            return Err(AuthRejection::WrongTokenType);
        }
        match user_id {
            None => Err(AuthRejection::BadUserId),
            Some(id) => Ok(AuthUser { user_id: id, role: parse_role(claims.role.as_str()) }),
        }
    }
}

} // verus!
