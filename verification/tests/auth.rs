use localhood_backend::config::Config;
use localhood_backend::middleware::auth::{
    bearer_token, is_admin_or_higher, is_chairman_or_higher, is_owner_or_higher,
    is_resident_or_higher, parse_role, role_text, AuthRejection, AuthUser,
};
use localhood_backend::models::user::{mask_phone, User, UserPublic, UserRole};
use localhood_backend::services::auth_service::{AuthService, Claims};
use std::collections::hash_map::DefaultHasher;
use std::hash::{Hash, Hasher};

fn config() -> Config {
    Config {
        host: "0.0.0.0".to_string(),
        port: 8080,
        database_url: "postgres://localhost/test".to_string(),
        jwt_secret: "secret".to_string(),
        jwt_access_expiry: 900,
        jwt_refresh_expiry: 2_592_000,
        sms_api_key: "key".to_string(),
        sms_sender: "LocalHood".to_string(),
        sms_enabled: true,
        minio_endpoint: "http://localhost:9000".to_string(),
        minio_access_key: "minioadmin".to_string(),
        minio_secret_key: "minioadmin".to_string(),
        minio_bucket: "localhood".to_string(),
        minio_public_url: None,
    }
}

const ALL_ROLES: [UserRole; 8] = [
    UserRole::User,
    UserRole::Resident,
    UserRole::Owner,
    UserRole::Council,
    UserRole::Chairman,
    UserRole::Moderator,
    UserRole::Admin,
    UserRole::SuperAdmin,
];

#[test]
fn codes_have_six_digits_and_no_leading_zero() {
    for _ in 0..500 {
        for code in [AuthService::generate_access_code(), AuthService::generate_sms_code()] {
            assert_eq!(code.len(), 6);
            assert!(code.chars().all(|c| c.is_ascii_digit()));
            let n: u32 = code.parse().unwrap();
            assert!((100_000..999_999).contains(&n));
        }
    }
}

#[test]
fn codes_vary() {
    let first = AuthService::generate_access_code();
    let mut differs = false;
    for _ in 0..64 {
        if AuthService::generate_access_code() != first {
            differs = true;
        }
    }
    assert!(differs);
}

#[test]
fn code_from_writes_the_decimal_digits() {
    assert_eq!(AuthService::code_from(100_000), "100000");
    assert_eq!(AuthService::code_from(999_998), "999998");
    assert_eq!(AuthService::code_from(482_913), "482913");
    assert_eq!(AuthService::code_from(0), "0");
    assert_eq!(AuthService::code_from(42), "42");
    assert_eq!(AuthService::code_from(u32::MAX), "4294967295");
}

#[test]
fn hash_token_is_the_hex_of_the_hash_of_the_text() {
    for token in ["", "a", "refresh-token", "Привет", "eyJhbGciOiJIUzI1NiJ9.e30.x"] {
        let mut hasher = DefaultHasher::new();
        token.hash(&mut hasher);
        assert_eq!(AuthService::hash_token(token), format!("{:x}", hasher.finish()));
    }
    assert_ne!(AuthService::hash_token("a"), AuthService::hash_token("b"));
    assert_eq!(AuthService::hash_token("a"), AuthService::hash_token("a"));
}

#[test]
fn claims_expire_after_the_configured_lifetime() {
    let auth = AuthService::new(config());
    let access: Claims = auth.claims("user-1".to_string(), "owner", 1_700_000_000, false).unwrap();
    assert_eq!(access.sub, "user-1");
    assert_eq!(access.role, "owner");
    assert_eq!(access.iat, 1_700_000_000);
    assert_eq!(access.exp, 1_700_000_900);
    assert_eq!(access.token_type, "access");
    let refresh = auth.claims("user-1".to_string(), "owner", 1_700_000_000, true).unwrap();
    assert_eq!(refresh.exp, 1_702_592_000);
    assert_eq!(refresh.token_type, "refresh");
    assert!(auth.claims("u".to_string(), "user", i64::MAX - 899, false).is_none());
    assert!(auth.claims("u".to_string(), "user", i64::MAX - 900, false).is_some());
}

#[test]
fn role_checks_follow_the_ranks() {
    let chairman = [false, false, false, false, true, false, true, true];
    let admin = [false, false, false, false, false, false, true, true];
    let owner = [false, false, true, true, true, false, true, true];
    let resident = [false, true, true, true, true, true, true, true];
    for (i, role) in ALL_ROLES.iter().enumerate() {
        assert_eq!(is_chairman_or_higher(role), chairman[i]);
        assert_eq!(is_admin_or_higher(role), admin[i]);
        assert_eq!(is_owner_or_higher(role), owner[i]);
        assert_eq!(is_resident_or_higher(role), resident[i]);
    }
}

#[test]
fn parse_role_reads_every_name() {
    assert_eq!(parse_role("user"), UserRole::User);
    assert_eq!(parse_role("resident"), UserRole::Resident);
    assert_eq!(parse_role("owner"), UserRole::Owner);
    assert_eq!(parse_role("council"), UserRole::Council);
    assert_eq!(parse_role("chairman"), UserRole::Chairman);
    assert_eq!(parse_role("moderator"), UserRole::Moderator);
    assert_eq!(parse_role("admin"), UserRole::Admin);
    assert_eq!(parse_role("superadmin"), UserRole::SuperAdmin);
    assert_eq!(parse_role("super_admin"), UserRole::SuperAdmin);
    assert_eq!(parse_role("Admin"), UserRole::User);
    assert_eq!(parse_role(""), UserRole::User);
    assert_eq!(parse_role("root"), UserRole::User);
}

#[test]
fn a_role_survives_the_way_into_a_token_and_back() {
    for role in ALL_ROLES {
        assert_eq!(parse_role(role_text(&role)), role);
        assert_eq!(role_text(&role), format!("{:?}", role).to_lowercase());
    }
    assert_eq!(UserRole::default(), UserRole::User);
}

#[test]
fn bearer_token_strips_the_prefix() {
    assert_eq!(bearer_token("Bearer abc.def"), Some("abc.def".to_string()));
    assert_eq!(bearer_token("Bearer "), Some(String::new()));
    assert_eq!(bearer_token("bearer abc"), None);
    assert_eq!(bearer_token("Bearer"), None);
    assert_eq!(bearer_token("Basic abc"), None);
    assert_eq!(bearer_token(""), None);
    assert_eq!(bearer_token("Bearer ключ"), Some("ключ".to_string()));
}

#[test]
fn only_an_access_token_that_names_a_user_stands_for_anyone() {
    let auth = AuthService::new(config());
    let access = auth.claims("x".to_string(), "chairman", 0, false).unwrap();
    let refresh = auth.claims("x".to_string(), "chairman", 0, true).unwrap();
    let user = AuthUser::from_claims(&access, Some(7)).unwrap();
    assert_eq!(user.user_id, 7);
    assert_eq!(user.role, UserRole::Chairman);
    assert_eq!(AuthUser::from_claims(&access, None).unwrap_err(), AuthRejection::BadUserId);
    assert_eq!(
        AuthUser::from_claims(&refresh, Some(7)).unwrap_err(),
        AuthRejection::WrongTokenType
    );
    assert_eq!(AuthUser::from_claims(&refresh, None).unwrap_err(), AuthRejection::WrongTokenType);
}

#[test]
fn mask_phone_keeps_four_characters_at_each_end() {
    assert_eq!(mask_phone("+77771234567"), "+777****4567");
    assert_eq!(mask_phone("123456789"), "1234****6789");
    assert_eq!(mask_phone("12345678"), "12345678");
    assert_eq!(mask_phone(""), "");
}

#[test]
fn user_public_masks_the_phone() {
    let user = User {
        id: 11,
        phone: "+77771234567".to_string(),
        first_name: Some("Айгерим".to_string()),
        last_name: None,
        middle_name: None,
        email: Some("a@b.kz".to_string()),
        avatar_url: None,
        role: UserRole::Owner,
        is_verified: true,
        is_blocked: false,
        blocked_reason: None,
        blocked_at: None,
        last_login_at: None,
        created_at: 1,
        updated_at: 2,
    };
    let public = UserPublic::from(user);
    assert_eq!(public.id, 11);
    assert_eq!(public.phone, "+777****4567");
    assert_eq!(public.first_name.as_deref(), Some("Айгерим"));
    assert_eq!(public.last_name, None);
    assert_eq!(public.role, UserRole::Owner);
    assert!(public.is_verified);
}
