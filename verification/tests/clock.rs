use localhood_backend::config::Config;
use localhood_backend::models::security::GuestAccess;
use localhood_backend::services::barrier_service::BarrierService;
use localhood_backend::services::sms_service::{SmsDecision, SmsService};

fn service() -> BarrierService {
    BarrierService::new(SmsService::new(Config {
        host: String::new(),
        port: 0,
        database_url: String::new(),
        jwt_secret: String::new(),
        jwt_access_expiry: 0,
        jwt_refresh_expiry: 0,
        sms_api_key: String::new(),
        sms_sender: "S".to_string(),
        sms_enabled: true,
        minio_endpoint: String::new(),
        minio_access_key: String::new(),
        minio_secret_key: String::new(),
        minio_bucket: String::new(),
        minio_public_url: None,
    }))
}

fn access() -> GuestAccess {
    GuestAccess::issue(1, 2, 3, Some("G".to_string()), None, None, "123456".to_string(), 30, 0)
        .unwrap()
}

fn time_in_message(now: i64) -> Option<String> {
    match service().entry_notification(&access(), Some("+7701"), now) {
        Some(SmsDecision::Send(m)) => {
            let text = m.text;
            let start = text.find(" въехал в ").unwrap() + " въехал в ".len();
            Some(text[start..text.len() - 1].to_string())
        }
        Some(SmsDecision::Skip) => panic!("messages are on"),
        None => None,
    }
}

fn expected(now: i64) -> String {
    let second_of_day = now.div_euclid(1_000_000).rem_euclid(86_400);
    format!("{:02}:{:02}", second_of_day / 3_600, (second_of_day % 3_600) / 60)
}

#[test]
fn the_time_of_day_is_told_in_utc() {
    assert_eq!(time_in_message(0).unwrap(), "00:00");
    assert_eq!(time_in_message(1_662_921_288_000_000).unwrap(), "18:34");
    assert_eq!(time_in_message(-1).unwrap(), "23:59");
    assert_eq!(time_in_message(-2_208_936_075_000_000).unwrap(), "14:38");
    assert_eq!(time_in_message(86_399_999_999).unwrap(), "23:59");
    assert_eq!(time_in_message(86_400_000_000).unwrap(), "00:00");
    assert_eq!(time_in_message(45_296_000_000).unwrap(), "12:34");
}

#[test]
fn the_time_of_day_is_told_for_every_moment_in_reach() {
    let bound: i64 = 8_000_000_000_000_000_000;
    let mut now = -bound;
    let step = bound / 500 + 7_777_777;
    while now <= bound - step {
        assert_eq!(time_in_message(now).unwrap(), expected(now), "{}", now);
        now += step;
    }
    assert_eq!(time_in_message(bound).unwrap(), expected(bound));
    assert_eq!(time_in_message(-bound).unwrap(), expected(-bound));
}

#[test]
fn a_moment_out_of_reach_is_told_rightly_or_not_at_all() {
    for now in [i64::MAX, i64::MIN, 9_000_000_000_000_000_000, -9_000_000_000_000_000_000] {
        if let Some(time) = time_in_message(now) {
            assert_eq!(time, expected(now));
        }
    }
}
