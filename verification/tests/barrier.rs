use localhood_backend::config::Config;
use localhood_backend::error::{AppError, ErrorKind};
use localhood_backend::models::security::{
    AccessEvent, BarrierAction, CreateGuestAccessRequest, Delivery, GuestAccess,
    GuestAccessResponse, GuestAccessStatus, MICROS_PER_MINUTE,
};
use localhood_backend::models::security::BarrierAccessLog;
use localhood_backend::services::barrier_service::{
    history_window, BarrierService, DEFAULT_MAX_DURATION_MINUTES,
};
use localhood_backend::services::sms_service::{SmsDecision, SmsService};

const COMPLEX: u128 = 0xC0;
const RESIDENT: u128 = 0xA1;
const STRANGER: u128 = 0xB2;
const T0: i64 = 1_700_000_000_000_000;

fn config(sms_enabled: bool) -> Config {
    Config {
        host: "0.0.0.0".to_string(),
        port: 8080,
        database_url: "postgres://localhost/test".to_string(),
        jwt_secret: "secret".to_string(),
        jwt_access_expiry: 900,
        jwt_refresh_expiry: 2_592_000,
        sms_api_key: "key".to_string(),
        sms_sender: "LocalHood".to_string(),
        sms_enabled,
        minio_endpoint: "http://localhost:9000".to_string(),
        minio_access_key: "minioadmin".to_string(),
        minio_secret_key: "minioadmin".to_string(),
        minio_bucket: "localhood".to_string(),
        minio_public_url: None,
    }
}

fn service() -> BarrierService {
    BarrierService::new(SmsService::new(config(true)))
}

fn issue(s: &mut BarrierService, id: u128, code: &str, minutes: i32, now: i64) -> GuestAccess {
    s.issue_guest_access(
        id,
        code.to_string(),
        COMPLEX,
        RESIDENT,
        Some("Арман".to_string()),
        Some("+77770001122".to_string()),
        Some("123ABC02".to_string()),
        minutes,
        now,
    )
    .unwrap()
}

fn kind<T>(r: Result<T, AppError>) -> ErrorKind {
    match r {
        Ok(_) => panic!("expected a refusal"),
        Err(e) => e.kind(),
    }
}

#[test]
fn entry_right_after_creation_activates_and_logs() {
    let mut s = service();
    let created = s
        .create_guest_access(COMPLEX, RESIDENT, Some("Арман".to_string()), None, None, 30, T0)
        .unwrap();
    assert_eq!(created.status, GuestAccessStatus::Pending);
    assert_eq!(created.expires_at, T0 + 30 * MICROS_PER_MINUTE);
    assert_eq!(created.created_at, T0);
    assert_eq!(created.complex_id, COMPLEX);
    assert_eq!(created.created_by, RESIDENT);
    assert_eq!(created.entered_at, None);
    assert!(!created.owner_notified && !created.chairman_notified && !created.overstay_notified);
    assert_eq!(created.access_code.len(), 6);

    let entered = s.process_entry(&created.access_code, Some("777XYZ01"), Some(5), T0 + 1).unwrap();
    assert_eq!(entered.id, created.id);
    assert_eq!(entered.status, GuestAccessStatus::Active);
    assert_eq!(entered.entered_at, Some(T0 + 1));
    assert_eq!(entered.exited_at, None);
    assert_eq!(entered.expires_at, created.expires_at);

    let log = s.access_log();
    assert_eq!(log.len(), 1);
    assert_eq!(log[0].action, BarrierAction::Entry);
    assert_eq!(log[0].guest_access_id, Some(created.id));
    assert_eq!(log[0].complex_id, COMPLEX);
    assert_eq!(log[0].barrier_id, Some(5));
    assert_eq!(log[0].user_id, None);
    assert_eq!(log[0].vehicle_number.as_deref(), Some("777XYZ01"));
    assert_eq!(log[0].created_at, T0 + 1);

    // one notification is planned, and it is marked only once it was delivered
    let plan = s.entry_notification(&entered, Some("+77015556677"), T0 + 1);
    match plan {
        Some(SmsDecision::Send(m)) => {
            assert_eq!(m.recipient, "+77015556677");
            assert_eq!(m.from, "LocalHood");
            assert_eq!(m.text, "LocalHood: Гость Арман въехал в 22:13.");
        }
        _ => panic!("expected a message"),
    }
    assert!(!s.get(created.id).unwrap().owner_notified);
    assert!(!s.confirm_entry_notice(created.id, Delivery::Failed));
    assert!(!s.get(created.id).unwrap().owner_notified);
    assert!(s.confirm_entry_notice(created.id, Delivery::Delivered));
    assert!(s.get(created.id).unwrap().owner_notified);
    assert_eq!(s.get(created.id).unwrap().status, GuestAccessStatus::Active);
}

#[test]
fn second_entry_on_the_same_code_is_not_found() {
    let mut s = service();
    issue(&mut s, 1, "482913", 30, T0);
    assert!(s.process_entry("482913", None, None, T0 + 1).is_ok());
    let second = s.process_entry("482913", None, None, T0 + 2);
    match second {
        Err(AppError::NotFound(text)) => assert_eq!(text, "Код доступа не найден или истёк"),
        _ => panic!("expected NotFound"),
    }
    assert_eq!(s.access_log().len(), 1);
    assert_eq!(s.get(1).unwrap().entered_at, Some(T0 + 1));
}

#[test]
fn expiry_sweep_expires_and_entry_then_fails() {
    let mut s = service();
    issue(&mut s, 1, "111111", 1, T0);
    issue(&mut s, 2, "222222", 30, T0);
    let later = T0 + MICROS_PER_MINUTE;
    // the deadline itself is too late
    assert_eq!(s.expire_old_access(later - 1), 0);
    assert_eq!(s.get(1).unwrap().status, GuestAccessStatus::Pending);
    assert_eq!(s.expire_old_access(later), 1);
    assert_eq!(s.get(1).unwrap().status, GuestAccessStatus::Expired);
    assert_eq!(s.get(2).unwrap().status, GuestAccessStatus::Pending);
    assert_eq!(s.expire_old_access(later), 0);
    assert_eq!(kind(s.process_entry("111111", None, None, later + 1)), ErrorKind::NotFound);
    assert_eq!(kind(s.process_entry("111111", None, None, T0)), ErrorKind::NotFound);
    assert!(s.access_log().is_empty());
    assert_eq!(s.get(1).unwrap().entered_at, None);
}

#[test]
fn expired_code_is_refused_before_the_sweep_runs() {
    let mut s = service();
    let a = issue(&mut s, 1, "111111", 1, T0);
    assert_eq!(kind(s.process_entry("111111", None, None, a.expires_at + 1)), ErrorKind::NotFound);
    assert_eq!(kind(s.process_entry("111111", None, None, a.expires_at)), ErrorKind::NotFound);
    assert_eq!(s.get(1).unwrap().status, GuestAccessStatus::Pending);
    assert!(s.process_entry("111111", None, None, a.expires_at - 1).is_ok());
}

#[test]
fn overstay_is_told_once() {
    let mut s = service();
    issue(&mut s, 1, "111111", 30, T0);
    s.process_entry("111111", None, None, T0 + 10).unwrap();
    let leave_by = T0 + 10 + 30 * MICROS_PER_MINUTE;
    assert!(s.check_overstays(leave_by).is_empty());
    let now = T0 + 10 + 60 * MICROS_PER_MINUTE;
    let due = s.check_overstays(now);
    assert_eq!(due.len(), 1);
    assert_eq!(due[0].id, 1);
    match s.overstay_notification(&due[0], Some("+77015556677")) {
        Some(SmsDecision::Send(m)) => {
            assert_eq!(m.recipient, "+77015556677");
            assert_eq!(m.text, "LocalHood: Гость Арман не выехал. Прошло 30 мин.");
        }
        _ => panic!("expected a message"),
    }
    assert!(s.overstay_notification(&due[0], None).is_none());
    // a failed attempt is made again
    assert!(!s.confirm_overstay_notice(1, Delivery::Failed));
    assert_eq!(s.check_overstays(now).len(), 1);
    // a delivered one is not
    assert!(s.confirm_overstay_notice(1, Delivery::Delivered));
    let record = s.get(1).unwrap();
    assert!(record.overstay_notified);
    assert_eq!(record.status, GuestAccessStatus::Active);
    assert!(s.check_overstays(now).is_empty());
    assert!(s.check_overstays(now + 1_000_000_000).is_empty());
    assert!(!s.confirm_overstay_notice(99, Delivery::Delivered));
}

#[test]
fn enter_then_exit_completes_with_two_log_lines() {
    let mut s = service();
    issue(&mut s, 1, "111111", 30, T0);
    s.process_entry("111111", None, Some(1), T0 + 5).unwrap();
    let done = s.process_exit("111111", Some(2), T0 + 900).unwrap();
    assert_eq!(done.status, GuestAccessStatus::Completed);
    assert_eq!(done.entered_at, Some(T0 + 5));
    assert_eq!(done.exited_at, Some(T0 + 900));
    assert!(done.exited_at.unwrap() >= done.entered_at.unwrap());
    let log = s.access_log();
    assert_eq!(log.len(), 2);
    assert_eq!(log[0].action, BarrierAction::Entry);
    assert_eq!(log[1].action, BarrierAction::Exit);
    assert_eq!(log[0].vehicle_number.as_deref(), Some("123ABC02"));
    assert_eq!(log[1].vehicle_number.as_deref(), Some("123ABC02"));
    assert_eq!(log[1].barrier_id, Some(2));
    assert_eq!(log[1].created_at, T0 + 900);
    match s.process_exit("111111", None, T0 + 901) {
        Err(AppError::NotFound(text)) => assert_eq!(text, "Активный гостевой доступ не найден"),
        _ => panic!("expected NotFound"),
    }
    assert_eq!(kind(s.process_entry("111111", None, None, T0 + 902)), ErrorKind::NotFound);
    assert_eq!(s.access_log().len(), 2);
}

#[test]
fn only_the_creator_cancels_and_only_while_pending() {
    let mut s = service();
    issue(&mut s, 1, "111111", 30, T0);
    assert!(matches!(s.cancel_access(1, STRANGER), Err(AppError::Forbidden)));
    assert_eq!(s.get(1).unwrap().status, GuestAccessStatus::Pending);
    assert!(s.cancel_access(1, RESIDENT).is_ok());
    assert_eq!(s.get(1).unwrap().status, GuestAccessStatus::Cancelled);
    // cancelled twice, cancelled by a stranger afterwards, and cancelling what is not there
    match s.cancel_access(1, RESIDENT) {
        Err(AppError::NotFound(text)) => assert_eq!(text, "Гостевой доступ не найден"),
        _ => panic!("expected NotFound"),
    }
    assert!(matches!(s.cancel_access(1, STRANGER), Err(AppError::Forbidden)));
    assert_eq!(kind(s.cancel_access(99, RESIDENT)), ErrorKind::NotFound);
    assert_eq!(kind(s.process_entry("111111", None, None, T0 + 1)), ErrorKind::NotFound);
}

#[test]
fn active_and_terminal_accesses_are_not_cancelled() {
    let mut s = service();
    issue(&mut s, 1, "111111", 30, T0);
    issue(&mut s, 2, "222222", 1, T0);
    s.process_entry("111111", None, None, T0 + 1).unwrap();
    assert_eq!(kind(s.cancel_access(1, RESIDENT)), ErrorKind::NotFound);
    assert_eq!(s.get(1).unwrap().status, GuestAccessStatus::Active);
    s.process_exit("111111", None, T0 + 2).unwrap();
    assert_eq!(kind(s.cancel_access(1, RESIDENT)), ErrorKind::NotFound);
    assert_eq!(s.get(1).unwrap().status, GuestAccessStatus::Completed);
    s.expire_old_access(T0 + 2 * MICROS_PER_MINUTE);
    assert_eq!(kind(s.cancel_access(2, RESIDENT)), ErrorKind::NotFound);
    assert_eq!(s.get(2).unwrap().status, GuestAccessStatus::Expired);
}

#[test]
fn exit_without_entry_is_not_found() {
    let mut s = service();
    issue(&mut s, 1, "111111", 30, T0);
    assert_eq!(kind(s.process_exit("111111", None, T0 + 1)), ErrorKind::NotFound);
    assert_eq!(s.get(1).unwrap().status, GuestAccessStatus::Pending);
    assert_eq!(kind(s.process_exit("000000", None, T0 + 1)), ErrorKind::NotFound);
    assert_eq!(kind(s.process_entry("000000", None, None, T0 + 1)), ErrorKind::NotFound);
}

#[test]
fn issue_checks_the_ceiling_the_deadline_and_the_code() {
    let mut s = service();
    assert_eq!(s.max_duration_minutes(), DEFAULT_MAX_DURATION_MINUTES);
    assert_eq!(DEFAULT_MAX_DURATION_MINUTES, 240);
    let r = s.issue_guest_access(1, "111111".into(), COMPLEX, RESIDENT, None, None, None, 241, T0);
    assert_eq!(kind(r), ErrorKind::Validation);
    let r = s.issue_guest_access(1, "111111".into(), COMPLEX, RESIDENT, None, None, None, 1, i64::MAX);
    assert_eq!(kind(r), ErrorKind::Validation);
    assert!(s.get(1).is_none());
    let a = s
        .issue_guest_access(1, "111111".into(), COMPLEX, RESIDENT, None, None, None, 240, T0)
        .unwrap();
    assert_eq!(a.expires_at, T0 + 240 * MICROS_PER_MINUTE);
    assert_eq!(a.guest_name, None);
    // the code is taken while the access is pending or active
    let r = s.issue_guest_access(2, "111111".into(), COMPLEX, RESIDENT, None, None, None, 30, T0);
    assert_eq!(kind(r), ErrorKind::Conflict);
    let r = s.issue_guest_access(1, "333333".into(), COMPLEX, RESIDENT, None, None, None, 30, T0);
    assert_eq!(kind(r), ErrorKind::Conflict);
    s.process_entry("111111", None, None, T0 + 1).unwrap();
    let r = s.issue_guest_access(2, "111111".into(), COMPLEX, RESIDENT, None, None, None, 30, T0);
    assert_eq!(kind(r), ErrorKind::Conflict);
    // and free again once it is completed
    s.process_exit("111111", None, T0 + 2).unwrap();
    issue(&mut s, 2, "111111", 30, T0 + 3);
    let again = s.process_entry("111111", None, None, T0 + 4).unwrap();
    assert_eq!(again.id, 2);
    let other = BarrierService::with_max_duration(SmsService::new(config(true)), 10);
    assert_eq!(other.max_duration_minutes(), 10);
}

#[test]
fn restore_takes_only_what_fits() {
    let mut s = service();
    let mut record = issue(&mut service(), 7, "777777", 30, T0);
    record.status = GuestAccessStatus::Active;
    assert_eq!(kind(s.restore(record.clone())), ErrorKind::Validation);
    record.entered_at = Some(T0 + 1);
    assert!(record.is_well_formed());
    assert!(s.restore(record.clone()).is_ok());
    assert_eq!(kind(s.restore(record.clone())), ErrorKind::Conflict);
    let mut twin = record.clone();
    twin.id = 8;
    assert_eq!(kind(s.restore(twin.clone())), ErrorKind::Conflict);
    twin.status = GuestAccessStatus::Completed;
    twin.exited_at = Some(T0 + 2);
    assert!(s.restore(twin).is_ok());
    assert_eq!(s.process_exit("777777", None, T0 + 3).unwrap().id, 7);
}

#[test]
fn listings_are_newest_first() {
    let mut s = service();
    issue(&mut s, 1, "111111", 30, T0 + 10);
    issue(&mut s, 2, "222222", 30, T0 + 30);
    issue(&mut s, 3, "333333", 30, T0 + 20);
    s.issue_guest_access(4, "444444".into(), 0xDD, RESIDENT, None, None, None, 30, T0 + 40).unwrap();
    s.cancel_access(3, RESIDENT).unwrap();
    s.process_entry("222222", None, None, T0 + 31).unwrap();
    let ids: Vec<u128> = s.get_active_guests(COMPLEX).iter().map(|a| a.id).collect();
    assert_eq!(ids, vec![2, 1]);
    let all: Vec<u128> =
        s.get_access_history(COMPLEX, 10, 0).unwrap().iter().map(|a| a.id).collect();
    assert_eq!(all, vec![2, 3, 1]);
    let page: Vec<u128> =
        s.get_access_history(COMPLEX, 1, 1).unwrap().iter().map(|a| a.id).collect();
    assert_eq!(page, vec![3]);
    assert!(s.get_access_history(COMPLEX, 5, 3).unwrap().is_empty());
    assert!(s.get_access_history(COMPLEX, 0, 0).unwrap().is_empty());
    assert_eq!(s.get_access_history(COMPLEX, i64::MAX, 1).unwrap().len(), 2);
    assert_eq!(kind(s.get_access_history(COMPLEX, -1, 0)), ErrorKind::Validation);
    assert_eq!(kind(s.get_access_history(COMPLEX, 1, -1)), ErrorKind::Validation);
    assert!(s.get_active_guests(0xEE).is_empty());
}

#[test]
fn the_transition_table_has_four_edges() {
    let statuses = [
        GuestAccessStatus::Pending,
        GuestAccessStatus::Active,
        GuestAccessStatus::Expired,
        GuestAccessStatus::Completed,
        GuestAccessStatus::Cancelled,
    ];
    let events =
        [AccessEvent::Entry, AccessEvent::Exit, AccessEvent::Cancel, AccessEvent::Expire];
    let mut edges = Vec::new();
    for from in statuses {
        for event in events {
            if let Some(to) = from.next(event) {
                edges.push((from, event, to));
            }
        }
    }
    assert_eq!(
        edges,
        vec![
            (GuestAccessStatus::Pending, AccessEvent::Entry, GuestAccessStatus::Active),
            (GuestAccessStatus::Pending, AccessEvent::Cancel, GuestAccessStatus::Cancelled),
            (GuestAccessStatus::Pending, AccessEvent::Expire, GuestAccessStatus::Expired),
            (GuestAccessStatus::Active, AccessEvent::Exit, GuestAccessStatus::Completed),
        ]
    );
    assert!(!GuestAccessStatus::Pending.is_terminal());
    assert!(!GuestAccessStatus::Active.is_terminal());
    assert!(GuestAccessStatus::Expired.is_terminal());
    assert!(GuestAccessStatus::Completed.is_terminal());
    assert!(GuestAccessStatus::Cancelled.is_terminal());
    assert_eq!(GuestAccessStatus::default(), GuestAccessStatus::Pending);
}

#[test]
fn notifications_that_are_switched_off_count_as_delivered() {
    let mut s = BarrierService::new(SmsService::new(config(false)));
    let a = issue(&mut s, 1, "111111", 30, T0);
    assert!(matches!(s.entry_notification(&a, Some("+7701"), T0), Some(SmsDecision::Skip)));
    assert!(matches!(s.overstay_notification(&a, Some("+7701")), Some(SmsDecision::Skip)));
    assert!(s.entry_notification(&a, None, T0).is_none());
}

#[test]
fn a_guest_without_a_name_is_called_guest() {
    let mut s = service();
    let a = s
        .issue_guest_access(1, "111111".into(), COMPLEX, RESIDENT, None, None, None, -5, 0)
        .unwrap();
    match s.entry_notification(&a, Some("+7701"), -1) {
        Some(SmsDecision::Send(m)) => assert_eq!(m.text, "LocalHood: Гость Гость въехал в 23:59."),
        _ => panic!("expected a message"),
    }
    match s.overstay_notification(&a, Some("+7701")) {
        Some(SmsDecision::Send(m)) => {
            assert_eq!(m.text, "LocalHood: Гость Гость не выехал. Прошло -5 мин.")
        }
        _ => panic!("expected a message"),
    }
}

#[test]
fn response_shows_the_access() {
    let mut s = service();
    let a = issue(&mut s, 1, "111111", 30, T0);
    assert!(s.attach_qr_code(1, "data:image/png;base64,AAAA".to_string()));
    assert!(!s.attach_qr_code(2, "x".to_string()));
    let shown = GuestAccessResponse::from(s.get(1).unwrap());
    assert_eq!(shown.id, a.id);
    assert_eq!(shown.access_code, "111111");
    assert_eq!(shown.qr_code_url.as_deref(), Some("data:image/png;base64,AAAA"));
    assert_eq!(shown.guest_name.as_deref(), Some("Арман"));
    assert_eq!(shown.duration_minutes, 30);
    assert_eq!(shown.status, GuestAccessStatus::Pending);
    assert_eq!(shown.expires_at, a.expires_at);
    let request = CreateGuestAccessRequest {
        guest_name: None,
        guest_phone: None,
        vehicle_number: None,
        duration_minutes: None,
    };
    assert_eq!(request.requested_duration(), 30);
    let request = CreateGuestAccessRequest { duration_minutes: Some(45), ..request };
    assert_eq!(request.requested_duration(), 45);
}

#[test]
fn overstaying_is_judged_from_the_entry_time() {
    let mut s = service();
    let a = issue(&mut s, 1, "111111", 30, T0);
    assert!(!a.is_overstaying(i64::MAX));
    let inside = s.process_entry("111111", None, None, T0 + 29 * MICROS_PER_MINUTE).unwrap();
    assert!(!inside.is_overstaying(T0 + 59 * MICROS_PER_MINUTE));
    assert!(inside.is_overstaying(T0 + 59 * MICROS_PER_MINUTE + 1));
    let _ = BarrierService::new(SmsService::new(config(true))).sms_service();
}

#[test]
fn the_history_of_the_barrier_is_latest_first() {
    let mut s = service();
    issue(&mut s, 1, "111111", 30, T0);
    s.issue_guest_access(2, "222222".into(), 0xDD, RESIDENT, None, None, None, 30, T0).unwrap();
    s.process_entry("111111", Some("SEEN01"), Some(9), T0 + 10).unwrap();
    s.open_barrier(COMPLEX, RESIDENT, T0 + 20);
    s.process_entry("222222", None, None, T0 + 25).unwrap();
    s.process_exit("111111", None, T0 + 30).unwrap();
    s.restore_line(BarrierAccessLog {
        complex_id: COMPLEX,
        barrier_id: None,
        user_id: None,
        guest_access_id: Some(77),
        action: BarrierAction::Exit,
        vehicle_number: None,
        created_at: T0 + 15,
    });
    assert_eq!(s.access_log().len(), 5);

    let history = s.get_barrier_history(COMPLEX, 10, 0).unwrap();
    let times: Vec<i64> = history.iter().map(|l| l.created_at - T0).collect();
    assert_eq!(times, vec![30, 20, 15, 10]);
    assert_eq!(history[0].action, BarrierAction::Exit);
    assert_eq!(history[1].user_id, Some(RESIDENT));
    assert_eq!(history[1].guest_access_id, None);
    assert_eq!(history[1].action, BarrierAction::Entry);
    assert_eq!(history[3].vehicle_number.as_deref(), Some("SEEN01"));
    assert_eq!(s.guest_name_for(&history[0]).as_deref(), Some("Арман"));
    assert_eq!(s.guest_name_for(&history[1]), None);
    assert_eq!(s.guest_name_for(&history[2]), None);

    let page = s.get_barrier_history(COMPLEX, 2, 1).unwrap();
    let times: Vec<i64> = page.iter().map(|l| l.created_at - T0).collect();
    assert_eq!(times, vec![20, 15]);
    assert!(s.get_barrier_history(COMPLEX, 2, 4).unwrap().is_empty());
    assert_eq!(s.get_barrier_history(0xDD, 100, 0).unwrap().len(), 1);
    assert_eq!(kind(s.get_barrier_history(COMPLEX, -1, 0)), ErrorKind::Validation);
    assert_eq!(kind(s.get_barrier_history(COMPLEX, 0, -1)), ErrorKind::Validation);
}

#[test]
fn the_window_of_a_page_is_bounded() {
    assert_eq!(history_window(None, None), (50, 0));
    assert_eq!(history_window(Some(3), Some(20)), (20, 60));
    assert_eq!(history_window(Some(2), Some(1000)), (100, 200));
    assert_eq!(history_window(Some(1), None), (50, 50));
    assert_eq!(history_window(Some(-1), Some(10)), (10, -10));
    assert_eq!(history_window(Some(2), Some(-5)), (-5, -10));
    assert_eq!(history_window(Some(i64::MAX), Some(100)), (100, i64::MAX));
    assert_eq!(history_window(Some(i64::MIN), Some(100)), (100, i64::MIN));
    assert_eq!(history_window(Some(i64::MIN), Some(-2)), (-2, i64::MAX));
}

#[test]
fn fresh_ids_are_random_version_four() {
    let mut s = service();
    let mut ids = Vec::new();
    for i in 0..20 {
        if let Ok(a) = s.create_guest_access(COMPLEX, RESIDENT, None, None, None, 30, T0 + i) {
            assert_eq!(
                a.id & 0x0000_0000_0000_f000_c000_0000_0000_0000,
                0x0000_0000_0000_4000_8000_0000_0000_0000
            );
            ids.push(a.id);
        }
    }
    assert!(ids.len() >= 19);
    ids.sort();
    ids.dedup();
    assert!(ids.len() >= 19);
}
