use discovery::{bump_after_read, bump_verdict, minutes_left, push_decimal, slow_down_message, Status, UtcInstant, WriteAction, BUMP_COOLDOWN_MS};

const NEW_YEAR_2024: i64 = 1_704_067_200;

#[test]
fn cooldown_is_two_hours() {
    assert_eq!(BUMP_COOLDOWN_MS, 2 * 60 * 60 * 1000);
}

#[test]
fn minutes_left_round_up() {
    assert_eq!(minutes_left(0), 120);
    assert_eq!(minutes_left(1), 120);
    assert_eq!(minutes_left(60_000), 119);
    assert_eq!(minutes_left(7_140_000), 1);
    assert_eq!(minutes_left(7_139_999), 2);
    assert_eq!(minutes_left(7_199_999), 1);
    assert_eq!(minutes_left(-60_000), 121);
}

#[test]
fn decimal_rendering() {
    let mut s = String::from("n=");
    push_decimal(&mut s, 0);
    assert_eq!(s, "n=0");
    let mut s = String::new();
    push_decimal(&mut s, 1234567890);
    assert_eq!(s, "1234567890");
    let mut s = String::new();
    push_decimal(&mut s, u64::MAX);
    assert_eq!(s, u64::MAX.to_string());
}

#[test]
fn slow_down_text() {
    assert_eq!(slow_down_message(5), "Slow down! You can bump again in 5 minutes.");
}

#[test]
fn verdict_at_the_boundary() {
    assert!(bump_verdict(BUMP_COOLDOWN_MS).is_ok());
    assert!(bump_verdict(BUMP_COOLDOWN_MS + 1).is_ok());
    let e = bump_verdict(BUMP_COOLDOWN_MS - 1).unwrap_err();
    assert_eq!(e.status, Status::TooManyRequests);
    assert_eq!(e.status.code(), 429);
    assert_eq!(e.message, "Slow down! You can bump again in 1 minutes.");
}

#[test]
fn verdict_for_a_bump_in_the_future() {
    let e = bump_verdict(-3_600_000).unwrap_err();
    assert_eq!(e.message, "Slow down! You can bump again in 180 minutes.");
}

#[test]
fn bump_after_cooldown_stores_now() {
    let now = UtcInstant { secs: NEW_YEAR_2024 + 3 * 3600, nanos: 250_000_000 };
    match bump_after_read("srv".to_string(), "2024-01-01 00:00:00", now) {
        WriteAction::SetLastBumped { server_id, last_bumped } => {
            assert_eq!(server_id, "srv");
            assert_eq!(last_bumped, "2024-01-01 03:00:00");
        }
        other => panic!("unexpected {:?}", other),
    }
}

#[test]
fn bump_exactly_two_hours_later_is_allowed() {
    let now = UtcInstant { secs: NEW_YEAR_2024 + 2 * 3600, nanos: 0 };
    assert!(matches!(
        bump_after_read("srv".to_string(), "2024-01-01 00:00:00", now),
        WriteAction::SetLastBumped { .. }
    ));
}

#[test]
fn bump_within_cooldown_is_refused() {
    let now = UtcInstant { secs: NEW_YEAR_2024 + 3600, nanos: 0 };
    match bump_after_read("srv".to_string(), "2024-01-01 00:00:00", now) {
        WriteAction::Respond(Err(e)) => {
            assert_eq!(e.status, Status::TooManyRequests);
            assert_eq!(e.message, "Slow down! You can bump again in 60 minutes.");
        }
        other => panic!("unexpected {:?}", other),
    }
    let now = UtcInstant { secs: NEW_YEAR_2024 + 2 * 3600 - 1, nanos: 999_000_000 };
    match bump_after_read("srv".to_string(), "2024-01-01 00:00:00", now) {
        WriteAction::Respond(Err(e)) => assert_eq!(e.message, "Slow down! You can bump again in 1 minutes."),
        other => panic!("unexpected {:?}", other),
    }
}

#[test]
fn bump_with_unreadable_time_is_server_error() {
    let now = UtcInstant { secs: NEW_YEAR_2024, nanos: 0 };
    match bump_after_read("srv".to_string(), "yesterday", now) {
        WriteAction::Respond(Err(e)) => {
            assert_eq!(e.status, Status::InternalServerError);
            assert!(!e.message.is_empty());
            assert_ne!(e.message, "yesterday");
        }
        other => panic!("unexpected {:?}", other),
    }
}
