use lightwatch::dispatch::{handle_status, StatusAction};
use lightwatch::instant::Instant;
use lightwatch::store::{
    format_instant, instant_of_read, power_on_time_key, wake_up_time_key, RedisClient, StoreError,
};

const T: i64 = 1_700_000_000_000;

#[test]
fn keys_match_the_store_layout() {
    assert_eq!(power_on_time_key(), "power_on_time");
    assert_eq!(wake_up_time_key(), "wake_up_time");
}

#[test]
fn connect_accepts_a_redis_url() {
    assert!(RedisClient::connect("redis://127.0.0.1/").is_ok());
}

#[test]
fn connect_rejects_junk() {
    assert!(RedisClient::connect("not a url").is_err());
}

#[test]
fn timestamps_parse() {
    assert_eq!(
        instant_of_read(Ok(Some("2021-01-01T00:00:00Z".to_string()))),
        Ok(Instant { millis: 1_609_459_200_000 })
    );
    assert_eq!(
        instant_of_read(Ok(Some("1970-01-01T00:00:00+00:00".to_string()))),
        Ok(Instant { millis: 0 })
    );
    assert_eq!(
        instant_of_read(Ok(Some("2021-01-01T01:00:00+01:00".to_string()))),
        Ok(Instant { millis: 1_609_459_200_000 })
    );
}

#[test]
fn bad_reads_are_errors() {
    assert_eq!(instant_of_read(Ok(None)), Err(StoreError::Missing));
    assert_eq!(
        instant_of_read(Ok(Some("yesterday".to_string()))),
        Err(StoreError::Malformed)
    );
    assert_eq!(
        instant_of_read(Err(StoreError::Unavailable)),
        Err(StoreError::Unavailable)
    );
}

#[test]
fn timestamps_render() {
    assert_eq!(format_instant(&Instant { millis: 0 }), "1970-01-01T00:00:00+00:00");
}

#[test]
fn rendering_round_trips_through_parsing() {
    let t = Instant { millis: T + 123 };
    let rendered = format_instant(&t);
    assert_eq!(instant_of_read(Ok(Some(rendered))), Ok(t));
}

#[test]
fn unreachable_store_refuses_a_plain_user() {
    // nothing listens on this port, so every read fails; the query from a
    // non-administrator must be refused, never answered
    let client = RedisClient::connect("redis://127.0.0.1:1/").unwrap();
    let now = Instant { millis: T };
    match handle_status(&client, Some(5), 99, now, now) {
        StatusAction::Refuse { text } => {
            assert_eq!(text, "You are not entitled to use this command");
        },
        _ => panic!("expected a refusal"),
    }
}

#[test]
fn unreachable_store_silences_the_admin() {
    // the administrator is always allowed, but with no readable resumption
    // slot there is no on-span to report
    let client = RedisClient::connect("redis://127.0.0.1:1/").unwrap();
    let now = Instant { millis: T };
    assert!(matches!(
        handle_status(&client, Some(99), 99, now, now),
        StatusAction::Silent
    ));
}
