use lightwatch::command::{parse_command, parse_u64, Command};

#[test]
fn parse_status() {
    assert_eq!(parse_command("/status"), Some(Command::Status));
}

#[test]
fn parse_approve() {
    assert_eq!(parse_command("/approve 42"), Some(Command::Approve { user_id: 42 }));
}

#[test]
fn parse_disapprove() {
    assert_eq!(parse_command("/disapprove 7"), Some(Command::Disapprove { user_id: 7 }));
}

#[test]
fn parse_largest_id() {
    assert_eq!(
        parse_command("/approve 18446744073709551615"),
        Some(Command::Approve { user_id: u64::MAX })
    );
}

#[test]
fn parse_overflowing_id_fails() {
    assert_eq!(parse_command("/approve 18446744073709551616"), None);
    assert_eq!(parse_u64("99999999999999999999999"), None);
}

#[test]
fn parse_accepts_a_bot_mention() {
    assert_eq!(parse_command("/status@powerbot"), Some(Command::Status));
    assert_eq!(
        parse_command("/approve@powerbot 42"),
        Some(Command::Approve { user_id: 42 })
    );
    assert_eq!(
        parse_command("/disapprove@powerbot 7"),
        Some(Command::Disapprove { user_id: 7 })
    );
}

#[test]
fn parse_rejects_malformed_mentions() {
    assert_eq!(parse_command("/status@"), None);
    assert_eq!(parse_command("/status@ "), None);
    assert_eq!(parse_command("/status@bot extra"), None);
    assert_eq!(parse_command("/approve@bot"), None);
    assert_eq!(parse_command("/approve@ 5"), None);
}

#[test]
fn parse_rejects_non_commands() {
    assert_eq!(parse_command(""), None);
    assert_eq!(parse_command("status"), None);
    assert_eq!(parse_command("/status extra"), None);
    assert_eq!(parse_command("/approve"), None);
    assert_eq!(parse_command("/approve "), None);
    assert_eq!(parse_command("/approve  5"), None);
    assert_eq!(parse_command("/approve 1x"), None);
    assert_eq!(parse_command("/approve -1"), None);
    assert_eq!(parse_command("/disapprove ten"), None);
}

#[test]
fn parse_rejects_non_ascii_digits() {
    assert_eq!(parse_command("/approve \u{661}\u{662}\u{663}"), None);
    assert_eq!(parse_u64("\u{661}\u{662}\u{663}"), None);
}

#[test]
fn parse_u64_values() {
    assert_eq!(parse_u64("0"), Some(0));
    assert_eq!(parse_u64("0042"), Some(42));
    assert_eq!(parse_u64("18446744073709551615"), Some(u64::MAX));
    assert_eq!(parse_u64(""), None);
}
