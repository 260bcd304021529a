use newsletter::{CorrelationId, Entry, Level};

#[test]
fn adding_line_holds_tag_email_and_name() {
    let entry = Entry::adding(
        CorrelationId(0xa1a2a3a4b1b2c1c2d1d2d3d4d5d6d7d8),
        "ursula@example.com",
        "Ursula",
    );
    assert_eq!(entry.level, Level::Info);
    assert_eq!(
        entry.message,
        "request_id a1a2a3a4-b1b2-c1c2-d1d2-d3d4d5d6d7d8 - Adding 'ursula@example.com' 'Ursula' as a new subscriber"
    );
}

#[test]
fn saving_line_holds_the_tag() {
    let entry = Entry::saving(CorrelationId(0));
    assert_eq!(entry.level, Level::Info);
    assert_eq!(
        entry.message,
        "request_id 00000000-0000-0000-0000-000000000000 - Saving new subscriber in the database"
    );
}

#[test]
fn saved_line_holds_the_tag() {
    let entry = Entry::saved(CorrelationId(u128::MAX));
    assert_eq!(entry.level, Level::Info);
    assert_eq!(
        entry.message,
        "request_id ffffffff-ffff-ffff-ffff-ffffffffffff - New subscriber has been saved!"
    );
}

#[test]
fn failed_line_is_an_error_and_holds_the_detail() {
    let entry = Entry::failed(
        CorrelationId(0x0123456789abcdef0123456789abcdef),
        "Database(PgDatabaseError { code: \"23505\" })",
    );
    assert_eq!(entry.level, Level::Error);
    assert_eq!(
        entry.message,
        "request_id 01234567-89ab-cdef-0123-456789abcdef - Failed to execute query: Database(PgDatabaseError { code: \"23505\" })"
    );
}

#[test]
fn tag_is_written_in_lower_case_with_the_high_digits_first() {
    let entry = Entry::saving(CorrelationId(0xABCDEF00000000000000000000000001));
    assert_eq!(
        entry.message,
        "request_id abcdef00-0000-0000-0000-000000000001 - Saving new subscriber in the database"
    );
}

#[test]
fn tag_reads_back_as_the_same_identifier() {
    let ids: [u128; 5] = [
        0,
        1,
        u128::MAX,
        0x0123456789ab4def8123456789abcdef,
        0xfedcba98765443218765432100000000,
    ];
    for id in ids {
        let entry = Entry::saved(CorrelationId(id));
        let tag = &entry.message[11..47];
        assert_eq!(uuid::Uuid::parse_str(tag).unwrap().as_u128(), id);
        assert_eq!(&entry.message[..11], "request_id ");
        assert_eq!(&entry.message[47..50], " - ");
    }
}

#[test]
fn lines_of_different_requests_differ() {
    let first = Entry::saving(CorrelationId(0x10));
    let second = Entry::saving(CorrelationId(0x01));
    assert_ne!(first.message, second.message);
}
