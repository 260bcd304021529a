use newsletter::{FormData, Outcome, Subscriber, SubscriberId, Timestamp, Value};

#[test]
fn form_keeps_its_fields() {
    let form = FormData::new(String::from("ursula@example.com"), String::from("Ursula"));
    assert_eq!(form.email(), "ursula@example.com");
    assert_eq!(form.name(), "Ursula");
}

#[test]
fn form_accepts_empty_fields() {
    let form = FormData::new(String::new(), String::new());
    assert_eq!(form.email(), "");
    assert_eq!(form.name(), "");
}

#[test]
fn insert_binds_the_fields_in_the_order_of_the_columns() {
    let subscriber = Subscriber {
        id: SubscriberId(0x00112233445566778899aabbccddeeff),
        email: String::from("ursula@example.com"),
        name: String::from("Ursula"),
        subscribed_at: Timestamp { secs: 1_700_000_000, nanos: 5 },
    };
    let insert = subscriber.insert();
    assert_eq!(
        insert.statement,
        "INSERT INTO subscriptions (id, email, name, subscribed_at) VALUES ($1, $2, $3, $4)"
    );
    assert_eq!(insert.values.len(), 4);
    assert!(matches!(
        &insert.values[0],
        Value::Id(id) if *id == SubscriberId(0x00112233445566778899aabbccddeeff)
    ));
    assert!(matches!(&insert.values[1], Value::Text(text) if text == "ursula@example.com"));
    assert!(matches!(&insert.values[2], Value::Text(text) if text == "Ursula"));
    assert!(matches!(
        &insert.values[3],
        Value::Time(at) if *at == (Timestamp { secs: 1_700_000_000, nanos: 5 })
    ));
}

#[test]
fn success_is_200_with_an_empty_body() {
    assert_eq!(Outcome::Success.status_code(), 200);
    let response = Outcome::Success.response();
    assert_eq!(response.status, 200);
    assert!(response.body.is_empty());
}

#[test]
fn failure_is_500_with_an_empty_body() {
    assert_eq!(Outcome::Failure.status_code(), 500);
    let response = Outcome::Failure.response();
    assert_eq!(response.status, 500);
    assert!(response.body.is_empty());
}
