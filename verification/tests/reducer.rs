//! Tests of the reducer's transition table on concrete models and intents.

use signup_ping::signup::PingResponse;
use signup_ping::state::{field_value, Intent, Model};

fn ok(v: &str) -> Result<String, String> {
    Ok(String::from(v))
}

#[test]
fn field_changed_sets_field() {
    let m = Model::<PingResponse>::init();
    let (m, step) = m.reduce(Intent::FieldChanged(String::from("email"), ok("a@b.com")));
    assert!(step.rerender);
    assert!(!step.dispatch);
    let v = field_value(&m.fields, &String::from("email"));
    assert_eq!(v, Some(String::from("a@b.com")));
}

#[test]
fn field_changed_overwrites_value() {
    let m = Model::<PingResponse>::init();
    let (m, _) = m.reduce(Intent::FieldChanged(String::from("email"), ok("first")));
    let (m, _) = m.reduce(Intent::FieldChanged(String::from("email"), ok("second")));
    assert_eq!(m.fields.len(), 1);
    let v = field_value(&m.fields, &String::from("email"));
    assert_eq!(v, Some(String::from("second")));
}

#[test]
fn field_changed_keeps_other_fields() {
    let m = Model::<PingResponse>::init();
    let (m, _) = m.reduce(Intent::FieldChanged(String::from("email"), ok("a@b.com")));
    let (m, _) = m.reduce(Intent::FieldChanged(String::from("name"), ok("ada")));
    assert_eq!(m.fields.len(), 2);
    assert_eq!(field_value(&m.fields, &String::from("email")), Some(String::from("a@b.com")));
    assert_eq!(field_value(&m.fields, &String::from("name")), Some(String::from("ada")));
}

#[test]
fn field_changed_error_sets_last_error() {
    let m = Model::<PingResponse>::init();
    let (m, step) = m.reduce(Intent::FieldChanged(
        String::from("email"),
        Err(String::from("not a text event")),
    ));
    assert!(step.rerender);
    assert!(!step.dispatch);
    assert_eq!(m.last_error, Some(String::from("not a text event")));
    assert!(m.fields.is_empty());
    assert!(!m.request_in_flight);
}

#[test]
fn field_changed_leaves_request_state_alone() {
    // An in-flight request, a stored response and a stored error all
    // survive a field edit untouched.
    let m = Model::<PingResponse>::init();
    let (m, _) = m.reduce(Intent::TriggerAction);
    let (m, _) = m.reduce(Intent::RequestCompleted(Ok(PingResponse {
        status: String::from("OK"),
    })));
    let (m, _) = m.reduce(Intent::TriggerAction);
    let (m, _) = m.reduce(Intent::RequestCompleted(Err(String::from("boom"))));
    let (m, _) = m.reduce(Intent::TriggerAction);
    let before = m.clone();
    let (m, step) = m.reduce(Intent::FieldChanged(String::from("email"), ok("a@b.com")));
    assert!(step.rerender);
    assert!(!step.dispatch);
    assert_eq!(m.request_in_flight, before.request_in_flight);
    assert_eq!(m.last_response, before.last_response);
    assert_eq!(m.last_error, before.last_error);
}

#[test]
fn trigger_dispatches_once() {
    let m = Model::<PingResponse>::init();
    let (m, step) = m.reduce(Intent::TriggerAction);
    assert!(step.rerender);
    assert!(step.dispatch);
    assert!(m.request_in_flight);
}

#[test]
fn trigger_while_in_flight_is_swallowed() {
    let m = Model::<PingResponse>::init();
    let (m, _) = m.reduce(Intent::TriggerAction);
    let before = m.clone();
    let (m, step) = m.reduce(Intent::TriggerAction);
    assert!(!step.rerender);
    assert!(!step.dispatch);
    assert_eq!(m, before);
}

#[test]
fn completion_ok_stores_response_and_keeps_stale_error() {
    let m = Model::<PingResponse>::init();
    let (m, _) = m.reduce(Intent::TriggerAction);
    let (m, _) = m.reduce(Intent::RequestCompleted(Err(String::from("first failure"))));
    let (m, _) = m.reduce(Intent::TriggerAction);
    let (m, step) = m.reduce(Intent::RequestCompleted(Ok(PingResponse {
        status: String::from("OK"),
    })));
    assert!(step.rerender);
    assert!(!m.request_in_flight);
    assert_eq!(m.last_response, Some(PingResponse { status: String::from("OK") }));
    // The stale error is left as it was, not cleared.
    assert_eq!(m.last_error, Some(String::from("first failure")));
}

#[test]
fn completion_err_stores_error_and_keeps_stale_response() {
    let m = Model::<PingResponse>::init();
    let (m, _) = m.reduce(Intent::TriggerAction);
    let (m, step) = m.reduce(Intent::RequestCompleted(Err(String::from("network down"))));
    assert!(step.rerender);
    assert!(!m.request_in_flight);
    assert_eq!(m.last_error, Some(String::from("network down")));
    assert_eq!(m.last_response, None);
}

#[test]
fn completion_twice_is_a_noop() {
    let m = Model::<PingResponse>::init();
    let (m, _) = m.reduce(Intent::TriggerAction);
    let payload = PingResponse { status: String::from("OK") };
    let (m, _) = m.reduce(Intent::RequestCompleted(Ok(payload.clone())));
    let first = m.clone();
    let (m, step) = m.reduce(Intent::RequestCompleted(Ok(payload)));
    assert!(!step.rerender);
    assert!(!step.dispatch);
    assert_eq!(m, first);
}

#[test]
fn stale_completion_on_fresh_model_is_ignored() {
    let m = Model::<PingResponse>::init();
    let before = m.clone();
    let (m, step) = m.reduce(Intent::RequestCompleted(Err(String::from("too late"))));
    assert!(!step.rerender);
    assert!(!step.dispatch);
    assert_eq!(m, before);
}

#[test]
fn at_most_one_request_outstanding_over_a_run() {
    // Count requests the way the transport sees them: a dispatching step
    // hands one over, a settlement is only delivered while one is
    // outstanding. The count never passes one.
    let mut outstanding = 0;
    let mut m = Model::<PingResponse>::init();
    let intents = [
        Intent::FieldChanged(String::from("email"), ok("a@b.com")),
        Intent::TriggerAction,
        Intent::TriggerAction,
        Intent::FieldChanged(String::from("email"), ok("b@c.org")),
        Intent::TriggerAction,
        Intent::RequestCompleted(Ok(PingResponse { status: String::from("OK") })),
        Intent::TriggerAction,
        Intent::TriggerAction,
        Intent::RequestCompleted(Err(String::from("network down"))),
        Intent::TriggerAction,
    ];
    for intent in intents {
        if matches!(&intent, Intent::RequestCompleted(_)) {
            // The transport only settles a request it was handed.
            assert_eq!(outstanding, 1);
            outstanding -= 1;
        }
        let (next, step) = m.reduce(intent);
        if step.dispatch {
            outstanding += 1;
        }
        assert!(outstanding <= 1);
        m = next;
    }
}
