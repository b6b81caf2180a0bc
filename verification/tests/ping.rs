//! Tests of the ping widget: its request and its lifecycle.

use signup_ping::ping::{ping_request, VersionInfo};
use signup_ping::request::Method;
use signup_ping::state::{Intent, Model};

#[test]
fn ping_request_shape() {
    let r = ping_request();
    assert_eq!(r.method, Method::Get);
    assert_eq!(r.url, "http://localhost:8065/api/v4/system/ping");
    assert!(r.body.is_none());
}

#[test]
fn ping_scenario() {
    let m = Model::<VersionInfo>::init();
    let (m, step) = m.reduce(Intent::TriggerAction);
    assert!(step.rerender);
    assert!(step.dispatch);
    assert!(m.request_in_flight);
    let (m, step) = m.reduce(Intent::RequestCompleted(Err(String::from("network down"))));
    assert!(step.rerender);
    assert!(!m.request_in_flight);
    assert_eq!(m.last_error, Some(String::from("network down")));
    assert_eq!(m.last_response, None);
}

#[test]
fn ping_stores_the_version_record() {
    let payload = VersionInfo {
        status: String::from("OK"),
        desktop_latest_version: String::from("5.2.2"),
        desktop_min_version: String::from("5.0.0"),
        android_latest_version: String::from("5.2.1"),
        android_min_version: String::from("5.0.0"),
        ios_latest_version: String::from("5.2.1"),
        ios_min_version: String::from("5.0.0"),
    };
    let m = Model::<VersionInfo>::init();
    let (m, _) = m.reduce(Intent::TriggerAction);
    let (m, step) = m.reduce(Intent::RequestCompleted(Ok(payload.clone())));
    assert!(step.rerender);
    assert!(!m.request_in_flight);
    assert_eq!(m.last_response, Some(payload));
    assert_eq!(m.last_error, None);
}
