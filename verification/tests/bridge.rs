use rpi_gpio::decimal::format_tenths;
use rpi_gpio::dht22::Reading;
use rpi_gpio::light::plan_light_tick;
use rpi_gpio::not_set;
use rpi_gpio::payload::{light_payload, temperature_payload};
use rpi_gpio::supervisor::{
    plan_temperature_tick, session_step, SessionAction, SessionEvent, SessionState,
    RECONNECT_BACKOFF_SECS, RECOVERY_DELAY_SECS,
};
use rpi_gpio::tls::plan_tls;
use rpi_gpio::ReadingError;

#[test]
fn one_decimal_strings() {
    assert_eq!(format_tenths(false, 607), "60.7");
    assert_eq!(format_tenths(false, 124), "12.4");
    assert_eq!(format_tenths(true, 101), "-10.1");
    assert_eq!(format_tenths(false, 5), "0.5");
    assert_eq!(format_tenths(true, 0), "-0.0");
    assert_eq!(format_tenths(false, 65535), "6553.5");
}

#[test]
fn missing_option_message() {
    assert_eq!(not_set("MQTT_IP"), "MQTT_IP not set");
}

#[test]
fn light_payloads() {
    assert_eq!(light_payload(true), "{\"light\":true}");
    assert_eq!(light_payload(false), "{\"light\":false}");
}

#[test]
fn temperature_payloads() {
    let reading = Reading {
        humidity_tenths: 607,
        temperature_tenths: 124,
        temperature_negative: false,
    };
    assert_eq!(
        temperature_payload(&reading),
        "{\"temperature\":\"12.4\",\"humidity\":\"60.7\"}"
    );
    let freezing = Reading {
        humidity_tenths: 652,
        temperature_tenths: 101,
        temperature_negative: true,
    };
    assert_eq!(
        temperature_payload(&freezing),
        "{\"temperature\":\"-10.1\",\"humidity\":\"65.2\"}"
    );
}

#[test]
fn light_publishes_on_first_observation_and_on_change() {
    // observations: none yet, then true, true, false
    let first = plan_light_tick(None, &Ok(true));
    assert!(first.payload.is_some());
    assert_eq!(first.previous, Some(true));

    let second = plan_light_tick(first.previous, &Ok(true));
    assert!(second.payload.is_none());
    assert_eq!(second.previous, Some(true));

    let third = plan_light_tick(second.previous, &Ok(false));
    assert_eq!(third.payload, Some(String::from("{\"light\":false}")));
    assert_eq!(third.previous, Some(false));
}

#[test]
fn light_probe_failure_keeps_state_and_publishes_nothing() {
    let tick = plan_light_tick(Some(true), &Err(ReadingError::Gpio));
    assert!(tick.payload.is_none());
    assert_eq!(tick.previous, Some(true));

    let tick = plan_light_tick(None, &Err(ReadingError::Gpio));
    assert!(tick.payload.is_none());
    assert_eq!(tick.previous, None);
}

#[test]
fn session_lifecycle() {
    let (s, a) = session_step(SessionState::Disconnected, SessionEvent::ConnectRequested);
    assert_eq!(s, SessionState::Connecting);
    assert_eq!(a, SessionAction::RequestSession);

    let (s, a) = session_step(s, SessionEvent::SessionEstablished);
    assert_eq!(s, SessionState::Connected);
    assert_eq!(a, SessionAction::StartSessionTasks);

    let (s, a) = session_step(s, SessionEvent::SessionLost);
    assert_eq!(s, SessionState::Disconnected);
    assert_eq!(a, SessionAction::BackoffThenReconnect(RECONNECT_BACKOFF_SECS));
}

#[test]
fn session_ignores_events_out_of_place() {
    let (s, a) = session_step(SessionState::Disconnected, SessionEvent::SessionLost);
    assert_eq!(s, SessionState::Disconnected);
    assert_eq!(a, SessionAction::Ignore);

    let (s, a) = session_step(SessionState::Connected, SessionEvent::SessionEstablished);
    assert_eq!(s, SessionState::Connected);
    assert_eq!(a, SessionAction::Ignore);
}

#[test]
fn temperature_tick_publishes_then_waits() {
    let reading = Reading {
        humidity_tenths: 607,
        temperature_tenths: 124,
        temperature_negative: false,
    };
    let tick = plan_temperature_tick(&Ok(reading), 300);
    assert_eq!(
        tick.payload,
        Some(String::from("{\"temperature\":\"12.4\",\"humidity\":\"60.7\"}"))
    );
    assert_eq!(tick.delay_secs, 300);
}

#[test]
fn failed_acquisition_waits_the_recovery_delay() {
    for error in [
        ReadingError::Timeout,
        ReadingError::Checksum,
        ReadingError::Gpio,
    ] {
        let tick = plan_temperature_tick(&Err(error), 300);
        assert!(tick.payload.is_none());
        assert_eq!(tick.delay_secs, RECOVERY_DELAY_SECS);
    }
}

#[test]
fn no_ca_certificate_means_no_tls() {
    assert!(plan_tls(None, Some(vec![1]), Some(vec![2])).is_none());
}

#[test]
fn ca_certificate_alone_means_plain_tls() {
    let material = plan_tls(Some(vec![1, 2, 3]), None, None).expect("tls");
    assert_eq!(material.ca, vec![1, 2, 3]);
    assert!(material.client_auth.is_none());

    // a lone key or certificate is not enough for mutual tls
    let material = plan_tls(Some(vec![1]), Some(vec![9]), None).expect("tls");
    assert!(material.client_auth.is_none());
    let material = plan_tls(Some(vec![1]), None, Some(vec![8])).expect("tls");
    assert!(material.client_auth.is_none());
}

#[test]
fn full_material_means_mutual_tls() {
    let material = plan_tls(Some(vec![1]), Some(vec![9, 9]), Some(vec![8, 8])).expect("tls");
    assert_eq!(material.ca, vec![1]);
    let (cert, key) = material.client_auth.expect("mutual tls");
    assert_eq!(cert, vec![8, 8]);
    assert_eq!(key, vec![9, 9]);
}
