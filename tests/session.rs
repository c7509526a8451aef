use notibox_firmware::config::{ap_configuration, AuthMethod, RadioConfig, SETUP_AP_CHANNEL};
use notibox_firmware::session::{ConnectSession, RadioAction, RadioError, WifiError};
use notibox_firmware::status::WiFiStatus;
use notibox_firmware::task::{reconnect_session, startup_session};

/// What a driver saw while running a session to its end.
struct Trace {
    configs: Vec<RadioConfig>,
    reports: Vec<WiFiStatus>,
    starts: usize,
    connects: usize,
    result: Result<(), RadioError>,
}

/// Runs `session` as a driver would, with the given outcomes for each start
/// and connect call (in order), while configuring always succeeds.
fn drive(mut session: ConnectSession, starts: &[Result<(), RadioError>], connects: &[Result<(), RadioError>], configures: &[Result<(), RadioError>]) -> Trace {
    let mut trace = Trace { configs: Vec::new(), reports: Vec::new(), starts: 0, connects: 0, result: Ok(()) };
    let mut configure_calls = 0;
    let mut guard = 0;
    while let Some(action) = session.next_action() {
        guard += 1;
        assert!(guard <= 6, "a session takes at most six steps");
        let outcome = match action {
            RadioAction::Configure(c) => {
                trace.configs.push(c);
                configure_calls += 1;
                configures.get(configure_calls - 1).copied().unwrap_or(Ok(()))
            }
            RadioAction::Start => {
                trace.starts += 1;
                starts.get(trace.starts - 1).copied().unwrap_or(Ok(()))
            }
            RadioAction::Connect => {
                trace.connects += 1;
                connects.get(trace.connects - 1).copied().unwrap_or(Ok(()))
            }
            RadioAction::Report(s) => {
                trace.reports.push(s);
                Ok(())
            }
        };
        session.advance(outcome);
    }
    trace.result = session.result().expect("a finished session has a result");
    trace
}

fn is_setup_ap(c: &RadioConfig) -> bool {
    match c {
        RadioConfig::AccessPoint { ssid, password, channel, auth } => {
            ssid == "Notibox-Setup" && password == "notibox123" && *channel == 1 && *auth == AuthMethod::WPA2Personal
        }
        _ => false,
    }
}

#[test]
fn association_failure_reports_ap_mode_once() {
    let session = ConnectSession::connect_or_ap_mode("al", "password").unwrap();
    let t = drive(session, &[], &[Err(RadioError { code: 0x3001 })], &[]);
    assert_eq!(t.reports, vec![WiFiStatus::ApMode { ip: [192, 168, 4, 1] }]);
    assert_eq!(t.result, Ok(()));
    assert_eq!(t.connects, 1);
    assert_eq!(t.configs.len(), 2);
    assert!(is_setup_ap(&t.configs[1]));
}

#[test]
fn association_success_reports_connected_once() {
    let session = ConnectSession::connect_or_ap_mode("al", "password").unwrap();
    let t = drive(session, &[], &[], &[]);
    assert_eq!(t.reports, vec![WiFiStatus::Connected { ip: [192, 168, 1, 100] }]);
    assert_eq!(t.result, Ok(()));
    assert_eq!(t.configs.len(), 1);
    match &t.configs[0] {
        RadioConfig::Station { ssid, password } => {
            assert_eq!(ssid, "al");
            assert_eq!(password, "password");
        }
        other => panic!("expected a station configuration, got {:?}", other),
    }
}

#[test]
fn startup_without_credentials_goes_straight_to_ap_mode() {
    let session = startup_session(None).unwrap();
    let t = drive(session, &[], &[], &[]);
    assert_eq!(t.connects, 0);
    assert_eq!(t.configs.len(), 1);
    assert!(is_setup_ap(&t.configs[0]));
    assert_eq!(t.reports, vec![WiFiStatus::ApMode { ip: [192, 168, 4, 1] }]);
}

#[test]
fn startup_with_credentials_tries_the_network() {
    let session = startup_session(Some(("home", "secret123"))).unwrap();
    let t = drive(session, &[], &[], &[]);
    assert_eq!(t.connects, 1);
    assert_eq!(t.reports, vec![WiFiStatus::Connected { ip: [192, 168, 1, 100] }]);
}

#[test]
fn startup_with_overlong_credentials_is_refused() {
    let long = "s".repeat(33);
    assert_eq!(startup_session(Some((long.as_str(), "pw"))).err(), Some(WifiError::CredentialTooLong));
}

#[test]
fn ssid_limit_is_thirty_two_bytes() {
    let fits = "a".repeat(32);
    let over = "a".repeat(33);
    assert!(ConnectSession::connect_or_ap_mode(&fits, "pw").is_ok());
    assert_eq!(ConnectSession::connect_or_ap_mode(&over, "pw").err(), Some(WifiError::CredentialTooLong));
}

#[test]
fn password_limit_is_sixty_four_bytes() {
    let fits = "p".repeat(64);
    let over = "p".repeat(65);
    assert!(ConnectSession::connect_or_ap_mode("net", &fits).is_ok());
    assert_eq!(ConnectSession::connect_or_ap_mode("net", &over).err(), Some(WifiError::CredentialTooLong));
}

#[test]
fn limits_count_utf8_bytes_not_characters() {
    // 16 two-byte characters fill the buffer; 17 overflow it.
    let fits = "\u{e9}".repeat(16);
    let over = "\u{e9}".repeat(17);
    assert!(ConnectSession::connect_or_ap_mode(&fits, "pw").is_ok());
    assert_eq!(ConnectSession::connect_or_ap_mode(&over, "pw").err(), Some(WifiError::CredentialTooLong));
}

#[test]
fn empty_credentials_are_accepted() {
    assert!(ConnectSession::connect_or_ap_mode("", "").is_ok());
}

#[test]
fn overlong_credentials_emit_nothing() {
    let over = "a".repeat(40);
    let r = ConnectSession::connect_or_ap_mode(&over, "password");
    assert!(matches!(r, Err(WifiError::CredentialTooLong)));
}

#[test]
fn ap_configuration_is_fixed() {
    let c = ap_configuration();
    assert!(is_setup_ap(&c));
    assert_eq!(SETUP_AP_CHANNEL, 1);
}

#[test]
fn station_configure_failure_ends_without_report() {
    let session = ConnectSession::connect_or_ap_mode("al", "password").unwrap();
    let e = RadioError { code: 258 };
    let t = drive(session, &[], &[], &[Err(e)]);
    assert_eq!(t.result, Err(e));
    assert!(t.reports.is_empty());
    assert_eq!(t.starts, 0);
}

#[test]
fn station_start_failure_ends_without_report() {
    let session = ConnectSession::connect_or_ap_mode("al", "password").unwrap();
    let e = RadioError { code: 12289 };
    let t = drive(session, &[Err(e)], &[], &[]);
    assert_eq!(t.result, Err(e));
    assert!(t.reports.is_empty());
    assert_eq!(t.connects, 0);
}

#[test]
fn ap_failure_after_fallback_propagates() {
    let session = ConnectSession::connect_or_ap_mode("al", "password").unwrap();
    let connect_err = RadioError { code: 1 };
    let ap_err = RadioError { code: 2 };
    let t = drive(session, &[Ok(()), Err(ap_err)], &[Err(connect_err)], &[]);
    assert_eq!(t.result, Err(ap_err));
    assert!(t.reports.is_empty());
}

#[test]
fn ap_configure_failure_propagates() {
    let session = ConnectSession::start_ap_mode();
    let e = RadioError { code: 7 };
    let t = drive(session, &[], &[], &[Err(e)]);
    assert_eq!(t.result, Err(e));
    assert!(t.reports.is_empty());
}

#[test]
fn finished_session_stays_finished() {
    let mut session = ConnectSession::start_ap_mode();
    assert!(session.result().is_none());
    for _ in 0..3 {
        session.advance(Ok(()));
    }
    assert_eq!(session.result(), Some(Ok(())));
    session.advance(Err(RadioError { code: 9 }));
    assert_eq!(session.result(), Some(Ok(())));
    assert!(session.next_action().is_none());
}

#[test]
fn reconnect_only_when_not_associated_with_known_credentials() {
    assert!(reconnect_session(true, Some(("home", "pw"))).is_none());
    assert!(reconnect_session(false, None).is_none());
    let long = "x".repeat(70);
    assert!(reconnect_session(false, Some(("home", long.as_str()))).is_none());
    let s = reconnect_session(false, Some(("home", "pw"))).expect("a new attempt");
    let t = drive(s, &[], &[], &[]);
    assert_eq!(t.reports, vec![WiFiStatus::Connected { ip: [192, 168, 1, 100] }]);
}

#[test]
fn terminal_statuses() {
    assert!(WiFiStatus::Connected { ip: [1, 2, 3, 4] }.is_terminal());
    assert!(WiFiStatus::ApMode { ip: [192, 168, 4, 1] }.is_terminal());
    assert!(!WiFiStatus::Connecting.is_terminal());
    assert!(!WiFiStatus::Disconnected.is_terminal());
}
