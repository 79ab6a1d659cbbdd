use eclss::actor::CredentialsChannel;
use eclss::http::{
    handle_calibrate, handle_wifi_select, parse_form, parse_u16, read_body_step, ssids_json,
    wifi_select_sent_response, calibrate_sent_response, BodyStep,
};
use eclss::wifi::{
    access_point_config, AccessPoint, Credentials, EclssWifi, IpEvent, NetEvent, WifiAction,
    WifiConfiguration, WifiEvent, WifiState,
};
use eclss::ws2812::color_signal;

#[test]
fn wifi_credentials_reach_the_coordinator() {
    // POST ssid=foo&password=bar: the handler parses the form and enqueues.
    let credentials = handle_wifi_select(b"ssid=foo&password=bar").expect("form must parse");
    assert_eq!(credentials.ssid, "foo");
    assert_eq!(credentials.password, "bar");

    let mut channel = CredentialsChannel::new(1);
    let sent = channel.try_send(credentials).is_ok();
    assert!(sent);
    let rsp = wifi_select_sent_response(sent);
    assert_eq!(rsp.code, 200);

    // The channel yields a matching record.
    let received = channel.try_recv().expect("channel must yield the record");
    assert_eq!(received.ssid, "foo");
    assert_eq!(received.password, "bar");

    // The coordinator moves Unconfigured -> Connecting -> Connected, and the
    // LED ends green.
    let mut wifi = EclssWifi::new(None, Vec::new());
    assert_eq!(wifi.state, WifiState::Unconfigured);
    assert_eq!(wifi.indicator_color(), (255, 165, 0));
    let action = wifi.handle_event(NetEvent::Credentials(received));
    assert!(matches!(action, WifiAction::Connect));
    assert_eq!(wifi.state, WifiState::Connecting);
    assert_eq!(wifi.indicator_color(), (255, 255, 0));
    wifi.handle_event(NetEvent::Wifi(WifiEvent::StaConnected));
    wifi.handle_event(NetEvent::Ip(IpEvent::Assigned));
    assert_eq!(wifi.state, WifiState::Connected);
    assert_eq!(wifi.indicator_color(), (0, 255, 0));
}

#[test]
fn credentials_channel_is_bounded() {
    let mut channel = CredentialsChannel::new(1);
    assert_eq!(channel.capacity(), 1);
    let first = Credentials { ssid: "a".to_string(), password: "1".to_string() };
    let second = Credentials { ssid: "b".to_string(), password: "2".to_string() };
    assert!(channel.try_send(first).is_ok());
    let rejected = channel.try_send(second).expect_err("full channel rejects");
    assert_eq!(rejected.ssid, "b");
    assert_eq!(rejected.password, "2");
    let rsp = wifi_select_sent_response(false);
    assert_eq!(rsp.code, 500);
    assert!(channel.try_recv().is_some());
    assert!(channel.try_recv().is_none());
}

#[test]
fn form_parsing_decodes_escapes() {
    let pairs = parse_form(b"ssid=my%20net+1&password=p%26w").expect("form must parse");
    assert_eq!(pairs[0], ("ssid".to_string(), "my net 1".to_string()));
    assert_eq!(pairs[1], ("password".to_string(), "p&w".to_string()));
    assert!(parse_form(b"ssid=%G1").is_none());
    assert!(parse_form(b"no-delimiter").is_none());
    assert!(parse_form(b"").is_none());
}

#[test]
fn wifi_select_field_order_is_free() {
    let c = handle_wifi_select(b"password=bar&ssid=foo").expect("reversed order parses");
    assert_eq!(c.ssid, "foo");
    assert_eq!(c.password, "bar");
    let rsp = handle_wifi_select(b"ssid=foo").expect_err("missing field");
    assert_eq!(rsp.code, 400);
    let rsp = handle_wifi_select(b"ssid=foo&other=bar").expect_err("unknown field");
    assert_eq!(rsp.code, 400);
    let rsp = handle_wifi_select(b"").expect_err("empty body");
    assert_eq!(rsp.code, 400);
}

#[test]
fn calibrate_body_parses_exactly() {
    assert_eq!(handle_calibrate(b"ppm=420").unwrap(), 420);
    assert_eq!(handle_calibrate(b"ppm=0042").unwrap(), 42);
    assert_eq!(handle_calibrate(b"ppm=65535").unwrap(), 65535);
    let rsp = handle_calibrate(b"ppm=65536").expect_err("too big for u16");
    assert_eq!(rsp.code, 400);
    assert_eq!(
        rsp.body,
        "{\"code\":400,\"status\":\"Bad Request\",\"message\":\"malformed request body\"}"
    );
    assert!(handle_calibrate(b"ppm=abc").is_err());
    assert!(handle_calibrate(b"ppm=").is_err());
    assert!(handle_calibrate(b"ppm=420&x=1").is_err());
    assert!(handle_calibrate(b"").is_err());
    let ok = calibrate_sent_response(true);
    assert_eq!(ok.code, 200);
    assert_eq!(
        ok.body,
        "{\"code\":200,\"status\":\"OK\",\"message\":\"recalibrated SCD30\"}"
    );
    assert_eq!(calibrate_sent_response(false).code, 500);
}

#[test]
fn u16_parsing_bounds() {
    assert_eq!(parse_u16("0"), Some(0));
    assert_eq!(parse_u16("65535"), Some(65535));
    assert_eq!(parse_u16("65536"), None);
    assert_eq!(parse_u16("99999999999999"), None);
    assert_eq!(parse_u16(""), None);
    assert_eq!(parse_u16("12a"), None);
}

#[test]
fn scanned_ssids_render_as_json() {
    let aps = vec![
        AccessPoint { ssid: "home".to_string(), channel: 6 },
        AccessPoint { ssid: "cafe \"hot\"".to_string(), channel: 11 },
    ];
    assert_eq!(ssids_json(&aps), "[\"home\",\"cafe \\\"hot\\\"\"]");
    assert_eq!(ssids_json(&Vec::new()), "[]");
}

#[test]
fn coordinator_looks_up_scanned_channel() {
    let aps = vec![
        AccessPoint { ssid: "other".to_string(), channel: 3 },
        AccessPoint { ssid: "foo".to_string(), channel: 9 },
    ];
    let mut wifi = EclssWifi::new(None, aps);
    wifi.handle_event(NetEvent::Credentials(Credentials {
        ssid: "foo".to_string(),
        password: "bar".to_string(),
    }));
    match &wifi.config {
        WifiConfiguration::Mixed(client, ap) => {
            assert_eq!(client.ssid, "foo");
            assert_eq!(client.password, "bar");
            assert_eq!(client.channel, Some(9));
            assert_eq!(ap.ssid, "eclss");
            assert_eq!(ap.channel, 1);
        }
        other => panic!("expected a mixed configuration, got {:?}", other),
    }
}

#[test]
fn oversized_credentials_are_a_hard_failure() {
    let mut wifi = EclssWifi::new(None, Vec::new());
    let long_ssid = "x".repeat(33);
    wifi.handle_event(NetEvent::Credentials(Credentials {
        ssid: long_ssid,
        password: "p".to_string(),
    }));
    assert_eq!(wifi.state, WifiState::Error);
    assert_eq!(wifi.indicator_color(), (255, 0, 0));
}

#[test]
fn credential_bounds_name_each_error() {
    let mut wifi = EclssWifi::new(None, Vec::new());
    let too_long_ssid = Credentials { ssid: "x".repeat(33), password: "p".to_string() };
    assert_eq!(
        wifi.connect_to(too_long_ssid),
        Err(eclss::wifi::CredentialsError::SsidTooLong)
    );
    let too_long_password = Credentials { ssid: "net".to_string(), password: "y".repeat(65) };
    assert_eq!(
        wifi.connect_to(too_long_password),
        Err(eclss::wifi::CredentialsError::PasswordTooLong)
    );
    let fits = Credentials { ssid: "x".repeat(32), password: "y".repeat(64) };
    assert_eq!(wifi.connect_to(fits), Ok(()));
}

#[test]
fn saved_client_configuration_is_promoted() {
    let saved = WifiConfiguration::Client(eclss::wifi::ClientConfig {
        ssid: "home".to_string(),
        password: "pw".to_string(),
        channel: None,
    });
    let wifi = EclssWifi::new(Some(saved), Vec::new());
    assert_eq!(wifi.state, WifiState::Connecting);
    assert!(matches!(wifi.config, WifiConfiguration::Mixed(_, _)));
    let ap = access_point_config();
    assert_eq!(ap.ssid, "eclss");
    assert_eq!(ap.channel, 1);
}

#[test]
fn reconnect_backoff_and_softap_guard() {
    let mut wifi = EclssWifi::new(None, Vec::new());
    wifi.handle_event(NetEvent::Wifi(WifiEvent::StaDisconnected));
    assert_eq!(wifi.state, WifiState::Disconnected);
    assert!(matches!(
        wifi.prepare(),
        WifiAction::ArmReconnect { delay_ms: 500 }
    ));
    assert!(matches!(
        wifi.prepare(),
        WifiAction::ArmReconnect { delay_ms: 1_000 }
    ));
    // a softAP client holds the reconnect attempt back
    wifi.handle_event(NetEvent::Wifi(WifiEvent::ApStaConnected));
    assert!(matches!(
        wifi.handle_event(NetEvent::ReconnectTimer),
        WifiAction::Stay
    ));
    wifi.handle_event(NetEvent::Wifi(WifiEvent::ApStaDisconnected));
    assert!(matches!(
        wifi.handle_event(NetEvent::ReconnectTimer),
        WifiAction::Connect
    ));
    assert_eq!(wifi.state, WifiState::Connecting);
}

#[test]
fn lease_loss_falls_back_to_access_point() {
    let mut wifi = EclssWifi::new(None, Vec::new());
    wifi.handle_event(NetEvent::Ip(IpEvent::DhcpIpDeassigned));
    assert_eq!(wifi.state, WifiState::Error);
    assert!(matches!(wifi.prepare(), WifiAction::ConfigureAccessPoint));
    assert!(matches!(wifi.config, WifiConfiguration::AccessPoint(_)));
}

#[test]
fn body_reader_doubles_until_eof() {
    assert_eq!(read_body_step(40, 40, 40, 4_096), BodyStep::Grow { new_len: 80 });
    assert_eq!(read_body_step(80, 80, 3, 4_096), BodyStep::Grow { new_len: 160 });
    assert_eq!(read_body_step(83, 160, 0, 4_096), BodyStep::Done { total: 83 });
    assert_eq!(read_body_step(3_000, 3_000, 1, 4_096), BodyStep::Grow { new_len: 4_096 });
}

#[test]
fn pixel_signal_encodes_grb_bits() {
    // orange: the "unconfigured" indicator color
    let signal = color_signal(255, 165, 0);
    assert_eq!(signal.len(), 24);
    let word: u32 = 165 | (255 << 8) | (0 << 16);
    for (i, pulse) in signal.iter().enumerate() {
        if word >> (i as u32) & 1 == 1 {
            assert_eq!(*pulse, (700, 600));
        } else {
            assert_eq!(*pulse, (350, 800));
        }
    }
    // lowest bit of green 165 is set
    assert_eq!(signal[0], (700, 600));
}
