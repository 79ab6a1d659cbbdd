use eclss::actor::flatten_reply;
use eclss::actor::ReqError;
use eclss::retry::{ExpBackoff, Retry};
use eclss::scd30::{ControlError, ControlMessage, Scd30};
use eclss::sensor::status::{Status, StatusCell};
use eclss::sensor::{statuses_json, Manager, SensorAction, SensorEvent, StatusRegistry};

#[test]
fn bringup_retry_exponential_delays() {
    // The bus refuses the first three probes, then answers.
    let mut mgr = Manager::new(1_000, 2_000, "SCD30");
    assert_eq!(mgr.status, Status::Missing);
    assert_eq!(
        mgr.step(SensorEvent::BringUpFailed),
        SensorAction::RetryBringUp { delay_ms: 1_000 }
    );
    assert_eq!(
        mgr.step(SensorEvent::BringUpFailed),
        SensorAction::RetryBringUp { delay_ms: 2_000 }
    );
    assert_eq!(
        mgr.step(SensorEvent::BringUpFailed),
        SensorAction::RetryBringUp { delay_ms: 4_000 }
    );
    assert_eq!(mgr.errors, 3);
    assert_eq!(mgr.status, Status::Missing);
    assert_eq!(mgr.step(SensorEvent::BringUpOk), SensorAction::Poll { delay_ms: 0 });
    assert_eq!(mgr.status, Status::Up);
    assert_eq!(mgr.errors, 3);
}

#[test]
fn poll_recovery_resets_backoff() {
    let mut mgr = Manager::new(1_000, 2_000, "SCD30");
    mgr.step(SensorEvent::BringUpOk);
    for _ in 0..10 {
        assert_eq!(mgr.step(SensorEvent::PollOk), SensorAction::Poll { delay_ms: 2_000 });
        assert_eq!(mgr.status, Status::Up);
    }
    // Four failing polls: status goes Down, delays double from the cadence.
    assert_eq!(mgr.step(SensorEvent::PollFailed), SensorAction::Poll { delay_ms: 2_000 });
    assert_eq!(mgr.status, Status::Down);
    assert_eq!(mgr.step(SensorEvent::PollFailed), SensorAction::Poll { delay_ms: 4_000 });
    assert_eq!(mgr.step(SensorEvent::PollFailed), SensorAction::Poll { delay_ms: 8_000 });
    assert_eq!(mgr.step(SensorEvent::PollFailed), SensorAction::Poll { delay_ms: 16_000 });
    assert_eq!(mgr.status, Status::Down);
    assert_eq!(mgr.errors, 4);
    // First recovery: Up again, backoff reset to the poll cadence.
    assert_eq!(mgr.step(SensorEvent::PollOk), SensorAction::Poll { delay_ms: 2_000 });
    assert_eq!(mgr.status, Status::Up);
    assert_eq!(mgr.backoff.current, 2_000);
}

#[test]
fn control_message_handled_between_polls() {
    let mut mgr = Manager::new(1_000, 2_000, "SCD30");
    mgr.step(SensorEvent::BringUpOk);
    mgr.step(SensorEvent::PollOk);
    // A calibration command arrives between polls: it passes the check, is
    // handled before the next poll without disturbing the schedule, and its
    // reply carries success.
    let msg = ControlMessage::ForceCalibrate { ppm: 420 };
    let checked = Scd30::check_control(&msg);
    assert_eq!(checked, Ok(()));
    assert_eq!(mgr.step(SensorEvent::ControlOk), SensorAction::Continue);
    assert_eq!(mgr.status, Status::Up);
    let reply: Result<u32, eclss::actor::TryReqError<ControlMessage, ()>> =
        flatten_reply(Ok(Ok(7)));
    assert_eq!(reply.unwrap(), 7);
}

#[test]
fn control_failure_counts_as_down() {
    let mut mgr = Manager::new(1_000, 2_000, "SCD30");
    mgr.step(SensorEvent::BringUpOk);
    assert_eq!(mgr.step(SensorEvent::ControlFailed), SensorAction::Continue);
    assert_eq!(mgr.status, Status::Down);
    assert_eq!(mgr.errors, 1);
}

#[test]
fn measurement_interval_of_zero_is_refused() {
    assert_eq!(
        Scd30::check_control(&ControlMessage::SetMeasurementInterval { secs: 0 }),
        Err(ControlError::ZeroMeasurementInterval)
    );
    assert_eq!(
        Scd30::check_control(&ControlMessage::SetMeasurementInterval { secs: 2 }),
        Ok(())
    );
    assert_eq!(Scd30::check_control(&ControlMessage::SoftReset), Ok(()));
    assert_eq!(Scd30::check_control(&ControlMessage::SetAltOffset(100)), Ok(()));
}

#[test]
fn backoff_doubles_and_caps() {
    let mut b = ExpBackoff::new(40_000).with_max(60_000);
    assert_eq!(b.wait(), 40_000);
    assert_eq!(b.wait(), 60_000);
    assert_eq!(b.wait(), 60_000);
    assert_eq!(b.current(), 60_000);
    b.reset();
    assert_eq!(b.current(), 40_000);
}

#[test]
fn retry_returns_first_success() {
    let attempts = std::cell::Cell::new(0u32);
    let result: Result<u32, &str> = Retry::new(5).run(|| {
        let n = attempts.get();
        attempts.set(n + 1);
        if n < 2 {
            Err("not yet")
        } else {
            Ok(42)
        }
    });
    assert_eq!(result, Ok(42));
    assert_eq!(attempts.get(), 3);
}

#[test]
fn retry_stops_on_unretryable_error() {
    let attempts = std::cell::Cell::new(0u32);
    let policy = Retry::new(5).with_predicate(|e: &u8| *e != 7);
    let result: Result<u32, u8> = policy.run(|| {
        attempts.set(attempts.get() + 1);
        Err(7)
    });
    assert_eq!(result, Err(7));
    assert_eq!(attempts.get(), 1);
}

#[test]
fn retry_budget_exhausts() {
    let attempts = std::cell::Cell::new(0u32);
    let result: Result<u32, u8> = Retry::new(3).run(|| {
        attempts.set(attempts.get() + 1);
        Err(1)
    });
    assert_eq!(result, Err(1));
    assert_eq!(attempts.get(), 4);
}

#[test]
fn status_cell_round_trip() {
    let mut cell = StatusCell::new();
    assert_eq!(cell.status(), Status::Missing);
    assert_eq!(cell.set_status(Status::Up), Status::Missing);
    assert_eq!(cell.set_status(Status::Down), Status::Up);
    assert_eq!(cell.status(), Status::Down);
    assert_eq!(Status::from_u8(Status::Up.to_u8()), Status::Up);
    assert_eq!(Status::from_u8(200), Status::Missing);
}

#[test]
fn status_report_json() {
    let mut reg: StatusRegistry = StatusRegistry::new(16);
    let scd30 = reg.register("SCD30".to_string(), StatusCell::new()).unwrap();
    reg.register("BME680".to_string(), StatusCell::new()).unwrap();
    reg.get_value_mut(scd30).set_status(Status::Up);
    assert_eq!(
        statuses_json(&reg),
        "{\"SCD30\":\"Up\",\"BME680\":\"Missing\"}"
    );
}

#[test]
fn reply_errors_pass_through() {
    let closed: Result<u32, eclss::actor::TryReqError<&str, ()>> =
        flatten_reply(Err(ReqError::Closed("req")));
    assert!(matches!(
        closed,
        Err(eclss::actor::TryReqError::Closed("req"))
    ));
    let canceled: Result<u32, eclss::actor::TryReqError<&str, ()>> =
        flatten_reply(Err(ReqError::RspCanceled));
    assert!(matches!(canceled, Err(eclss::actor::TryReqError::RspCanceled)));
    let failed: Result<u32, eclss::actor::TryReqError<&str, u8>> = flatten_reply(Ok(Err(9)));
    assert!(matches!(failed, Err(eclss::actor::TryReqError::Error(9))));
}
