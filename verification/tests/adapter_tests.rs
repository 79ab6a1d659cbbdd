use eclss::bme680::{Bme680, Measurement as Bme680Measurement};
use eclss::metric::GaugeValue;
use eclss::metrics::SensorMetrics;
use eclss::scd30::{Measurement as Scd30Measurement, Scd30};
use eclss::sensor::ens160::{DeviceStatus, Ens160};
use eclss::sgp30::Sgp30;
use eclss::units::ABS_HUMIDITY_INTERVAL;

fn milli(m: u64) -> GaugeValue {
    GaugeValue { neg: false, milli: m }
}

#[test]
fn scd30_records_and_gates_absolute_humidity() {
    let mut metrics = SensorMetrics::new();
    let mut scd30 = Scd30::bringup(&mut metrics).expect("fresh registry has room");
    assert_eq!(scd30.poll_interval_ms(), 2_000);
    let m = Scd30Measurement { co2: milli(450_000), temp: milli(21_500), rh: milli(40_000) };
    for poll in 1..=ABS_HUMIDITY_INTERVAL {
        scd30.record(&mut metrics, &m, milli(7_600), poll);
    }
    assert_eq!(metrics.co2.value(scd30.co2), milli(450_000));
    assert_eq!(metrics.temp.value(scd30.temp), milli(21_500));
    assert_eq!(metrics.rel_humidity.value(scd30.rel_humidity), milli(40_000));
    // absolute humidity appears only on the gated poll
    let cell = metrics.abs_humidity.get(scd30.abs_humidity);
    assert_eq!(cell.1.value, milli(7_600));
    assert_eq!(cell.1.timestamp, ABS_HUMIDITY_INTERVAL);
    // the humidity series carry the onboard hygrometer's name
    assert_eq!(cell.0[0], ("sensor".to_string(), "SHT31".to_string()));
    let co2_label = metrics.co2.get(scd30.co2);
    assert_eq!(co2_label.0[0], ("sensor".to_string(), "SCD30".to_string()));
}

#[test]
fn bme680_normalizes_pressure() {
    let mut metrics = SensorMetrics::new();
    let mut bme680 = Bme680::bringup(&mut metrics).expect("fresh registry has room");
    let m = Bme680Measurement {
        temperature: milli(20_000),
        // the driver reports a hundred times the hectopascal value
        pressure: milli(101_325_000),
        humidity: milli(45_000),
        gas_resistance: Some(milli(120_000_000)),
    };
    bme680.record(&mut metrics, &m, milli(8_000), 1);
    assert_eq!(metrics.pressure.value(bme680.pressure), milli(1_013_250));
    assert_eq!(metrics.temp.value(bme680.temp), milli(20_000));
    assert_eq!(metrics.gas_resistance.value(bme680.gas_resistance), milli(120_000_000));
    // the first poll is not a humidity-publishing one
    assert_eq!(metrics.abs_humidity.value(bme680.abs_humidity), milli(0));
    assert_eq!(Bme680::poll_interval_ms(), 2_000);
}

#[test]
fn sgp30_discards_self_calibration_window() {
    let mut metrics = SensorMetrics::new();
    let mut sgp30 = Sgp30::bringup(&mut metrics).expect("fresh registry has room");
    assert_eq!(Sgp30::poll_interval_ms(), 988);
    for _ in 0..15 {
        assert!(!sgp30.record(&mut metrics, 400, 0, 1));
    }
    // nothing published yet
    assert_eq!(metrics.eco2.value(sgp30.eco2), milli(0));
    // the sixteenth reading is the first one published
    assert!(sgp30.record(&mut metrics, 412, 19, 2));
    assert_eq!(metrics.eco2.value(sgp30.eco2), milli(412_000));
    assert_eq!(metrics.tvoc.value(sgp30.tvoc), milli(19_000));
}

#[test]
fn sgp30_pushes_average_humidity_on_cadence() {
    let mut metrics = SensorMetrics::new();
    let mut sgp30 = Sgp30::bringup(&mut metrics).expect("fresh registry has room");
    let mut scd30 = Scd30::bringup(&mut metrics).expect("fresh registry has room");
    let mut bme680 = Bme680::bringup(&mut metrics).expect("fresh registry has room");
    let m = Scd30Measurement { co2: milli(450_000), temp: milli(21_000), rh: milli(40_000) };
    let bm = Bme680Measurement {
        temperature: milli(20_000),
        pressure: milli(101_325_000),
        humidity: milli(45_000),
        gas_resistance: None,
    };
    // publish absolute humidity from both humidity-capable sensors
    for poll in 1..=ABS_HUMIDITY_INTERVAL {
        scd30.record(&mut metrics, &m, milli(7_000), poll);
        bme680.record(&mut metrics, &bm, milli(9_000), poll);
    }
    // bring the VOC sensor to a pushing poll
    for _ in 0..(2 * ABS_HUMIDITY_INTERVAL - 1) {
        sgp30.record(&mut metrics, 400, 0, 1);
    }
    assert_eq!(sgp30.humidity_push(&metrics), None);
    sgp30.record(&mut metrics, 400, 0, 1);
    // the two published absolute-humidity readings are 7.0 and 9.0
    assert_eq!(sgp30.humidity_push(&metrics), Some(milli(8_000)));
}

#[test]
fn ens160_gates_on_status_and_validity() {
    let mut metrics = SensorMetrics::new();
    let mut ens160 = Ens160::bringup(&mut metrics).expect("fresh registry has room");
    assert_eq!(Ens160::poll_interval_ms(), 2_000);
    let idle = DeviceStatus { new_data_in_gpr: false, data_is_ready: false, validity_normal: true };
    assert!(!ens160.record(&mut metrics, idle, 500, 30, 1));
    let invalid = DeviceStatus { new_data_in_gpr: true, data_is_ready: true, validity_normal: false };
    assert!(!ens160.record(&mut metrics, invalid, 500, 30, 2));
    assert_eq!(metrics.eco2.value(ens160.eco2), milli(0));
    assert_eq!(ens160.polls, 0);
    let good = DeviceStatus { new_data_in_gpr: false, data_is_ready: true, validity_normal: true };
    assert!(ens160.record(&mut metrics, good, 512, 33, 3));
    assert_eq!(metrics.eco2.value(ens160.eco2), milli(512_000));
    assert_eq!(metrics.tvoc.value(ens160.tvoc), milli(33_000));
    assert_eq!(ens160.polls, 1);
}

#[test]
fn ens160_calibration_uses_published_averages() {
    let mut metrics = SensorMetrics::new();
    let ens160 = Ens160::bringup(&mut metrics).expect("fresh registry has room");
    // a fresh registry has no published temperature or humidity
    assert!(ens160.should_calibrate());
    assert_eq!(ens160.calibration(&metrics), None);
    let mut scd30 = Scd30::bringup(&mut metrics).expect("fresh registry has room");
    let m = Scd30Measurement { co2: milli(450_000), temp: milli(22_000), rh: milli(50_000) };
    scd30.record(&mut metrics, &m, milli(7_000), 1);
    assert_eq!(
        ens160.calibration(&metrics),
        Some((milli(22_000), milli(50_000)))
    );
}
