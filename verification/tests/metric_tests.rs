use eclss::metric::{Counter, Gauge, GaugeValue, MetricDef, MetricFamily};
use eclss::metrics::{DiameterLabel, SensorLabel, SensorMetrics};
use eclss::registry::{Registry, RegistryMap};

fn labels(pairs: &[(&str, &str)]) -> Vec<(String, String)> {
    pairs.iter().map(|(k, v)| (k.to_string(), v.to_string())).collect()
}

#[test]
fn gauge() {
    let mut family: MetricFamily<Gauge> = MetricDef::new("test_gauge")
        .with_help("a test gauge")
        .with_unit("tests")
        .with_metrics(2);
    let metric1 = family
        .register(labels(&[("metric", "1"), ("label2", "foo")]))
        .expect("metric 1 must register");
    family.set_value(metric1, GaugeValue { neg: false, milli: 10_000 }, 0);

    let metric2 = family
        .register(labels(&[("metric", "2"), ("label2", "bar")]))
        .expect("metric 2 must register");
    family.set_value(metric2, GaugeValue { neg: false, milli: 22_200 }, 0);

    let expected = "\
    # TYPE test_gauge gauge\n\
    # HELP test_gauge a test gauge\n\
    # UNIT test_gauge tests\n\
    test_gauge{metric=\"1\",label2=\"foo\"} 10.0\n\
    test_gauge{metric=\"2\",label2=\"bar\"} 22.2\n\
    ";
    assert_eq!(family.fmt_metric(), expected);
}

#[test]
fn counter() {
    let mut family: MetricFamily<Counter> = MetricDef::new("test_counter")
        .with_help("a test counter")
        .with_unit("tests")
        .with_metrics(2);
    let metric1 = family
        .register(labels(&[("metric", "1"), ("label2", "foo")]))
        .expect("metric 1 must register");
    family.incr(metric1, 0);

    let metric2 = family
        .register(labels(&[("metric", "2"), ("label2", "bar")]))
        .expect("metric 2 must register");
    family.incr(metric2, 0);
    family.incr(metric2, 0);

    let expected = "\
    # TYPE test_counter counter\n\
    # HELP test_counter a test counter\n\
    # UNIT test_counter tests\n\
    test_counter{metric=\"1\",label2=\"foo\"} 1\n\
    test_counter{metric=\"2\",label2=\"bar\"} 2\n\
    ";
    assert_eq!(family.fmt_metric(), expected);
}

#[test]
fn gauge_value_text() {
    assert_eq!(GaugeValue { neg: false, milli: 0 }.fmt(), "0.0");
    assert_eq!(GaugeValue { neg: false, milli: 10_000 }.fmt(), "10.0");
    assert_eq!(GaugeValue { neg: false, milli: 22_200 }.fmt(), "22.2");
    assert_eq!(GaugeValue { neg: false, milli: 10_050 }.fmt(), "10.05");
    assert_eq!(GaugeValue { neg: false, milli: 1_234 }.fmt(), "1.234");
    assert_eq!(GaugeValue { neg: true, milli: 22_200 }.fmt(), "-22.2");
    assert_eq!(eclss::metric::fmt_u64(0), "0");
    assert_eq!(eclss::metric::fmt_u64(65535), "65535");
    assert_eq!(eclss::metric::fmt_u64(u64::MAX), "18446744073709551615");
}

#[test]
fn gauge_set_then_get_returns_last_set_value() {
    let mut family: MetricFamily<Gauge> = MetricDef::new("g").with_metrics(1);
    let slot = family.register(labels(&[("sensor", "X")])).unwrap();
    family.set_value(slot, GaugeValue { neg: false, milli: 5_000 }, 7);
    assert_eq!(family.value(slot), GaugeValue { neg: false, milli: 5_000 });
    family.set_value(slot, GaugeValue { neg: true, milli: 1_500 }, 9);
    assert_eq!(family.value(slot), GaugeValue { neg: true, milli: 1_500 });
}

#[test]
fn family_register_is_idempotent_per_label_tuple() {
    let mut family: MetricFamily<Gauge> = MetricDef::new("g").with_metrics(2);
    let a = family.register(labels(&[("sensor", "A")])).unwrap();
    let a_again = family.register(labels(&[("sensor", "A")])).unwrap();
    assert_eq!(a, a_again);
    let b = family.register(labels(&[("sensor", "B")])).unwrap();
    assert_ne!(a, b);
    assert_eq!(family.register(labels(&[("sensor", "C")])), None);
    assert_eq!(family.len(), 2);
}

#[test]
fn registry_rejects_when_full_and_keeps_order() {
    let mut reg: Registry<u32> = Registry::new(3);
    assert_eq!(reg.register(10), Ok(0));
    assert_eq!(reg.register(20), Ok(1));
    assert_eq!(reg.register(30), Ok(2));
    assert_eq!(reg.register(40), Err(40));
    assert_eq!(reg.len(), 3);
    assert_eq!(reg.capacity(), 3);
    assert!(!reg.is_empty());
    assert_eq!(*reg.get(0), 10);
    assert_eq!(*reg.get(1), 20);
    assert_eq!(*reg.get(2), 30);
}

#[test]
fn registry_map_rejects_pair_intact() {
    let mut reg: RegistryMap<String, u32> = RegistryMap::new(1);
    assert_eq!(reg.register("a".to_string(), 1), Ok(0));
    assert_eq!(
        reg.register("b".to_string(), 2),
        Err(("b".to_string(), 2))
    );
    assert_eq!(reg.get(0).0, "a");
    assert_eq!(reg.get(0).1, 1);
}

#[test]
fn family_json_text() {
    let mut family: MetricFamily<Gauge> = MetricDef::new("g").with_metrics(2);
    let slot = family.register(labels(&[("sensor", "A")])).unwrap();
    family.set_value(slot, GaugeValue { neg: false, milli: 1_500 }, 42);
    assert_eq!(
        family.fmt_json(),
        "[{\"labels\":{\"sensor\":\"A\"},\"value\":1.5,\"timestamp\":42}]"
    );
}

#[test]
fn json_escapes_quotes_and_backslashes() {
    assert_eq!(eclss::metric::escape_str("plain"), "plain");
    assert_eq!(eclss::metric::escape_str("a\"b\\c"), "a\\\"b\\\\c");
}

#[test]
fn family_average() {
    let mut family: MetricFamily<Gauge> = MetricDef::new("g").with_metrics(3);
    assert_eq!(family.average(), None);
    let a = family.register(labels(&[("sensor", "A")])).unwrap();
    let b = family.register(labels(&[("sensor", "B")])).unwrap();
    family.set_value(a, GaugeValue { neg: false, milli: 4_000 }, 0);
    family.set_value(b, GaugeValue { neg: false, milli: 2_000 }, 0);
    assert_eq!(family.average(), Some(GaugeValue { neg: false, milli: 3_000 }));
    family.set_value(b, GaugeValue { neg: true, milli: 8_000 }, 0);
    assert_eq!(family.average(), Some(GaugeValue { neg: true, milli: 2_000 }));
}

#[test]
fn sensor_metrics_scrape_shape() {
    let metrics = SensorMetrics::new();
    let scrape = metrics.fmt_metrics();
    assert!(scrape.starts_with(
        "# TYPE temperature_degrees_celcius gauge\n\
         # HELP temperature_degrees_celcius Temperature in degrees Celcius.\n\
         # UNIT temperature_degrees_celcius celcius\n"
    ));
    // one TYPE line per family, families separated by blank lines
    assert_eq!(scrape.matches("# TYPE ").count(), 11);
    assert_eq!(scrape.matches("\n\n").count(), 10);
    assert!(scrape.contains("# TYPE sensor_error_count counter\n"));
}

#[test]
fn sensor_metrics_json_shape() {
    let mut metrics = SensorMetrics::new();
    let slot = metrics
        .co2
        .register(SensorLabel("SCD30".to_string()).to_labels())
        .unwrap();
    metrics.co2.set_value(slot, GaugeValue { neg: false, milli: 450_000 }, 3);
    let json = metrics.fmt_json();
    assert!(json.starts_with("{\"temperature_degrees_celcius\":[]"));
    assert!(json.contains(
        "\"co2_ppm\":[{\"labels\":{\"sensor\":\"SCD30\"},\"value\":450.0,\"timestamp\":3}]"
    ));
    assert!(json.ends_with("\"sensor_error_count\":[]}"));
}

#[test]
fn diameter_label_carries_sensor_name() {
    let l = DiameterLabel("2.5".to_string()).to_labels();
    assert_eq!(
        l,
        vec![
            ("diameter".to_string(), "2.5".to_string()),
            ("sensor".to_string(), "PMSA003I".to_string())
        ]
    );
}
