use eclss::metric::GaugeValue;
use eclss::metrics::SensorMetrics;
use eclss::pmsa003i::{decode, Concentrations, Error, ParticleCounts, Pmsa003i, Reading};

fn fixture() -> [u8; 32] {
    let mut bytes = [0u8; 32];
    // magic
    bytes[0] = 0x42;
    bytes[1] = 0x4D;
    // frame length (ignored by the decoder)
    bytes[2] = 0;
    bytes[3] = 28;
    // concentrations stay zero; counts for 0.3/0.5/1.0/2.5/5.0/10.0 um
    let counts: [u16; 6] = [100, 50, 20, 5, 2, 1];
    for (i, c) in counts.iter().enumerate() {
        bytes[16 + 2 * i] = (c >> 8) as u8;
        bytes[16 + 2 * i + 1] = (c & 0xFF) as u8;
    }
    // version and error code
    bytes[28] = 1;
    bytes[29] = 0;
    let sum: u16 = bytes[..30].iter().map(|&b| b as u16).sum();
    bytes[30] = (sum >> 8) as u8;
    bytes[31] = (sum & 0xFF) as u8;
    bytes
}

#[test]
fn pm_packet_decodes_exactly() {
    let bytes = fixture();
    let reading = decode::<()>(&bytes).expect("valid packet must decode");
    assert_eq!(
        reading,
        Reading {
            concentrations: Concentrations {
                pm1_0: 0,
                pm1_0_standard: 0,
                pm2_5: 0,
                pm2_5_standard: 0,
                pm10_0: 0,
                pm10_0_standard: 0,
            },
            counts: ParticleCounts {
                particles_0_3um: 100,
                particles_0_5um: 50,
                particles_1_0um: 20,
                particles_2_5um: 5,
                particles_5_0um: 2,
                particles_10_0um: 1,
            },
            sensor_version: 1,
        }
    );
}

#[test]
fn pm_packet_bad_magic_rejected() {
    let mut bytes = fixture();
    bytes[0] = 0x41;
    let sum: u16 = bytes[..30].iter().map(|&b| b as u16).sum();
    bytes[30] = (sum >> 8) as u8;
    bytes[31] = (sum & 0xFF) as u8;
    assert_eq!(decode::<()>(&bytes), Err(Error::BadMagic(0x414D)));
}

#[test]
fn pm_packet_bad_checksum_rejected() {
    let mut bytes = fixture();
    bytes[31] = bytes[31].wrapping_add(1);
    let sum: u16 = bytes[..30].iter().map(|&b| b as u16).sum();
    let checksum = ((bytes[30] as u16) << 8) | bytes[31] as u16;
    assert_eq!(decode::<()>(&bytes), Err(Error::Checksum { sum, checksum }));
}

#[test]
fn pm_packet_error_code_rejected() {
    let mut bytes = fixture();
    bytes[29] = 7;
    let sum: u16 = bytes[..30].iter().map(|&b| b as u16).sum();
    bytes[30] = (sum >> 8) as u8;
    bytes[31] = (sum & 0xFF) as u8;
    assert_eq!(decode::<()>(&bytes), Err(Error::ErrorCode(7)));
}

#[test]
fn pm_adapter_records_counts() {
    let mut metrics = SensorMetrics::new();
    let adapter = Pmsa003i::bringup(&mut metrics).expect("fresh registry has room");
    let reading = decode::<()>(&fixture()).unwrap();
    adapter.record(&mut metrics, &reading, 11);
    let row = metrics.pm_count.get(adapter.particles_0_3um);
    assert_eq!(row.0[0], ("diameter".to_string(), "0.3".to_string()));
    assert_eq!(row.1.value, GaugeValue { neg: false, milli: 100_000 });
    assert_eq!(row.1.timestamp, 11);
    let pm25 = metrics.pm_conc.get(adapter.pm2_5);
    assert_eq!(pm25.1.value, GaugeValue { neg: false, milli: 0 });
    assert_eq!(Pmsa003i::poll_interval_ms(), 2_000);
}
