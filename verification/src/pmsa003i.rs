//! The particulate-matter sensor's 32-byte packet: decoding and validation,
//! and the adapter that distributes a decoded reading into the metric
//! families.
//!
//! The packet layout is big-endian: a two-byte magic prefix, a length field,
//! three standard-atmosphere and three environmental concentration words,
//! six particle-count words, a version byte, an error byte, and a two-byte
//! checksum equal to the unsigned sum of all preceding bytes.

use vstd::prelude::*;

use crate::metric::GaugeValue;
use crate::metrics::{DiameterLabel, SensorMetrics};

verus! {

/// The sensor's magic prefix, as a big-endian word.
pub const MAGIC: u16 = 0x424d;

/// One decoded packet.
#[derive(Copy, Clone, Debug, PartialEq, Eq, Structural)]
pub struct Reading {
    /// Particulate concentrations in micrograms per cubic meter.
    pub concentrations: Concentrations,
    /// Counts of particles of various diameters in 0.1L of air.
    pub counts: ParticleCounts,
    /// The sensor version field.
    pub sensor_version: u8,
}

/// Particulate concentrations in micrograms per cubic meter.
#[derive(Copy, Clone, Debug, PartialEq, Eq, Structural)]
pub struct Concentrations {
    /// PM1.0 concentration under environmental atmospheric conditions.
    pub pm1_0: u16,
    /// PM1.0 concentration under standard atmospheric conditions.
    pub pm1_0_standard: u16,
    /// PM2.5 concentration under environmental atmospheric conditions.
    pub pm2_5: u16,
    /// PM2.5 concentration under standard atmospheric conditions.
    pub pm2_5_standard: u16,
    /// PM10.0 concentration under environmental atmospheric conditions.
    pub pm10_0: u16,
    /// PM10.0 concentration under standard atmospheric conditions.
    pub pm10_0_standard: u16,
}

/// Counts of particles of various diameters in 0.1L of air.
#[derive(Copy, Clone, Debug, PartialEq, Eq, Structural)]
pub struct ParticleCounts {
    /// Particles with diameter >= 0.3 um.
    pub particles_0_3um: u16,
    /// Particles with diameter >= 0.5 um.
    pub particles_0_5um: u16,
    /// Particles with diameter >= 1.0 um.
    pub particles_1_0um: u16,
    /// Particles with diameter >= 2.5 um.
    pub particles_2_5um: u16,
    /// Particles with diameter >= 5.0 um.
    pub particles_5_0um: u16,
    /// Particles with diameter >= 10.0 um.
    pub particles_10_0um: u16,
}

/// Why a packet was rejected.
#[derive(Copy, Clone, Debug, PartialEq, Eq, Structural)]
pub enum Error<E> {
    /// An error occurred while reading from the bus.
    I2c(E),
    /// The sum of the packet did not match the checksum.
    Checksum {
        /// The sum of the packet's first thirty bytes.
        sum: u16,
        /// The checksum word the packet carried.
        checksum: u16,
    },
    /// The packet was missing the magic word; carries what stood there.
    BadMagic(u16),
    /// The sensor sent a non-zero error code.
    ErrorCode(u8),
}

/// The big-endian word at byte offset `off`.
pub open spec fn spec_word(b: Seq<u8>, off: int) -> u16 {
    (b[off] * 256 + b[off + 1]) as u16
}

/// The unsigned sum of the first `n` bytes.
pub open spec fn spec_sum(b: Seq<u8>, n: int) -> int
    decreases n,
{
    if n <= 0 {
        0
    } else {
        spec_sum(b, n - 1) + b[n - 1]
    }
}

/// The reading a valid packet decodes to.
pub open spec fn spec_reading(b: Seq<u8>) -> Reading {
    Reading {
        concentrations: Concentrations {
            pm1_0_standard: spec_word(b, 4),
            pm2_5_standard: spec_word(b, 6),
            pm10_0_standard: spec_word(b, 8),
            pm1_0: spec_word(b, 10),
            pm2_5: spec_word(b, 12),
            pm10_0: spec_word(b, 14),
        },
        counts: ParticleCounts {
            particles_0_3um: spec_word(b, 16),
            particles_0_5um: spec_word(b, 18),
            particles_1_0um: spec_word(b, 20),
            particles_2_5um: spec_word(b, 22),
            particles_5_0um: spec_word(b, 24),
            particles_10_0um: spec_word(b, 26),
        },
        sensor_version: b[28],
    }
}

/// The big-endian word at byte offset `off`.
fn word(bytes: &[u8; 32], off: usize) -> (r: u16)
    requires
        off + 1 < 32,
    ensures
        r == spec_word(bytes@, off as int),
{
    (bytes[off] as u16) * 256 + (bytes[off + 1] as u16)
}

/// Decode one 32-byte packet.
///
/// A packet is rejected exactly when its magic prefix is wrong, its error
/// byte is non-zero, or its checksum does not equal the sum of the first
/// thirty bytes, checked in that order; otherwise the decoded fields are the
/// packet's big-endian words.
pub fn decode<E>(bytes: &[u8; 32]) -> (r: Result<Reading, Error<E>>)
    ensures
        match r {
            Ok(reading) => {
                &&& spec_word(bytes@, 0) == MAGIC
                &&& bytes@[29] == 0
                &&& spec_sum(bytes@, 30) == spec_word(bytes@, 30)
                &&& reading == spec_reading(bytes@)
            },
            Err(e) => match e {
                Error::BadMagic(m) => m == spec_word(bytes@, 0) && m != MAGIC,
                Error::ErrorCode(c) => {
                    &&& spec_word(bytes@, 0) == MAGIC
                    &&& c == bytes@[29]
                    &&& c != 0
                },
                Error::Checksum { sum, checksum } => {
                    &&& spec_word(bytes@, 0) == MAGIC
                    &&& bytes@[29] == 0
                    &&& sum == spec_sum(bytes@, 30)
                    &&& checksum == spec_word(bytes@, 30)
                    &&& sum != checksum
                },
                Error::I2c(_) => false,
            },
        },
{
    let magic = word(bytes, 0);
    if magic != MAGIC {
        return Err(Error::BadMagic(magic));
    }

    if bytes[29] != 0 {
        return Err(Error::ErrorCode(bytes[29]));
    }

    let mut sum: u16 = 0;
    let mut i: usize = 0;
    while i < 30
        invariant
            i <= 30,
            sum == spec_sum(bytes@, i as int),
            sum <= i * 255,
        decreases 30 - i,
    {
        sum = sum + (bytes[i] as u16);
        i += 1;
    }
    let checksum = word(bytes, 30);
    if sum != checksum {
        return Err(Error::Checksum { sum, checksum });
    }

    Ok(
        Reading {
            concentrations: Concentrations {
                pm1_0_standard: word(bytes, 4),
                pm2_5_standard: word(bytes, 6),
                pm10_0_standard: word(bytes, 8),
                pm1_0: word(bytes, 10),
                pm2_5: word(bytes, 12),
                pm10_0: word(bytes, 14),
            },
            counts: ParticleCounts {
                particles_0_3um: word(bytes, 16),
                particles_0_5um: word(bytes, 18),
                particles_1_0um: word(bytes, 20),
                particles_2_5um: word(bytes, 22),
                particles_5_0um: word(bytes, 24),
                particles_10_0um: word(bytes, 26),
            },
            sensor_version: bytes[28],
        },
    )
}

/// A whole-number gauge reading.
pub open spec fn spec_gauge_of_u16(v: u16) -> GaugeValue {
    GaugeValue { neg: false, milli: (v * 1000) as u64 }
}

/// Turn a decoded word into a gauge reading.
pub fn gauge_of_u16(v: u16) -> (r: GaugeValue)
    ensures
        r == spec_gauge_of_u16(v),
{
    GaugeValue { neg: false, milli: (v as u64) * 1000 }
}

/// The particulate sensor's adapter: the slots its readings go to.
#[derive(Debug)]
pub struct Pmsa003i {
    /// Slot of the PM1.0 concentration series.
    pub pm1_0: usize,
    /// Slot of the PM2.5 concentration series.
    pub pm2_5: usize,
    /// Slot of the PM10.0 concentration series.
    pub pm10_0: usize,
    /// Slot of the 0.3 um count series.
    pub particles_0_3um: usize,
    /// Slot of the 0.5 um count series.
    pub particles_0_5um: usize,
    /// Slot of the 1.0 um count series.
    pub particles_1_0um: usize,
    /// Slot of the 2.5 um count series.
    pub particles_2_5um: usize,
    /// Slot of the 5.0 um count series.
    pub particles_5_0um: usize,
    /// Slot of the 10.0 um count series.
    pub particles_10_0um: usize,
}

impl Pmsa003i {
    /// The sensor's poll cadence, in milliseconds.
    pub fn poll_interval_ms() -> (r: u64)
        ensures
            r == 2000,
    {
        2000
    }

    /// Whether the adapter's slots all lie within the families they index.
    pub open spec fn slots_valid(&self, metrics: &SensorMetrics) -> bool {
        &&& self.pm1_0 < metrics.pm_conc.metrics@.len()
        &&& self.pm2_5 < metrics.pm_conc.metrics@.len()
        &&& self.pm10_0 < metrics.pm_conc.metrics@.len()
        &&& self.particles_0_3um < metrics.pm_count.metrics@.len()
        &&& self.particles_0_5um < metrics.pm_count.metrics@.len()
        &&& self.particles_1_0um < metrics.pm_count.metrics@.len()
        &&& self.particles_2_5um < metrics.pm_count.metrics@.len()
        &&& self.particles_5_0um < metrics.pm_count.metrics@.len()
        &&& self.particles_10_0um < metrics.pm_count.metrics@.len()
    }

    /// Register the sensor's concentration and count series. Registration is
    /// owed whenever each family has room or already holds the series; on a
    /// freshly built registry it always succeeds.
    pub fn bringup(metrics: &mut SensorMetrics) -> (r: Option<Pmsa003i>)
        ensures
            final(metrics).pm_conc.def == old(metrics).pm_conc.def,
            final(metrics).pm_count.def == old(metrics).pm_count.def,
            match r {
                Some(adapter) => adapter.slots_valid(final(metrics)),
                None => true,
            },
            old(metrics).pm_conc.metrics@.len() == 0 && old(metrics).pm_count.metrics@.len() == 0
                && old(metrics).pm_conc.metrics.spec_capacity() >= 3 && old(
                metrics,
            ).pm_count.metrics.spec_capacity() >= 6 ==> r is Some,
    {
        let pm2_5 = match metrics.pm_conc.register(
            DiameterLabel("2.5".to_owned()).to_labels(),
        ) {
            Some(i) => i,
            None => {
                return None;
            },
        };
        let pm1_0 = match metrics.pm_conc.register(
            DiameterLabel("1.0".to_owned()).to_labels(),
        ) {
            Some(i) => i,
            None => {
                return None;
            },
        };
        let pm10_0 = match metrics.pm_conc.register(
            DiameterLabel("10.0".to_owned()).to_labels(),
        ) {
            Some(i) => i,
            None => {
                return None;
            },
        };
        let particles_0_3um = match metrics.pm_count.register(
            DiameterLabel("0.3".to_owned()).to_labels(),
        ) {
            Some(i) => i,
            None => {
                return None;
            },
        };
        let particles_0_5um = match metrics.pm_count.register(
            DiameterLabel("0.5".to_owned()).to_labels(),
        ) {
            Some(i) => i,
            None => {
                return None;
            },
        };
        let particles_1_0um = match metrics.pm_count.register(
            DiameterLabel("1.0".to_owned()).to_labels(),
        ) {
            Some(i) => i,
            None => {
                return None;
            },
        };
        let particles_2_5um = match metrics.pm_count.register(
            DiameterLabel("2.5".to_owned()).to_labels(),
        ) {
            Some(i) => i,
            None => {
                return None;
            },
        };
        let particles_5_0um = match metrics.pm_count.register(
            DiameterLabel("5.0".to_owned()).to_labels(),
        ) {
            Some(i) => i,
            None => {
                return None;
            },
        };
        let particles_10_0um = match metrics.pm_count.register(
            DiameterLabel("10.0".to_owned()).to_labels(),
        ) {
            Some(i) => i,
            None => {
                return None;
            },
        };
        Some(
            Pmsa003i {
                pm1_0,
                pm2_5,
                pm10_0,
                particles_0_3um,
                particles_0_5um,
                particles_1_0um,
                particles_2_5um,
                particles_5_0um,
                particles_10_0um,
            },
        )
    }

    /// Store one decoded reading into the concentration and count series,
    /// stamped `now`: the environmental concentrations and all six particle
    /// counts, each as a whole-number gauge reading.
    pub fn record(&self, metrics: &mut SensorMetrics, reading: &Reading, now: u64)
        requires
            self.slots_valid(old(metrics)),
        ensures
            self.slots_valid(final(metrics)),
            final(metrics).pm_conc.def == old(metrics).pm_conc.def,
            final(metrics).pm_count.def == old(metrics).pm_count.def,
            final(metrics).pm_conc.metrics@ == old(metrics).pm_conc.metrics@.update(
                self.pm1_0 as int,
                (
                    old(metrics).pm_conc.metrics@[self.pm1_0 as int].0,
                    crate::metric::Gauge {
                        value: spec_gauge_of_u16(reading.concentrations.pm1_0),
                        timestamp: now,
                    },
                ),
            ).update(
                self.pm2_5 as int,
                (
                    old(metrics).pm_conc.metrics@[self.pm2_5 as int].0,
                    crate::metric::Gauge {
                        value: spec_gauge_of_u16(reading.concentrations.pm2_5),
                        timestamp: now,
                    },
                ),
            ).update(
                self.pm10_0 as int,
                (
                    old(metrics).pm_conc.metrics@[self.pm10_0 as int].0,
                    crate::metric::Gauge {
                        value: spec_gauge_of_u16(reading.concentrations.pm10_0),
                        timestamp: now,
                    },
                ),
            ),
            final(metrics).pm_count.metrics@ == old(metrics).pm_count.metrics@.update(
                self.particles_0_3um as int,
                (
                    old(metrics).pm_count.metrics@[self.particles_0_3um as int].0,
                    crate::metric::Gauge {
                        value: spec_gauge_of_u16(reading.counts.particles_0_3um),
                        timestamp: now,
                    },
                ),
            ).update(
                self.particles_0_5um as int,
                (
                    old(metrics).pm_count.metrics@[self.particles_0_5um as int].0,
                    crate::metric::Gauge {
                        value: spec_gauge_of_u16(reading.counts.particles_0_5um),
                        timestamp: now,
                    },
                ),
            ).update(
                self.particles_1_0um as int,
                (
                    old(metrics).pm_count.metrics@[self.particles_1_0um as int].0,
                    crate::metric::Gauge {
                        value: spec_gauge_of_u16(reading.counts.particles_1_0um),
                        timestamp: now,
                    },
                ),
            ).update(
                self.particles_2_5um as int,
                (
                    old(metrics).pm_count.metrics@[self.particles_2_5um as int].0,
                    crate::metric::Gauge {
                        value: spec_gauge_of_u16(reading.counts.particles_2_5um),
                        timestamp: now,
                    },
                ),
            ).update(
                self.particles_5_0um as int,
                (
                    old(metrics).pm_count.metrics@[self.particles_5_0um as int].0,
                    crate::metric::Gauge {
                        value: spec_gauge_of_u16(reading.counts.particles_5_0um),
                        timestamp: now,
                    },
                ),
            ).update(
                self.particles_10_0um as int,
                (
                    old(metrics).pm_count.metrics@[self.particles_10_0um as int].0,
                    crate::metric::Gauge {
                        value: spec_gauge_of_u16(reading.counts.particles_10_0um),
                        timestamp: now,
                    },
                ),
            ),
            final(metrics).temp == old(metrics).temp,
            final(metrics).co2 == old(metrics).co2,
            final(metrics).eco2 == old(metrics).eco2,
            final(metrics).rel_humidity == old(metrics).rel_humidity,
            final(metrics).abs_humidity == old(metrics).abs_humidity,
            final(metrics).pressure == old(metrics).pressure,
            final(metrics).gas_resistance == old(metrics).gas_resistance,
            final(metrics).tvoc == old(metrics).tvoc,
            final(metrics).sensor_errors == old(metrics).sensor_errors,
    {
        metrics.pm_conc.set_value(self.pm1_0, gauge_of_u16(reading.concentrations.pm1_0), now);
        metrics.pm_conc.set_value(self.pm2_5, gauge_of_u16(reading.concentrations.pm2_5), now);
        metrics.pm_conc.set_value(self.pm10_0, gauge_of_u16(reading.concentrations.pm10_0), now);
        metrics.pm_count.set_value(
            self.particles_0_3um,
            gauge_of_u16(reading.counts.particles_0_3um),
            now,
        );
        metrics.pm_count.set_value(
            self.particles_0_5um,
            gauge_of_u16(reading.counts.particles_0_5um),
            now,
        );
        metrics.pm_count.set_value(
            self.particles_1_0um,
            gauge_of_u16(reading.counts.particles_1_0um),
            now,
        );
        metrics.pm_count.set_value(
            self.particles_2_5um,
            gauge_of_u16(reading.counts.particles_2_5um),
            now,
        );
        metrics.pm_count.set_value(
            self.particles_5_0um,
            gauge_of_u16(reading.counts.particles_5_0um),
            now,
        );
        metrics.pm_count.set_value(
            self.particles_10_0um,
            gauge_of_u16(reading.counts.particles_10_0um),
            now,
        );
    }
}

} // verus!
