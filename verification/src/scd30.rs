//! The CO2 sensor's adapter: where its readings go, its poll cadence, and
//! the checks on operator control messages. The I2C driver itself lives
//! outside the library and hands readings in as plain values.

use vstd::prelude::*;

use crate::metric::{spec_gauge_set, GaugeValue};
use crate::metrics::{SensorLabel, SensorMetrics};
use crate::units::ABS_HUMIDITY_INTERVAL;

verus! {

/// The measurement interval the sensor starts with, in seconds.
pub const INITIAL_INTERVAL_SECS: u16 = 2;

/// An operator command for the CO2 sensor.
#[derive(Clone, Debug, PartialEq, Eq, Structural)]
pub enum ControlMessage {
    /// Force calibrate the sensor to the given CO2 parts per million.
    ForceCalibrate {
        /// The reference concentration.
        ppm: u16,
    },
    /// Set the sensor's altitude offset.
    SetAltOffset(u16),
    /// Set the sensor's measurement interval, in seconds.
    SetMeasurementInterval {
        /// The new interval; zero is refused.
        secs: u16,
    },
    /// Trigger a soft reset.
    SoftReset,
}

/// A control message the sensor must not be given.
#[derive(Copy, Clone, Debug, PartialEq, Eq, Structural)]
pub enum ControlError {
    /// A measurement interval must be at least one second.
    ZeroMeasurementInterval,
}

/// One reading from the sensor.
#[derive(Copy, Clone, Debug, PartialEq, Eq, Structural)]
pub struct Measurement {
    /// CO2 in parts per million.
    pub co2: GaugeValue,
    /// Temperature in degrees Celsius.
    pub temp: GaugeValue,
    /// Relative humidity percentage.
    pub rh: GaugeValue,
}

/// The CO2 sensor's adapter: its metric slots, cadence and poll count.
#[derive(Debug)]
pub struct Scd30 {
    /// Slot of the CO2 series.
    pub co2: usize,
    /// Slot of the temperature series.
    pub temp: usize,
    /// Slot of the relative-humidity series.
    pub rel_humidity: usize,
    /// Slot of the absolute-humidity series.
    pub abs_humidity: usize,
    /// The configured measurement interval, in seconds.
    pub measurement_interval_secs: u16,
    /// How many readings have been recorded.
    pub polls: u64,
}

impl Scd30 {
    /// Whether the adapter's slots all lie within the families they index.
    pub open spec fn slots_valid(&self, metrics: &SensorMetrics) -> bool {
        &&& self.co2 < metrics.co2.metrics@.len()
        &&& self.temp < metrics.temp.metrics@.len()
        &&& self.rel_humidity < metrics.rel_humidity.metrics@.len()
        &&& self.abs_humidity < metrics.abs_humidity.metrics@.len()
    }

    /// Register the sensor's series: CO2 under its own name, and the
    /// humidity/temperature series under the name of its onboard
    /// hygrometer. Registration is owed whenever each family has room.
    pub fn bringup(metrics: &mut SensorMetrics) -> (r: Option<Scd30>)
        ensures
            final(metrics).co2.def == old(metrics).co2.def,
            final(metrics).temp.def == old(metrics).temp.def,
            final(metrics).rel_humidity.def == old(metrics).rel_humidity.def,
            final(metrics).abs_humidity.def == old(metrics).abs_humidity.def,
            match r {
                Some(adapter) => {
                    &&& adapter.slots_valid(final(metrics))
                    &&& adapter.measurement_interval_secs == INITIAL_INTERVAL_SECS
                    &&& adapter.polls == 0
                },
                None => true,
            },
            (old(metrics).co2.metrics@.len() < old(metrics).co2.metrics.spec_capacity() && old(
                metrics,
            ).temp.metrics@.len() < old(metrics).temp.metrics.spec_capacity() && old(
                metrics,
            ).rel_humidity.metrics@.len() < old(metrics).rel_humidity.metrics.spec_capacity()
                && old(metrics).abs_humidity.metrics@.len() < old(
                metrics,
            ).abs_humidity.metrics.spec_capacity()) ==> (r is Some),
    {
        let co2 = match metrics.co2.register(SensorLabel("SCD30".to_owned()).to_labels()) {
            Some(i) => i,
            None => {
                return None;
            },
        };
        let temp = match metrics.temp.register(SensorLabel("SHT31".to_owned()).to_labels()) {
            Some(i) => i,
            None => {
                return None;
            },
        };
        let rel_humidity = match metrics.rel_humidity.register(
            SensorLabel("SHT31".to_owned()).to_labels(),
        ) {
            Some(i) => i,
            None => {
                return None;
            },
        };
        let abs_humidity = match metrics.abs_humidity.register(
            SensorLabel("SHT31".to_owned()).to_labels(),
        ) {
            Some(i) => i,
            None => {
                return None;
            },
        };
        Some(
            Scd30 {
                co2,
                temp,
                rel_humidity,
                abs_humidity,
                measurement_interval_secs: INITIAL_INTERVAL_SECS,
                polls: 0,
            },
        )
    }

    /// The sensor's poll cadence, in milliseconds.
    pub fn poll_interval_ms(&self) -> (r: u64)
        ensures
            r == self.measurement_interval_secs * 1000,
    {
        (self.measurement_interval_secs as u64) * 1000
    }

    /// Store one reading, stamped `now`: CO2, relative humidity and
    /// temperature on every poll, and the externally computed absolute
    /// humidity on every poll whose count is a multiple of the
    /// humidity-publishing interval.
    pub fn record(
        &mut self,
        metrics: &mut SensorMetrics,
        m: &Measurement,
        abs_humidity: GaugeValue,
        now: u64,
    )
        requires
            old(self).slots_valid(old(metrics)),
        ensures
            final(self).slots_valid(final(metrics)),
            final(self).polls == if old(self).polls < u64::MAX {
                old(self).polls + 1
            } else {
                0int
            },
            final(self).co2 == old(self).co2,
            final(self).temp == old(self).temp,
            final(self).rel_humidity == old(self).rel_humidity,
            final(self).abs_humidity == old(self).abs_humidity,
            final(self).measurement_interval_secs == old(self).measurement_interval_secs,
            final(metrics).co2.metrics@ == spec_gauge_set(
                old(metrics).co2.metrics@,
                old(self).co2 as int,
                m.co2,
                now,
            ),
            final(metrics).rel_humidity.metrics@ == spec_gauge_set(
                old(metrics).rel_humidity.metrics@,
                old(self).rel_humidity as int,
                m.rh,
                now,
            ),
            final(metrics).temp.metrics@ == spec_gauge_set(
                old(metrics).temp.metrics@,
                old(self).temp as int,
                m.temp,
                now,
            ),
            final(metrics).abs_humidity.metrics@ == if final(self).polls % ABS_HUMIDITY_INTERVAL
                == 0 {
                spec_gauge_set(
                    old(metrics).abs_humidity.metrics@,
                    old(self).abs_humidity as int,
                    abs_humidity,
                    now,
                )
            } else {
                old(metrics).abs_humidity.metrics@
            },
            final(metrics).co2.def == old(metrics).co2.def,
            final(metrics).temp.def == old(metrics).temp.def,
            final(metrics).rel_humidity.def == old(metrics).rel_humidity.def,
            final(metrics).abs_humidity.def == old(metrics).abs_humidity.def,
            final(metrics).eco2 == old(metrics).eco2,
            final(metrics).pressure == old(metrics).pressure,
            final(metrics).gas_resistance == old(metrics).gas_resistance,
            final(metrics).tvoc == old(metrics).tvoc,
            final(metrics).pm_conc == old(metrics).pm_conc,
            final(metrics).pm_count == old(metrics).pm_count,
            final(metrics).sensor_errors == old(metrics).sensor_errors,
    {
        self.polls = self.polls.wrapping_add(1);
        metrics.co2.set_value(self.co2, m.co2, now);
        metrics.rel_humidity.set_value(self.rel_humidity, m.rh, now);
        metrics.temp.set_value(self.temp, m.temp, now);
        if self.polls % ABS_HUMIDITY_INTERVAL == 0 {
            metrics.abs_humidity.set_value(self.abs_humidity, abs_humidity, now);
        }
    }

    /// Check an operator command before it reaches the driver: a
    /// measurement interval of zero is refused; everything else may go
    /// through.
    pub fn check_control(msg: &ControlMessage) -> (r: Result<(), ControlError>)
        ensures
            match r {
                Ok(()) => !(msg matches ControlMessage::SetMeasurementInterval { secs: 0u16 }),
                Err(ControlError::ZeroMeasurementInterval) => msg
                    matches ControlMessage::SetMeasurementInterval { secs: 0u16 },
            },
    {
        match msg {
            ControlMessage::SetMeasurementInterval { secs } => {
                if *secs == 0 {
                    Err(ControlError::ZeroMeasurementInterval)
                } else {
                    Ok(())
                }
            },
            _ => Ok(()),
        }
    }
}

} // verus!
