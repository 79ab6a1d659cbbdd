//! The pressure/VOC sensor's adapter: where its readings go, with the
//! vendor driver's pressure output normalized from its hundredfold scale.
//! The I2C driver itself lives outside the library and hands readings in as
//! plain values.

use vstd::prelude::*;

use crate::metric::{spec_gauge_set, GaugeValue};
use crate::metrics::{SensorLabel, SensorMetrics};
use crate::units::ABS_HUMIDITY_INTERVAL;

verus! {

/// One reading from the sensor, as the driver reports it.
#[derive(Copy, Clone, Debug, PartialEq, Eq, Structural)]
pub struct Measurement {
    /// Temperature in degrees Celsius.
    pub temperature: GaugeValue,
    /// Pressure as the driver reports it: a hundred times the hectopascal
    /// value.
    pub pressure: GaugeValue,
    /// Relative humidity percentage.
    pub humidity: GaugeValue,
    /// Gas resistance in Ohms, when the driver measured it.
    pub gas_resistance: Option<GaugeValue>,
}

/// The pressure series' reading: the driver's output scaled down a
/// hundredfold to hectopascals.
pub open spec fn spec_normalized_pressure(p: GaugeValue) -> GaugeValue {
    GaugeValue { neg: p.neg, milli: (p.milli / 100) as u64 }
}

/// The pressure/VOC sensor's adapter: its metric slots and poll count.
#[derive(Debug)]
pub struct Bme680 {
    /// Slot of the pressure series.
    pub pressure: usize,
    /// Slot of the temperature series.
    pub temp: usize,
    /// Slot of the relative-humidity series.
    pub rel_humidity: usize,
    /// Slot of the absolute-humidity series.
    pub abs_humidity: usize,
    /// Slot of the gas-resistance series.
    pub gas_resistance: usize,
    /// How many readings have been recorded.
    pub polls: u64,
}

impl Bme680 {
    /// The sensor's poll cadence, in milliseconds.
    pub fn poll_interval_ms() -> (r: u64)
        ensures
            r == 2000,
    {
        2000
    }

    /// Whether the adapter's slots all lie within the families they index.
    pub open spec fn slots_valid(&self, metrics: &SensorMetrics) -> bool {
        &&& self.pressure < metrics.pressure.metrics@.len()
        &&& self.temp < metrics.temp.metrics@.len()
        &&& self.rel_humidity < metrics.rel_humidity.metrics@.len()
        &&& self.abs_humidity < metrics.abs_humidity.metrics@.len()
        &&& self.gas_resistance < metrics.gas_resistance.metrics@.len()
    }

    /// Register the sensor's series under its name. Registration is owed
    /// whenever each family has room.
    pub fn bringup(metrics: &mut SensorMetrics) -> (r: Option<Bme680>)
        ensures
            final(metrics).pressure.def == old(metrics).pressure.def,
            final(metrics).temp.def == old(metrics).temp.def,
            final(metrics).rel_humidity.def == old(metrics).rel_humidity.def,
            final(metrics).abs_humidity.def == old(metrics).abs_humidity.def,
            final(metrics).gas_resistance.def == old(metrics).gas_resistance.def,
            match r {
                Some(adapter) => adapter.slots_valid(final(metrics)) && adapter.polls == 0,
                None => true,
            },
            (old(metrics).pressure.metrics@.len() < old(
                metrics,
            ).pressure.metrics.spec_capacity() && old(metrics).temp.metrics@.len() < old(
                metrics,
            ).temp.metrics.spec_capacity() && old(metrics).rel_humidity.metrics@.len() < old(
                metrics,
            ).rel_humidity.metrics.spec_capacity() && old(metrics).abs_humidity.metrics@.len()
                < old(metrics).abs_humidity.metrics.spec_capacity() && old(
                metrics,
            ).gas_resistance.metrics@.len() < old(metrics).gas_resistance.metrics.spec_capacity())
                ==> (r is Some),
    {
        let pressure = match metrics.pressure.register(
            SensorLabel("BME680".to_owned()).to_labels(),
        ) {
            Some(i) => i,
            None => {
                return None;
            },
        };
        let temp = match metrics.temp.register(SensorLabel("BME680".to_owned()).to_labels()) {
            Some(i) => i,
            None => {
                return None;
            },
        };
        let rel_humidity = match metrics.rel_humidity.register(
            SensorLabel("BME680".to_owned()).to_labels(),
        ) {
            Some(i) => i,
            None => {
                return None;
            },
        };
        let abs_humidity = match metrics.abs_humidity.register(
            SensorLabel("BME680".to_owned()).to_labels(),
        ) {
            Some(i) => i,
            None => {
                return None;
            },
        };
        let gas_resistance = match metrics.gas_resistance.register(
            SensorLabel("BME680".to_owned()).to_labels(),
        ) {
            Some(i) => i,
            None => {
                return None;
            },
        };
        Some(Bme680 { pressure, temp, rel_humidity, abs_humidity, gas_resistance, polls: 0 })
    }

    /// Store one reading, stamped `now`: normalized pressure, temperature
    /// and relative humidity on every poll; the externally computed absolute
    /// humidity on every poll whose count is a multiple of the
    /// humidity-publishing interval; and gas resistance whenever the driver
    /// measured it.
    pub fn record(
        &mut self,
        metrics: &mut SensorMetrics,
        m: &Measurement,
        abs_humidity: GaugeValue,
        now: u64,
    )
        requires
            old(self).slots_valid(old(metrics)),
        ensures
            final(self).slots_valid(final(metrics)),
            final(self).polls == if old(self).polls < u64::MAX {
                old(self).polls + 1
            } else {
                0int
            },
            final(self).pressure == old(self).pressure,
            final(self).temp == old(self).temp,
            final(self).rel_humidity == old(self).rel_humidity,
            final(self).abs_humidity == old(self).abs_humidity,
            final(self).gas_resistance == old(self).gas_resistance,
            final(metrics).pressure.metrics@ == spec_gauge_set(
                old(metrics).pressure.metrics@,
                old(self).pressure as int,
                spec_normalized_pressure(m.pressure),
                now,
            ),
            final(metrics).temp.metrics@ == spec_gauge_set(
                old(metrics).temp.metrics@,
                old(self).temp as int,
                m.temperature,
                now,
            ),
            final(metrics).rel_humidity.metrics@ == spec_gauge_set(
                old(metrics).rel_humidity.metrics@,
                old(self).rel_humidity as int,
                m.humidity,
                now,
            ),
            final(metrics).abs_humidity.metrics@ == if final(self).polls % ABS_HUMIDITY_INTERVAL
                == 0 {
                spec_gauge_set(
                    old(metrics).abs_humidity.metrics@,
                    old(self).abs_humidity as int,
                    abs_humidity,
                    now,
                )
            } else {
                old(metrics).abs_humidity.metrics@
            },
            final(metrics).gas_resistance.metrics@ == (match m.gas_resistance {
                Some(gas) => spec_gauge_set(
                    old(metrics).gas_resistance.metrics@,
                    old(self).gas_resistance as int,
                    gas,
                    now,
                ),
                None => old(metrics).gas_resistance.metrics@,
            }),
            final(metrics).pressure.def == old(metrics).pressure.def,
            final(metrics).temp.def == old(metrics).temp.def,
            final(metrics).rel_humidity.def == old(metrics).rel_humidity.def,
            final(metrics).abs_humidity.def == old(metrics).abs_humidity.def,
            final(metrics).gas_resistance.def == old(metrics).gas_resistance.def,
            final(metrics).co2 == old(metrics).co2,
            final(metrics).eco2 == old(metrics).eco2,
            final(metrics).tvoc == old(metrics).tvoc,
            final(metrics).pm_conc == old(metrics).pm_conc,
            final(metrics).pm_count == old(metrics).pm_count,
            final(metrics).sensor_errors == old(metrics).sensor_errors,
    {
        self.polls = self.polls.wrapping_add(1);
        let pressure_hpa = GaugeValue { neg: m.pressure.neg, milli: m.pressure.milli / 100 };
        metrics.pressure.set_value(self.pressure, pressure_hpa, now);
        metrics.temp.set_value(self.temp, m.temperature, now);
        metrics.rel_humidity.set_value(self.rel_humidity, m.humidity, now);
        if self.polls % ABS_HUMIDITY_INTERVAL == 0 {
            metrics.abs_humidity.set_value(self.abs_humidity, abs_humidity, now);
        }
        match m.gas_resistance {
            Some(gas) => {
                metrics.gas_resistance.set_value(self.gas_resistance, gas, now);
            },
            None => {},
        }
    }
}

} // verus!
