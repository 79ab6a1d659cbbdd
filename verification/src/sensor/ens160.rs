//! The air-quality sensor's adapter: where its readings go, the status
//! gating that keeps invalid data out of the registry, and the cadence at
//! which the published temperature and humidity readings are averaged and
//! pushed into the device for compensation. The I2C driver itself lives
//! outside the library and hands readings in as plain values.

use vstd::prelude::*;

use crate::metric::{spec_average, spec_gauge_set, GaugeValue};
use crate::metrics::{SensorLabel, SensorMetrics};

verus! {

/// How many published polls pass between compensation pushes.
pub const CALIBRATE_INTERVAL: u64 = 5;

/// What the device's status register said at this poll.
#[derive(Copy, Clone, Debug, PartialEq, Eq, Structural)]
pub struct DeviceStatus {
    /// New data waits in the general-purpose registers.
    pub new_data_in_gpr: bool,
    /// A measurement is ready to read.
    pub data_is_ready: bool,
    /// The device reports normal operation, so its data is valid.
    pub validity_normal: bool,
}

/// The air-quality sensor's adapter: its metric slots and published-poll
/// count.
#[derive(Debug)]
pub struct Ens160 {
    /// Slot of the CO2-equivalent series.
    pub eco2: usize,
    /// Slot of the total-VOC series.
    pub tvoc: usize,
    /// How many valid readings have been published.
    pub polls: u64,
}

impl Ens160 {
    /// The sensor's poll cadence, in milliseconds.
    pub fn poll_interval_ms() -> (r: u64)
        ensures
            r == 2000,
    {
        2000
    }

    /// Whether the adapter's slots all lie within the families they index.
    pub open spec fn slots_valid(&self, metrics: &SensorMetrics) -> bool {
        &&& self.eco2 < metrics.eco2.metrics@.len()
        &&& self.tvoc < metrics.tvoc.metrics@.len()
    }

    /// Register the sensor's series under its name. Registration is owed
    /// whenever each family has room.
    pub fn bringup(metrics: &mut SensorMetrics) -> (r: Option<Ens160>)
        ensures
            final(metrics).eco2.def == old(metrics).eco2.def,
            final(metrics).tvoc.def == old(metrics).tvoc.def,
            final(metrics).temp == old(metrics).temp,
            final(metrics).rel_humidity == old(metrics).rel_humidity,
            match r {
                Some(adapter) => adapter.slots_valid(final(metrics)) && adapter.polls == 0,
                None => true,
            },
            (old(metrics).eco2.metrics@.len() < old(metrics).eco2.metrics.spec_capacity() && old(
                metrics,
            ).tvoc.metrics@.len() < old(metrics).tvoc.metrics.spec_capacity()) ==> (r is Some),
    {
        let eco2 = match metrics.eco2.register(SensorLabel("ENS160".to_owned()).to_labels()) {
            Some(i) => i,
            None => {
                return None;
            },
        };
        let tvoc = match metrics.tvoc.register(SensorLabel("ENS160".to_owned()).to_labels()) {
            Some(i) => i,
            None => {
                return None;
            },
        };
        Some(Ens160 { eco2, tvoc, polls: 0 })
    }

    /// Whether this poll calls for a compensation push: every time the
    /// published-poll count is a multiple of the calibration interval.
    pub fn should_calibrate(&self) -> (r: bool)
        ensures
            r == (self.polls as int % (CALIBRATE_INTERVAL as int) == 0),
    {
        self.polls % CALIBRATE_INTERVAL == 0
    }

    /// The temperature and relative-humidity means to push into the device
    /// for compensation, unless both are at or below zero (nothing useful is
    /// published yet).
    pub fn calibration(&self, metrics: &SensorMetrics) -> (r: Option<(GaugeValue, GaugeValue)>)
        ensures
            r == (match (
                spec_average(metrics.temp.metrics@),
                spec_average(metrics.rel_humidity.metrics@),
            ) {
                (Some(avg_temp), Some(avg_hum)) => if (avg_temp.neg || avg_temp.milli == 0) && (
                avg_hum.neg || avg_hum.milli == 0) {
                    None::<(GaugeValue, GaugeValue)>
                } else {
                    Some((avg_temp, avg_hum))
                },
                _ => None::<(GaugeValue, GaugeValue)>,
            }),
    {
        let avg_temp = metrics.temp.average();
        let avg_hum = metrics.rel_humidity.average();
        match (avg_temp, avg_hum) {
            (Some(t), Some(h)) => {
                let t_nonpositive = t.neg || t.milli == 0;
                let h_nonpositive = h.neg || h.milli == 0;
                if t_nonpositive && h_nonpositive {
                    None
                } else {
                    Some((t, h))
                }
            },
            _ => None,
        }
    }

    /// Store one reading, stamped `now`, when the status register says
    /// there is data and the device reports normal operation; only
    /// published readings advance the poll count. Returns whether the
    /// reading was published.
    pub fn record(
        &mut self,
        metrics: &mut SensorMetrics,
        status: DeviceStatus,
        eco2_ppm: u16,
        tvoc_ppb: u16,
        now: u64,
    ) -> (published: bool)
        requires
            old(self).slots_valid(old(metrics)),
        ensures
            final(self).slots_valid(final(metrics)),
            final(self).eco2 == old(self).eco2,
            final(self).tvoc == old(self).tvoc,
            published == ((status.new_data_in_gpr || status.data_is_ready)
                && status.validity_normal),
            final(self).polls == if published && old(self).polls < u64::MAX {
                old(self).polls + 1
            } else if published {
                0int
            } else {
                old(self).polls as int
            },
            final(metrics).eco2.metrics@ == if published {
                spec_gauge_set(
                    old(metrics).eco2.metrics@,
                    old(self).eco2 as int,
                    crate::pmsa003i::spec_gauge_of_u16(eco2_ppm),
                    now,
                )
            } else {
                old(metrics).eco2.metrics@
            },
            final(metrics).tvoc.metrics@ == if published {
                spec_gauge_set(
                    old(metrics).tvoc.metrics@,
                    old(self).tvoc as int,
                    crate::pmsa003i::spec_gauge_of_u16(tvoc_ppb),
                    now,
                )
            } else {
                old(metrics).tvoc.metrics@
            },
            final(metrics).eco2.def == old(metrics).eco2.def,
            final(metrics).tvoc.def == old(metrics).tvoc.def,
            final(metrics).temp == old(metrics).temp,
            final(metrics).co2 == old(metrics).co2,
            final(metrics).rel_humidity == old(metrics).rel_humidity,
            final(metrics).abs_humidity == old(metrics).abs_humidity,
            final(metrics).pressure == old(metrics).pressure,
            final(metrics).gas_resistance == old(metrics).gas_resistance,
            final(metrics).pm_conc == old(metrics).pm_conc,
            final(metrics).pm_count == old(metrics).pm_count,
            final(metrics).sensor_errors == old(metrics).sensor_errors,
    {
        if !(status.new_data_in_gpr || status.data_is_ready) {
            return false;
        }
        if !status.validity_normal {
            return false;
        }
        metrics.tvoc.set_value(self.tvoc, crate::pmsa003i::gauge_of_u16(tvoc_ppb), now);
        metrics.eco2.set_value(self.eco2, crate::pmsa003i::gauge_of_u16(eco2_ppm), now);
        self.polls = self.polls.wrapping_add(1);
        true
    }
}

} // verus!
