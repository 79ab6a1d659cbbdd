//! The VOC sensor's adapter: where its readings go, the self-calibration
//! window during which readings are discarded, and the cadence at which the
//! published absolute-humidity readings are averaged and pushed back into
//! the device for on-chip compensation. The I2C driver itself lives outside
//! the library and hands readings in as plain values.

use vstd::prelude::*;

use crate::metric::{spec_average, spec_gauge_set, GaugeValue};
use crate::metrics::{SensorLabel, SensorMetrics};
use crate::units::ABS_HUMIDITY_INTERVAL;

verus! {

/// How many initial readings fall inside the device's self-calibration
/// window and are discarded.
pub const INIT_MEASUREMENTS: u64 = 15;

/// The VOC sensor's adapter: its metric slots, poll count, and whether it
/// is still inside the self-calibration window.
#[derive(Debug)]
pub struct Sgp30 {
    /// Slot of the CO2-equivalent series.
    pub eco2: usize,
    /// Slot of the total-VOC series.
    pub tvoc: usize,
    /// How many readings the device has produced.
    pub polls: u64,
    /// Whether the device is still self-calibrating.
    pub init: bool,
}

impl Sgp30 {
    /// The sensor's poll cadence: it must be polled once a second, and a
    /// measurement takes twelve milliseconds.
    pub fn poll_interval_ms() -> (r: u64)
        ensures
            r == 988,
    {
        988
    }

    /// Whether the adapter's slots all lie within the families they index.
    pub open spec fn slots_valid(&self, metrics: &SensorMetrics) -> bool {
        &&& self.eco2 < metrics.eco2.metrics@.len()
        &&& self.tvoc < metrics.tvoc.metrics@.len()
    }

    /// Register the sensor's series under its name. Registration is owed
    /// whenever each family has room.
    pub fn bringup(metrics: &mut SensorMetrics) -> (r: Option<Sgp30>)
        ensures
            final(metrics).eco2.def == old(metrics).eco2.def,
            final(metrics).tvoc.def == old(metrics).tvoc.def,
            final(metrics).abs_humidity == old(metrics).abs_humidity,
            match r {
                Some(adapter) => adapter.slots_valid(final(metrics)) && adapter.polls == 0
                    && adapter.init,
                None => true,
            },
            (old(metrics).eco2.metrics@.len() < old(metrics).eco2.metrics.spec_capacity() && old(
                metrics,
            ).tvoc.metrics@.len() < old(metrics).tvoc.metrics.spec_capacity()) ==> (r is Some),
    {
        let eco2 = match metrics.eco2.register(SensorLabel("SGP30".to_owned()).to_labels()) {
            Some(i) => i,
            None => {
                return None;
            },
        };
        let tvoc = match metrics.tvoc.register(SensorLabel("SGP30".to_owned()).to_labels()) {
            Some(i) => i,
            None => {
                return None;
            },
        };
        Some(Sgp30 { eco2, tvoc, polls: 0, init: true })
    }

    /// Store one reading, stamped `now`, unless the device is still inside
    /// its self-calibration window: the first readings, up to the window's
    /// length, are discarded, and the one after the window ends is the
    /// first one published. Returns whether the reading was published.
    pub fn record(
        &mut self,
        metrics: &mut SensorMetrics,
        eco2_ppm: u16,
        tvoc_ppb: u16,
        now: u64,
    ) -> (published: bool)
        requires
            old(self).slots_valid(old(metrics)),
        ensures
            final(self).slots_valid(final(metrics)),
            final(self).polls == if old(self).polls < u64::MAX {
                old(self).polls + 1
            } else {
                0int
            },
            final(self).eco2 == old(self).eco2,
            final(self).tvoc == old(self).tvoc,
            published == (!old(self).init || final(self).polls > INIT_MEASUREMENTS),
            final(self).init == (old(self).init && final(self).polls <= INIT_MEASUREMENTS),
            final(metrics).eco2.metrics@ == if published {
                spec_gauge_set(
                    old(metrics).eco2.metrics@,
                    old(self).eco2 as int,
                    crate::pmsa003i::spec_gauge_of_u16(eco2_ppm),
                    now,
                )
            } else {
                old(metrics).eco2.metrics@
            },
            final(metrics).tvoc.metrics@ == if published {
                spec_gauge_set(
                    old(metrics).tvoc.metrics@,
                    old(self).tvoc as int,
                    crate::pmsa003i::spec_gauge_of_u16(tvoc_ppb),
                    now,
                )
            } else {
                old(metrics).tvoc.metrics@
            },
            final(metrics).eco2.def == old(metrics).eco2.def,
            final(metrics).tvoc.def == old(metrics).tvoc.def,
            final(metrics).temp == old(metrics).temp,
            final(metrics).co2 == old(metrics).co2,
            final(metrics).rel_humidity == old(metrics).rel_humidity,
            final(metrics).abs_humidity == old(metrics).abs_humidity,
            final(metrics).pressure == old(metrics).pressure,
            final(metrics).gas_resistance == old(metrics).gas_resistance,
            final(metrics).pm_conc == old(metrics).pm_conc,
            final(metrics).pm_count == old(metrics).pm_count,
            final(metrics).sensor_errors == old(metrics).sensor_errors,
    {
        self.polls = self.polls.wrapping_add(1);
        if self.init {
            if self.polls > INIT_MEASUREMENTS {
                self.init = false;
            } else {
                return false;
            }
        }
        metrics.eco2.set_value(self.eco2, crate::pmsa003i::gauge_of_u16(eco2_ppm), now);
        metrics.tvoc.set_value(self.tvoc, crate::pmsa003i::gauge_of_u16(tvoc_ppb), now);
        true
    }

    /// The humidity reading to push into the device for on-chip
    /// compensation, if this poll calls for one: on every poll whose count
    /// is a multiple of twice the humidity-publishing interval, the mean of
    /// the published absolute-humidity readings, unless no reading is
    /// published yet, the mean is zero, or it is negative (which the device
    /// cannot take).
    pub fn humidity_push(&self, metrics: &SensorMetrics) -> (r: Option<GaugeValue>)
        ensures
            r == if self.polls as int % (2 * ABS_HUMIDITY_INTERVAL as int) == 0 {
                match spec_average(metrics.abs_humidity.metrics@) {
                    Some(avg) => if !avg.neg && avg.milli != 0 {
                        Some(avg)
                    } else {
                        None::<GaugeValue>
                    },
                    None => None::<GaugeValue>,
                }
            } else {
                None::<GaugeValue>
            },
    {
        if self.polls % (2 * ABS_HUMIDITY_INTERVAL) != 0 {
            return None;
        }
        match metrics.abs_humidity.average() {
            Some(avg) => {
                if !avg.neg && avg.milli != 0 {
                    Some(avg)
                } else {
                    None
                }
            },
            None => None,
        }
    }
}

} // verus!
