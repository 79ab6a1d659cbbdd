//! The appliance's fixed set of metric families, and their label shapes.

use vstd::prelude::*;

use crate::metric::{
    labels_view, spec_json_string, Counter, Gauge, Labels, Metric, MetricDef, MetricFamily,
};

verus! {

/// The number of cells most gauge families can hold.
pub const MAX_METRICS: usize = 4;

/// A label tuple naming the sensor that produced a reading.
#[derive(Debug)]
pub struct SensorLabel(pub String);

/// A label tuple naming a particle diameter; such series always also carry
/// the particulate sensor's name.
#[derive(Debug)]
pub struct DiameterLabel(pub String);

impl SensorLabel {
    /// The label pairs this label renders as.
    pub fn to_labels(&self) -> (r: Labels)
        ensures
            labels_view(r@) == seq![("sensor"@, self.0@)],
    {
        let mut v: Labels = Vec::new();
        v.push(("sensor".to_owned(), self.0.clone()));
        proof {
            assert(labels_view(v@) =~= seq![("sensor"@, self.0@)]);
        }
        v
    }
}

impl DiameterLabel {
    /// The label pairs this label renders as.
    pub fn to_labels(&self) -> (r: Labels)
        ensures
            labels_view(r@) == seq![("diameter"@, self.0@), ("sensor"@, "PMSA003I"@)],
    {
        let mut v: Labels = Vec::new();
        v.push(("diameter".to_owned(), self.0.clone()));
        v.push(("sensor".to_owned(), "PMSA003I".to_owned()));
        proof {
            assert(labels_view(v@) =~= seq![("diameter"@, self.0@), ("sensor"@, "PMSA003I"@)]);
        }
        v
    }
}

/// Whether a family is freshly built with the given metadata and capacity
/// and holds no cells yet.
pub open spec fn is_fresh_family<M: Metric>(
    f: MetricFamily<M>,
    name: Seq<char>,
    help: Seq<char>,
    unit: Option<Seq<char>>,
    cap: nat,
) -> bool {
    &&& f.def.name@ == name
    &&& f.def.help matches Some(h) && h@ == help
    &&& match unit {
        Some(u) => f.def.unit matches Some(x) && x@ == u,
        None => f.def.unit is None,
    }
    &&& f.metrics@.len() == 0
    &&& f.metrics.spec_capacity() == cap
}

/// Every metric family the appliance exposes.
#[derive(Debug)]
pub struct SensorMetrics {
    /// Temperature in degrees Celsius, by sensor.
    pub temp: MetricFamily<Gauge>,
    /// CO2 in parts per million, by sensor.
    pub co2: MetricFamily<Gauge>,
    /// VOC-equivalent CO2 in parts per million, by sensor.
    pub eco2: MetricFamily<Gauge>,
    /// Relative humidity percentage, by sensor.
    pub rel_humidity: MetricFamily<Gauge>,
    /// Absolute humidity in grams per cubic meter, by sensor.
    pub abs_humidity: MetricFamily<Gauge>,
    /// Barometric pressure in hectopascals, by sensor.
    pub pressure: MetricFamily<Gauge>,
    /// VOC sensor resistance in Ohms, by sensor.
    pub gas_resistance: MetricFamily<Gauge>,
    /// Total volatile organic compounds in parts per billion, by sensor.
    pub tvoc: MetricFamily<Gauge>,
    /// Particulate matter concentration, by diameter.
    pub pm_conc: MetricFamily<Gauge>,
    /// Particulate matter counts, by diameter.
    pub pm_count: MetricFamily<Gauge>,
    /// Count of errors that occurred while talking to each sensor.
    pub sensor_errors: MetricFamily<Counter>,
}

impl SensorMetrics {
    /// Build the fixed set of families, each empty, with its exposition
    /// metadata and capacity.
    pub fn new() -> (r: SensorMetrics)
        ensures
            is_fresh_family(
                r.temp,
                "temperature_degrees_celcius"@,
                "Temperature in degrees Celcius."@,
                Some("celcius"@),
                MAX_METRICS as nat,
            ),
            is_fresh_family(
                r.co2,
                "co2_ppm"@,
                "CO2 in parts per million (ppm)."@,
                Some("ppm"@),
                MAX_METRICS as nat,
            ),
            is_fresh_family(
                r.eco2,
                "eco2_ppm"@,
                "VOC equivalent CO2 (eCO2) calculated by a tVOC sensor, in parts per million (ppm)."@,
                Some("ppm"@),
                MAX_METRICS as nat,
            ),
            is_fresh_family(
                r.rel_humidity,
                "humidity_percent"@,
                "Relative humidity (RH) percentage."@,
                Some("percent"@),
                MAX_METRICS as nat,
            ),
            is_fresh_family(
                r.abs_humidity,
                "absolute_humidity_grams_m3"@,
                "Absolute humidity in grams per cubic meter."@,
                Some("g/m^3"@),
                MAX_METRICS as nat,
            ),
            is_fresh_family(
                r.pressure,
                "pressure_hpa"@,
                "Barometric pressure, in hectopascals (hPa)."@,
                Some("hPa"@),
                MAX_METRICS as nat,
            ),
            is_fresh_family(
                r.gas_resistance,
                "gas_resistance_ohms"@,
                "BME680 VOC sensor resistance, in Ohms."@,
                Some("Ohms"@),
                MAX_METRICS as nat,
            ),
            is_fresh_family(
                r.tvoc,
                "tvoc_ppb"@,
                "Total Volatile Organic Compounds (VOC) in parts per billion (ppb)"@,
                Some("ppb"@),
                MAX_METRICS as nat,
            ),
            is_fresh_family(
                r.pm_conc,
                "pm_concentration_ug_m3"@,
                "Particulate matter concentration in ug/m^3"@,
                Some("ug/m^3"@),
                3,
            ),
            is_fresh_family(
                r.pm_count,
                "pm_count"@,
                "Particulate matter count per 0.1L of air."@,
                Some("particulates per 0.1L"@),
                6,
            ),
            is_fresh_family(
                r.sensor_errors,
                "sensor_error_count"@,
                "Count of I2C errors that occurred while talking to a sensor"@,
                None,
                16,
            ),
    {
        SensorMetrics {
            temp: MetricDef::new("temperature_degrees_celcius").with_help(
                "Temperature in degrees Celcius.",
            ).with_unit("celcius").with_metrics(MAX_METRICS),
            co2: MetricDef::new("co2_ppm").with_help("CO2 in parts per million (ppm).").with_unit(
                "ppm",
            ).with_metrics(MAX_METRICS),
            eco2: MetricDef::new("eco2_ppm").with_help(
                "VOC equivalent CO2 (eCO2) calculated by a tVOC sensor, in parts per million (ppm).",
            ).with_unit("ppm").with_metrics(MAX_METRICS),
            rel_humidity: MetricDef::new("humidity_percent").with_help(
                "Relative humidity (RH) percentage.",
            ).with_unit("percent").with_metrics(MAX_METRICS),
            abs_humidity: MetricDef::new("absolute_humidity_grams_m3").with_help(
                "Absolute humidity in grams per cubic meter.",
            ).with_unit("g/m^3").with_metrics(MAX_METRICS),
            pressure: MetricDef::new("pressure_hpa").with_help(
                "Barometric pressure, in hectopascals (hPa).",
            ).with_unit("hPa").with_metrics(MAX_METRICS),
            gas_resistance: MetricDef::new("gas_resistance_ohms").with_help(
                "BME680 VOC sensor resistance, in Ohms.",
            ).with_unit("Ohms").with_metrics(MAX_METRICS),
            tvoc: MetricDef::new("tvoc_ppb").with_help(
                "Total Volatile Organic Compounds (VOC) in parts per billion (ppb)",
            ).with_unit("ppb").with_metrics(MAX_METRICS),
            pm_conc: MetricDef::new("pm_concentration_ug_m3").with_help(
                "Particulate matter concentration in ug/m^3",
            ).with_unit("ug/m^3").with_metrics(3),
            pm_count: MetricDef::new("pm_count").with_help(
                "Particulate matter count per 0.1L of air.",
            ).with_unit("particulates per 0.1L").with_metrics(6),
            sensor_errors: MetricDef::new("sensor_error_count").with_help(
                "Count of I2C errors that occurred while talking to a sensor",
            ).with_metrics(16),
        }
    }

    /// The full Prometheus scrape text: every family's exposition text, in a
    /// fixed order, with a blank line between families.
    pub open spec fn spec_text(&self) -> Seq<char> {
        self.temp.spec_text() + "\n"@ + self.co2.spec_text() + "\n"@ + self.eco2.spec_text()
            + "\n"@ + self.rel_humidity.spec_text() + "\n"@ + self.abs_humidity.spec_text()
            + "\n"@ + self.pressure.spec_text() + "\n"@ + self.gas_resistance.spec_text() + "\n"@
            + self.tvoc.spec_text() + "\n"@ + self.pm_conc.spec_text() + "\n"@
            + self.pm_count.spec_text() + "\n"@ + self.sensor_errors.spec_text()
    }

    /// Render every family in the Prometheus text exposition format.
    pub fn fmt_metrics(&self) -> (r: String)
        ensures
            r@ == self.spec_text(),
    {
        let mut out = String::new();
        out.append(self.temp.fmt_metric().as_str());
        out.append("\n");
        out.append(self.co2.fmt_metric().as_str());
        out.append("\n");
        out.append(self.eco2.fmt_metric().as_str());
        out.append("\n");
        out.append(self.rel_humidity.fmt_metric().as_str());
        out.append("\n");
        out.append(self.abs_humidity.fmt_metric().as_str());
        out.append("\n");
        out.append(self.pressure.fmt_metric().as_str());
        out.append("\n");
        out.append(self.gas_resistance.fmt_metric().as_str());
        out.append("\n");
        out.append(self.tvoc.fmt_metric().as_str());
        out.append("\n");
        out.append(self.pm_conc.fmt_metric().as_str());
        out.append("\n");
        out.append(self.pm_count.fmt_metric().as_str());
        out.append("\n");
        out.append(self.sensor_errors.fmt_metric().as_str());
        out
    }

    /// One family as a JSON object member, keyed by its name.
    pub open spec fn spec_json_field<M: Metric>(f: &MetricFamily<M>) -> Seq<char> {
        spec_json_string(f.def.name@) + ":"@ + f.spec_json()
    }

    /// The whole registry as a JSON object: one member per family, keyed by
    /// the family name, in the same fixed order as the scrape text.
    pub open spec fn spec_json(&self) -> Seq<char> {
        "{"@ + Self::spec_json_field(&self.temp) + ","@ + Self::spec_json_field(&self.co2) + ","@
            + Self::spec_json_field(&self.eco2) + ","@ + Self::spec_json_field(&self.rel_humidity)
            + ","@ + Self::spec_json_field(&self.abs_humidity) + ","@ + Self::spec_json_field(
            &self.pressure,
        ) + ","@ + Self::spec_json_field(&self.gas_resistance) + ","@ + Self::spec_json_field(
            &self.tvoc,
        ) + ","@ + Self::spec_json_field(&self.pm_conc) + ","@ + Self::spec_json_field(
            &self.pm_count,
        ) + ","@ + Self::spec_json_field(&self.sensor_errors) + "}"@
    }

    /// Render the whole registry as a JSON object.
    pub fn fmt_json(&self) -> (r: String)
        ensures
            r@ == self.spec_json(),
    {
        let mut out = String::new();
        out.append("{");
        out.append(family_json_field(&self.temp).as_str());
        out.append(",");
        out.append(family_json_field(&self.co2).as_str());
        out.append(",");
        out.append(family_json_field(&self.eco2).as_str());
        out.append(",");
        out.append(family_json_field(&self.rel_humidity).as_str());
        out.append(",");
        out.append(family_json_field(&self.abs_humidity).as_str());
        out.append(",");
        out.append(family_json_field(&self.pressure).as_str());
        out.append(",");
        out.append(family_json_field(&self.gas_resistance).as_str());
        out.append(",");
        out.append(family_json_field(&self.tvoc).as_str());
        out.append(",");
        out.append(family_json_field(&self.pm_conc).as_str());
        out.append(",");
        out.append(family_json_field(&self.pm_count).as_str());
        out.append(",");
        out.append(family_json_field(&self.sensor_errors).as_str());
        out.append("}");
        proof {
            assert(out@ =~= self.spec_json());
        }
        out
    }
}

/// Render one family as a JSON object member, keyed by its name.
fn family_json_field<M: Metric>(f: &MetricFamily<M>) -> (r: String)
    ensures
        r@ == SensorMetrics::spec_json_field(f),
{
    let mut out = String::new();
    out.append("\"");
    let name = crate::metric::escape_str(f.def.name.as_str());
    out.append(name.as_str());
    out.append("\"");
    out.append(":");
    out.append(f.fmt_json().as_str());
    proof {
        assert(out@ =~= SensorMetrics::spec_json_field(f));
    }
    out
}

} // verus!
