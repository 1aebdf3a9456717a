//! Weather readings in words.

use vstd::prelude::*;
use crate::double::Double;
use crate::events::WeatherConditions;
use crate::text::{cat3, join, joined, no_texts, push_text, views};

verus! {

/// `parts` with a reading, where there is one.
pub open spec fn with_reading(
    parts: Seq<Seq<char>>,
    value: Option<Double>,
    before: Seq<char>,
    places: nat,
    unit: Seq<char>,
) -> Seq<Seq<char>> {
    match value {
        Some(v) => parts.push(before + v.fixed_text(places) + unit),
        None => parts,
    }
}

pub fn push_reading(
    parts: &mut Vec<String>,
    value: Option<Double>,
    before: &str,
    places: usize,
    unit: &str,
)
    requires
        places <= 20,
    ensures
        views(final(parts)@) == with_reading(
            views(old(parts)@),
            value,
            before@,
            places as nat,
            unit@,
        ),
{
    if let Some(v) = value {
        let number = v.fixed(places);
        push_text(parts, cat3(before, number.as_str(), unit));
    }
}

/// A named group of readings.
pub struct GroupView {
    pub name: Seq<char>,
    pub text: Seq<char>,
}

pub open spec fn group_views(s: Seq<(&'static str, String)>) -> Seq<GroupView> {
    s.map_values(|p: (&'static str, String)| GroupView { name: p.0@, text: p.1@ })
}

/// `groups` with one more group, unless it has no reading.
pub open spec fn with_group(groups: Seq<GroupView>, name: Seq<char>, parts: Seq<Seq<char>>) -> Seq<
    GroupView,
> {
    if parts.len() == 0 {
        groups
    } else {
        groups.push(GroupView { name, text: joined(parts, " · "@) })
    }
}

fn push_group(groups: &mut Vec<(&'static str, String)>, name: &'static str, parts: &Vec<String>)
    ensures
        group_views(final(groups)@) == with_group(
            group_views(old(groups)@),
            name@,
            views(parts@),
        ),
{
    if parts.len() > 0 {
        let ghost before = groups@;
        let text = join(parts, " · ");
        groups.push((name, text));
        assert(group_views(groups@) =~= group_views(before).push(
            GroupView { name: name@, text: text@ },
        ));
    }
}

/// The newer of two readings.
pub open spec fn newer(old_value: Option<Double>, update: Option<Double>) -> Option<Double> {
    if update is Some {
        update
    } else {
        old_value
    }
}

impl WeatherConditions {
    /// These readings with those of an update in place of them, where it has any.
    pub open spec fn merged(self, update: WeatherConditions) -> WeatherConditions {
        WeatherConditions {
            wind_speed_meters_per_second: newer(
                self.wind_speed_meters_per_second,
                update.wind_speed_meters_per_second,
            ),
            wind_gust_meters_per_second: newer(
                self.wind_gust_meters_per_second,
                update.wind_gust_meters_per_second,
            ),
            wind_direction_degrees: newer(
                self.wind_direction_degrees,
                update.wind_direction_degrees,
            ),
            temperature_celsius: newer(self.temperature_celsius, update.temperature_celsius),
            dew_point_celsius: newer(self.dew_point_celsius, update.dew_point_celsius),
            humidity_percent: newer(self.humidity_percent, update.humidity_percent),
            pressure_hectopascals: newer(
                self.pressure_hectopascals,
                update.pressure_hectopascals,
            ),
            cloud_cover_percent: newer(self.cloud_cover_percent, update.cloud_cover_percent),
            rain_rate_millimeters_per_hour: newer(
                self.rain_rate_millimeters_per_hour,
                update.rain_rate_millimeters_per_hour,
            ),
            sky_temperature_celsius: newer(
                self.sky_temperature_celsius,
                update.sky_temperature_celsius,
            ),
            sky_brightness_lux: newer(self.sky_brightness_lux, update.sky_brightness_lux),
            sky_quality_magnitudes_per_square_arcsecond: newer(
                self.sky_quality_magnitudes_per_square_arcsecond,
                update.sky_quality_magnitudes_per_square_arcsecond,
            ),
            star_fwhm_arcseconds: newer(self.star_fwhm_arcseconds, update.star_fwhm_arcseconds),
        }
    }

    pub fn merge_available(&mut self, update: &WeatherConditions)
        ensures
            *final(self) == old(self).merged(*update),
    {
        if update.wind_speed_meters_per_second.is_some() {
            self.wind_speed_meters_per_second = update.wind_speed_meters_per_second;
        }
        if update.wind_gust_meters_per_second.is_some() {
            self.wind_gust_meters_per_second = update.wind_gust_meters_per_second;
        }
        if update.wind_direction_degrees.is_some() {
            self.wind_direction_degrees = update.wind_direction_degrees;
        }
        if update.temperature_celsius.is_some() {
            self.temperature_celsius = update.temperature_celsius;
        }
        if update.dew_point_celsius.is_some() {
            self.dew_point_celsius = update.dew_point_celsius;
        }
        if update.humidity_percent.is_some() {
            self.humidity_percent = update.humidity_percent;
        }
        if update.pressure_hectopascals.is_some() {
            self.pressure_hectopascals = update.pressure_hectopascals;
        }
        if update.cloud_cover_percent.is_some() {
            self.cloud_cover_percent = update.cloud_cover_percent;
        }
        if update.rain_rate_millimeters_per_hour.is_some() {
            self.rain_rate_millimeters_per_hour = update.rain_rate_millimeters_per_hour;
        }
        if update.sky_temperature_celsius.is_some() {
            self.sky_temperature_celsius = update.sky_temperature_celsius;
        }
        if update.sky_brightness_lux.is_some() {
            self.sky_brightness_lux = update.sky_brightness_lux;
        }
        if update.sky_quality_magnitudes_per_square_arcsecond.is_some() {
            self.sky_quality_magnitudes_per_square_arcsecond =
            update.sky_quality_magnitudes_per_square_arcsecond;
        }
        if update.star_fwhm_arcseconds.is_some() {
            self.star_fwhm_arcseconds = update.star_fwhm_arcseconds;
        }
    }

    pub open spec fn wind_parts(self) -> Seq<Seq<char>> {
        let a = with_reading(
            Seq::empty(),
            self.wind_speed_meters_per_second,
            ""@,
            1,
            " m/s speed"@,
        );
        let b = with_reading(a, self.wind_gust_meters_per_second, ""@, 1, " m/s gust"@);
        with_reading(b, self.wind_direction_degrees, ""@, 0, "°"@)
    }

    pub open spec fn air_parts(self) -> Seq<Seq<char>> {
        let a = with_reading(Seq::empty(), self.temperature_celsius, ""@, 1, " °C"@);
        let b = with_reading(a, self.dew_point_celsius, "dew point "@, 1, " °C"@);
        let c = with_reading(b, self.humidity_percent, ""@, 0, "% RH"@);
        with_reading(c, self.pressure_hectopascals, ""@, 1, " hPa"@)
    }

    pub open spec fn sky_parts(self) -> Seq<Seq<char>> {
        let a = with_reading(Seq::empty(), self.cloud_cover_percent, ""@, 0, "% cloud"@);
        let b = with_reading(a, self.sky_temperature_celsius, "sky "@, 1, " °C"@);
        let c = with_reading(b, self.sky_brightness_lux, ""@, 2, " lux"@);
        let d = with_reading(
            c,
            self.sky_quality_magnitudes_per_square_arcsecond,
            ""@,
            2,
            " mag/arcsec²"@,
        );
        with_reading(d, self.star_fwhm_arcseconds, ""@, 2, "″ FWHM"@)
    }

    pub open spec fn rain_parts(self) -> Seq<Seq<char>> {
        with_reading(Seq::empty(), self.rain_rate_millimeters_per_hour, ""@, 2, " mm/h"@)
    }

    /// The readings in groups, each reading with its unit.
    pub open spec fn groups(self) -> Seq<GroupView> {
        let a = with_group(Seq::empty(), "Wind"@, self.wind_parts());
        let b = with_group(a, "Atmosphere"@, self.air_parts());
        let c = with_group(b, "Sky"@, self.sky_parts());
        with_group(c, "Rain"@, self.rain_parts())
    }

    pub fn chat_fields(&self) -> (r: Vec<(&'static str, String)>)
        ensures
            group_views(r@) == self.groups(),
    {
        let mut fields: Vec<(&'static str, String)> = Vec::new();
        assert(group_views(fields@) =~= Seq::<GroupView>::empty());
        let mut wind = no_texts();
        push_reading(&mut wind, self.wind_speed_meters_per_second, "", 1, " m/s speed");
        push_reading(&mut wind, self.wind_gust_meters_per_second, "", 1, " m/s gust");
        push_reading(&mut wind, self.wind_direction_degrees, "", 0, "°");
        push_group(&mut fields, "Wind", &wind);
        let mut air = no_texts();
        push_reading(&mut air, self.temperature_celsius, "", 1, " °C");
        push_reading(&mut air, self.dew_point_celsius, "dew point ", 1, " °C");
        push_reading(&mut air, self.humidity_percent, "", 0, "% RH");
        push_reading(&mut air, self.pressure_hectopascals, "", 1, " hPa");
        push_group(&mut fields, "Atmosphere", &air);
        let mut sky = no_texts();
        push_reading(&mut sky, self.cloud_cover_percent, "", 0, "% cloud");
        push_reading(&mut sky, self.sky_temperature_celsius, "sky ", 1, " °C");
        push_reading(&mut sky, self.sky_brightness_lux, "", 2, " lux");
        push_reading(
            &mut sky,
            self.sky_quality_magnitudes_per_square_arcsecond,
            "",
            2,
            " mag/arcsec²",
        );
        push_reading(&mut sky, self.star_fwhm_arcseconds, "", 2, "″ FWHM");
        push_group(&mut fields, "Sky", &sky);
        let mut rain = no_texts();
        push_reading(&mut rain, self.rain_rate_millimeters_per_hour, "", 2, " mm/h");
        push_group(&mut fields, "Rain", &rain);
        fields
    }

    pub open spec fn summary_parts(self) -> Seq<Seq<char>> {
        let a = with_reading(
            Seq::empty(),
            self.wind_speed_meters_per_second,
            "wind "@,
            1,
            " m/s"@,
        );
        let b = with_reading(a, self.wind_gust_meters_per_second, "gust "@, 1, " m/s"@);
        let c = with_reading(b, self.temperature_celsius, ""@, 1, " °C"@);
        let d = with_reading(c, self.humidity_percent, ""@, 0, "% RH"@);
        let e = with_reading(d, self.cloud_cover_percent, ""@, 0, "% cloud"@);
        with_reading(e, self.rain_rate_millimeters_per_hour, "rain "@, 2, " mm/h"@)
    }

    /// The most telling readings on one line.
    pub open spec fn summary_text(self) -> Option<Seq<char>> {
        if self.summary_parts().len() == 0 {
            None
        } else {
            Some(joined(self.summary_parts(), ", "@))
        }
    }

    pub fn status_summary(&self) -> (r: Option<String>)
        ensures
            crate::text::opt_view(r) == self.summary_text(),
    {
        let mut parts = no_texts();
        push_reading(&mut parts, self.wind_speed_meters_per_second, "wind ", 1, " m/s");
        push_reading(&mut parts, self.wind_gust_meters_per_second, "gust ", 1, " m/s");
        push_reading(&mut parts, self.temperature_celsius, "", 1, " °C");
        push_reading(&mut parts, self.humidity_percent, "", 0, "% RH");
        push_reading(&mut parts, self.cloud_cover_percent, "", 0, "% cloud");
        push_reading(&mut parts, self.rain_rate_millimeters_per_hour, "rain ", 2, " mm/h");
        if parts.len() == 0 {
            None
        } else {
            Some(join(&parts, ", "))
        }
    }
}

/// An update that carries wind alone keeps every other reading.
pub proof fn wind_updates_keep_other_readings(base: WeatherConditions, update: WeatherConditions)
    requires
        update.temperature_celsius is None,
        update.dew_point_celsius is None,
        update.humidity_percent is None,
        update.pressure_hectopascals is None,
        update.cloud_cover_percent is None,
        update.rain_rate_millimeters_per_hour is None,
        update.sky_temperature_celsius is None,
        update.sky_brightness_lux is None,
        update.sky_quality_magnitudes_per_square_arcsecond is None,
        update.star_fwhm_arcseconds is None,
    ensures
        base.merged(update).air_parts() == base.air_parts(),
        base.merged(update).sky_parts() == base.sky_parts(),
        base.merged(update).rain_parts() == base.rain_parts(),
{
}

} // verus!
