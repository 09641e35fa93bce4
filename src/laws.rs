use vstd::prelude::*;

use crate::json::{json_leaf_at, LeafView};
use crate::record::WeatherView;
use crate::provider::ProviderUsingError;
use crate::retrieval::{is_success, next_step, upstream_message, Reply, Retrieval, Step};

verus! {

/// A leaf that holds a number with the text `t`.
pub open spec fn holds_number(l: Option<LeafView>, t: Seq<char>) -> bool {
    l matches Some(LeafView::Number { text, .. }) && text == t
}

/// A leaf that holds the unsigned integer `u`.
pub open spec fn holds_unsigned(l: Option<LeafView>, u: u64) -> bool {
    l matches Some(LeafView::Number { unsigned: Some(x), .. }) && x == u
}

/// A successful answer of the single-call provider whose four fields hold
/// what they must yields a record of exactly those values.
pub proof fn lemma_weatherapi_answer_read_exactly(
    status: u16,
    body: String,
    temp: Seq<char>,
    wind: Seq<char>,
    humidity: u8,
    cloud: u8,
    r: Step,
)
    requires
        is_success(status),
        holds_number(json_leaf_at(body@, "/current/temp_c"@), temp),
        holds_number(json_leaf_at(body@, "/current/wind_kph"@), wind),
        holds_unsigned(json_leaf_at(body@, "/current/humidity"@), humidity as u64),
        holds_unsigned(json_leaf_at(body@, "/current/cloud"@), cloud as u64),
        humidity <= 100,
        cloud <= 100,
        next_step(Retrieval::WeatherApiConditions, Reply::Received { status, body }, r),
    ensures
        r matches Step::Finished(Ok(d)) && d@ == (WeatherView {
            temp_c: temp,
            wind_kph: wind,
            humidity_percent: humidity,
            clouds_percent: cloud,
        }),
{
}

/// A successful conditions answer of the two-call provider whose four fields
/// hold what they must yields a record of exactly those values: the
/// temperature passes through as the upstream gives it in metric units.
pub proof fn lemma_openweather_answer_read_exactly(
    status: u16,
    body: String,
    temp: Seq<char>,
    wind: Seq<char>,
    humidity: u8,
    cloud: u8,
    r: Step,
)
    requires
        is_success(status),
        holds_number(json_leaf_at(body@, "/current/temp"@), temp),
        holds_number(json_leaf_at(body@, "/current/wind_speed"@), wind),
        holds_unsigned(json_leaf_at(body@, "/current/humidity"@), humidity as u64),
        holds_unsigned(json_leaf_at(body@, "/current/clouds"@), cloud as u64),
        humidity <= 100,
        cloud <= 100,
        next_step(Retrieval::OpenWeatherConditions, Reply::Received { status, body }, r),
    ensures
        r matches Step::Finished(Ok(d)) && d@ == (WeatherView {
            temp_c: temp,
            wind_kph: wind,
            humidity_percent: humidity,
            clouds_percent: cloud,
        }),
{
}

/// Whatever a retrieval waits for, an answer with a non-success status ends
/// it with `BadResponse` carrying the upstream's `message`, whatever else the
/// body holds.
pub proof fn lemma_failure_status_carries_message(
    w: Retrieval,
    status: u16,
    body: String,
    r: Step,
)
    requires
        !is_success(status),
        next_step(w, Reply::Received { status, body }, r),
    ensures
        r matches Step::Finished(Err(ProviderUsingError::BadResponse(m))) && m@ == upstream_message(
            body@,
        ),
{
}

/// A successful conditions answer that lacks one of the four fields ends the
/// retrieval with `MalformedData`, never with a record.
pub proof fn lemma_missing_field_is_malformed(w: Retrieval, status: u16, body: String, r: Step)
    requires
        is_success(status),
        w is WeatherApiConditions ==> {
            ||| json_leaf_at(body@, "/current/temp_c"@) is None
            ||| json_leaf_at(body@, "/current/wind_kph"@) is None
            ||| json_leaf_at(body@, "/current/humidity"@) is None
            ||| json_leaf_at(body@, "/current/cloud"@) is None
        },
        w is OpenWeatherConditions ==> {
            ||| json_leaf_at(body@, "/current/temp"@) is None
            ||| json_leaf_at(body@, "/current/wind_speed"@) is None
            ||| json_leaf_at(body@, "/current/humidity"@) is None
            ||| json_leaf_at(body@, "/current/clouds"@) is None
        },
        !(w is OpenWeatherGeocode),
        next_step(w, Reply::Received { status, body }, r),
    ensures
        r matches Step::Finished(Err(ProviderUsingError::MalformedData(_))),
{
}

/// A successful geocoding answer that names no place ends the retrieval
/// with `MalformedData`: no conditions request follows.
pub proof fn lemma_unplaced_geocode_stops(api_key: String, status: u16, body: String, r: Step)
    requires
        is_success(status),
        json_leaf_at(body@, "/0/lat"@) is None || json_leaf_at(body@, "/0/lon"@) is None,
        next_step(Retrieval::OpenWeatherGeocode { api_key }, Reply::Received { status, body }, r),
    ensures
        r matches Step::Finished(Err(ProviderUsingError::MalformedData(_))),
{
}

} // verus!
