use vstd::prelude::*;
use vstd::string::StringExecFns;

use crate::json::{
    json_leaf_at, leaf_at, leaf_view, number_of, number_text, percentage, percentage_of, text_of,
    text_or_empty, JsonLeaf, LeafView,
};
use crate::provider::{lower_of, provider_named, Provider, ProviderCreationError, ProviderUsingError};
use crate::record::{WeatherData, WeatherView};

verus! {

/// What a retrieval waits for: the answer to the request it sent last.
pub enum Retrieval {
    /// The single-call provider's current conditions.
    WeatherApiConditions,
    /// The two-call provider's geocoding result; the credential is kept for the second call.
    OpenWeatherGeocode { api_key: String },
    /// The two-call provider's current conditions.
    OpenWeatherConditions,
}

/// An HTTP GET to perform, and the retrieval that takes its answer.
pub struct Exchange {
    pub url: String,
    pub next: Retrieval,
}

/// How a request ended.
pub enum Reply {
    /// The upstream answered with this status and body.
    Received { status: u16, body: String },
    /// The request failed in transport; the transport's description.
    Failed(String),
}

/// What to do next.
pub enum Step {
    /// Perform another request.
    Send(Exchange),
    /// The retrieval is over.
    Finished(Result<WeatherData, ProviderUsingError>),
}

/// An HTTP status that reports success: one in `200..=299`.
pub open spec fn is_success(status: u16) -> bool {
    200 <= status <= 299
}

pub open spec fn weatherapi_url(api_key: Seq<char>, address: Seq<char>) -> Seq<char> {
    "http://api.weatherapi.com/v1/current.json?key="@ + api_key + "&q="@ + address + "&aqi=no"@
}

pub open spec fn geocode_url(address: Seq<char>, api_key: Seq<char>) -> Seq<char> {
    "http://api.openweathermap.org/geo/1.0/direct?q="@ + address + "&limit=1&appid="@ + api_key
}

pub open spec fn onecall_url(lat: Seq<char>, lon: Seq<char>, api_key: Seq<char>) -> Seq<char> {
    "https://api.openweathermap.org/data/2.5/onecall?lat="@ + lat + "&lon="@ + lon
        + "&units=metric&exclude=hourly,daily&appid="@ + api_key
}

/// The first request of a retrieval of the weather at `address` from `p`.
pub open spec fn first_exchange(p: Provider, address: Seq<char>, x: Exchange) -> bool {
    match p {
        Provider::WeatherApi { api_key } => {
            &&& x.url@ == weatherapi_url(api_key@, address)
            &&& x.next is WeatherApiConditions
        },
        Provider::OpenWeather { api_key } => {
            &&& x.url@ == geocode_url(address, api_key@)
            &&& x.next matches Retrieval::OpenWeatherGeocode { api_key: k } && k@ == api_key@
        },
    }
}

/// The record that four leaves make, when each holds what it must.
pub open spec fn conditions_view(
    temp: Option<LeafView>,
    wind: Option<LeafView>,
    humidity: Option<LeafView>,
    cloud: Option<LeafView>,
) -> Option<WeatherView> {
    match (number_text(temp), number_text(wind), percentage(humidity), percentage(cloud)) {
        (Some(t), Some(w), Some(h), Some(c)) => Some(
            WeatherView { temp_c: t, wind_kph: w, humidity_percent: h, clouds_percent: c },
        ),
        _ => None,
    }
}

/// The record in a successful answer of the single-call provider.
pub open spec fn weatherapi_conditions(body: Seq<char>) -> Option<WeatherView> {
    conditions_view(
        json_leaf_at(body, "/current/temp_c"@),
        json_leaf_at(body, "/current/wind_kph"@),
        json_leaf_at(body, "/current/humidity"@),
        json_leaf_at(body, "/current/cloud"@),
    )
}

/// The record in a successful conditions answer of the two-call provider.
pub open spec fn openweather_conditions(body: Seq<char>) -> Option<WeatherView> {
    conditions_view(
        json_leaf_at(body, "/current/temp"@),
        json_leaf_at(body, "/current/wind_speed"@),
        json_leaf_at(body, "/current/humidity"@),
        json_leaf_at(body, "/current/clouds"@),
    )
}

/// The coordinates, as text, of the first place in a geocoding answer.
pub open spec fn geocoded_place(body: Seq<char>) -> Option<(Seq<char>, Seq<char>)> {
    match (
        number_text(json_leaf_at(body, "/0/lat"@)),
        number_text(json_leaf_at(body, "/0/lon"@)),
    ) {
        (Some(lat), Some(lon)) => Some((lat, lon)),
        _ => None,
    }
}

/// The upstream's explanation in a failed answer: its top-level `message`
/// string, or nothing.
pub open spec fn upstream_message(body: Seq<char>) -> Seq<char> {
    text_or_empty(json_leaf_at(body, "/message"@))
}

/// `r` finishes with the record `v`, or with `MalformedData` when there is none.
pub open spec fn finishes_with(r: Step, v: Option<WeatherView>) -> bool {
    match v {
        Some(v) => r matches Step::Finished(Ok(d)) && d@ == v,
        None => r matches Step::Finished(Err(ProviderUsingError::MalformedData(_))),
    }
}

/// What the retrieval `w` does with the reply `reply`.
pub open spec fn next_step(w: Retrieval, reply: Reply, r: Step) -> bool {
    match reply {
        Reply::Failed(e) => r matches Step::Finished(Err(ProviderUsingError::Get(x))) && x@ == e@,
        Reply::Received { status, body } => if !is_success(status) {
            r matches Step::Finished(Err(ProviderUsingError::BadResponse(m))) && m@
                == upstream_message(body@)
        } else {
            match w {
                Retrieval::WeatherApiConditions => finishes_with(r, weatherapi_conditions(body@)),
                Retrieval::OpenWeatherConditions => finishes_with(
                    r,
                    openweather_conditions(body@),
                ),
                Retrieval::OpenWeatherGeocode { api_key } => match geocoded_place(body@) {
                    Some((lat, lon)) => {
                        &&& r matches Step::Send(x)
                        &&& x.url@ == onecall_url(lat, lon, api_key@)
                        &&& x.next is OpenWeatherConditions
                    },
                    None => r matches Step::Finished(Err(ProviderUsingError::MalformedData(_))),
                },
            }
        },
    }
}

fn malformed() -> (r: ProviderUsingError)
    ensures
        r is MalformedData,
{
    ProviderUsingError::MalformedData(
        String::from_str(
            "the upstream answer lacks an expected field; its interface may have changed",
        ),
    )
}

/// Makes a record of four leaves: the temperature and the wind speed must be
/// numbers, the humidity and the cloud cover unsigned integers no greater
/// than 100. Anything else is `MalformedData`.
pub fn decode_conditions(
    temp: Option<JsonLeaf>,
    wind: Option<JsonLeaf>,
    humidity: Option<JsonLeaf>,
    cloud: Option<JsonLeaf>,
) -> (r: Result<WeatherData, ProviderUsingError>)
    ensures
        finishes_with(
            Step::Finished(r),
            conditions_view(leaf_view(temp), leaf_view(wind), leaf_view(humidity), leaf_view(cloud)),
        ),
{
    let h = percentage_of(&humidity);
    let c = percentage_of(&cloud);
    match (number_of(temp), number_of(wind), h, c) {
        (Some(t), Some(w), Some(h), Some(c)) => match WeatherData::new(t, w, h, c) {
            Some(d) => Ok(d),
            None => Err(malformed()),
        },
        _ => Err(malformed()),
    }
}

/// The coordinates of a place from its two leaves, which must be numbers.
pub fn decode_place(lat: Option<JsonLeaf>, lon: Option<JsonLeaf>) -> (r: Result<
    (String, String),
    ProviderUsingError,
>)
    ensures
        match (number_text(leaf_view(lat)), number_text(leaf_view(lon))) {
            (Some(a), Some(b)) => r matches Ok((x, y)) && x@ == a && y@ == b,
            _ => r matches Err(ProviderUsingError::MalformedData(_)),
        },
{
    match (number_of(lat), number_of(lon)) {
        (Some(a), Some(b)) => Ok((a, b)),
        _ => Err(malformed()),
    }
}

fn make_weatherapi_url(api_key: &str, address: &str) -> (r: String)
    ensures
        r@ == weatherapi_url(api_key@, address@),
{
    let mut u = String::from_str("http://api.weatherapi.com/v1/current.json?key=");
    u.append(api_key);
    u.append("&q=");
    u.append(address);
    u.append("&aqi=no");
    u
}

fn make_geocode_url(address: &str, api_key: &str) -> (r: String)
    ensures
        r@ == geocode_url(address@, api_key@),
{
    let mut u = String::from_str("http://api.openweathermap.org/geo/1.0/direct?q=");
    u.append(address);
    u.append("&limit=1&appid=");
    u.append(api_key);
    u
}

fn make_onecall_url(lat: &str, lon: &str, api_key: &str) -> (r: String)
    ensures
        r@ == onecall_url(lat@, lon@, api_key@),
{
    let mut u = String::from_str("https://api.openweathermap.org/data/2.5/onecall?lat=");
    u.append(lat);
    u.append("&lon=");
    u.append(lon);
    u.append("&units=metric&exclude=hourly,daily&appid=");
    u.append(api_key);
    u
}

impl Provider {
    /// Starts a retrieval of the current weather at `address`: the first
    /// request to send, and what takes its answer.
    pub fn get(&self, address: &str) -> (r: Exchange)
        ensures
            first_exchange(*self, address@, r),
    {
        match self {
            Provider::WeatherApi { api_key } => Exchange {
                url: make_weatherapi_url(api_key.as_str(), address),
                next: Retrieval::WeatherApiConditions,
            },
            Provider::OpenWeather { api_key } => Exchange {
                url: make_geocode_url(address, api_key.as_str()),
                next: Retrieval::OpenWeatherGeocode { api_key: api_key.clone() },
            },
        }
    }
}

impl Retrieval {
    /// Takes the reply to the last request: either the next request to send
    /// or the outcome of the whole retrieval.
    pub fn receive(self, reply: Reply) -> (r: Step)
        ensures
            next_step(self, reply, r),
    {
        match reply {
            Reply::Failed(e) => Step::Finished(Err(ProviderUsingError::Get(e))),
            Reply::Received { status, body } => {
                if !(200 <= status && status <= 299) {
                    let m = text_of(leaf_at(body.as_str(), "/message"));
                    return Step::Finished(Err(ProviderUsingError::BadResponse(m)));
                }
                let b = body.as_str();
                match self {
                    Retrieval::WeatherApiConditions => Step::Finished(
                        decode_conditions(
                            leaf_at(b, "/current/temp_c"),
                            leaf_at(b, "/current/wind_kph"),
                            leaf_at(b, "/current/humidity"),
                            leaf_at(b, "/current/cloud"),
                        ),
                    ),
                    Retrieval::OpenWeatherConditions => Step::Finished(
                        decode_conditions(
                            leaf_at(b, "/current/temp"),
                            leaf_at(b, "/current/wind_speed"),
                            leaf_at(b, "/current/humidity"),
                            leaf_at(b, "/current/clouds"),
                        ),
                    ),
                    Retrieval::OpenWeatherGeocode { api_key } => {
                        match decode_place(leaf_at(b, "/0/lat"), leaf_at(b, "/0/lon")) {
                            Ok((lat, lon)) => Step::Send(
                                Exchange {
                                    url: make_onecall_url(
                                        lat.as_str(),
                                        lon.as_str(),
                                        api_key.as_str(),
                                    ),
                                    next: Retrieval::OpenWeatherConditions,
                                },
                            ),
                            Err(e) => Step::Finished(Err(e)),
                        }
                    },
                }
            },
        }
    }
}

/// Starts a retrieval with the provider that `provider` names, in any letter
/// case, holding `api_key`; no request is made when it names none.
pub fn retrieve(provider: String, api_key: String, address: &str) -> (r: Result<
    Exchange,
    ProviderCreationError,
>)
    ensures
        match provider_named(lower_of(provider@), api_key) {
            Ok(p) => r matches Ok(x) && first_exchange(p, address@, x),
            Err(e) => r == Err::<Exchange, ProviderCreationError>(e),
        },
{
    match Provider::try_from((provider, api_key)) {
        Ok(p) => Ok(p.get(address)),
        Err(e) => Err(e),
    }
}

} // verus!
