use vstd::prelude::*;
use vstd::string::StringExecFns;

verus! {

/// A weather data provider, with the credential that its requests carry.
pub enum Provider {
    /// Answers the current conditions for a free-form location in one call.
    WeatherApi { api_key: String },
    /// Resolves the location to coordinates first, then asks for the conditions there.
    OpenWeather { api_key: String },
}

/// Why no provider could be made.
#[derive(Debug, PartialEq, Eq, Structural)]
pub enum ProviderCreationError {
    /// The identifier names no known provider.
    NotImplemented,
}

/// Why a provider could not deliver the weather.
#[derive(Debug)]
pub enum ProviderUsingError {
    /// The request did not go through; the transport's own description.
    Get(String),
    /// The upstream answered with a non-success status; its `message` field.
    BadResponse(String),
    /// The upstream answered with success, but not in the expected shape.
    MalformedData(String),
}

/// The lowercase form of a string, as std's `str::to_lowercase` gives it.
pub uninterp spec fn lower_of(s: Seq<char>) -> Seq<char>;

/// Relies on str::to_lowercase: the result depends on the characters alone.
#[verifier::external_body]
fn lowercase(s: &str) -> (r: String)
    ensures
        r@ == lower_of(s@),
{
    s.to_lowercase()
}

/// The provider that a lowercase identifier names, holding `api_key`.
pub open spec fn provider_named(lowered: Seq<char>, api_key: String) -> Result<
    Provider,
    ProviderCreationError,
> {
    if lowered == "openweather"@ {
        Ok(Provider::OpenWeather { api_key })
    } else if lowered == "weatherapi"@ {
        Ok(Provider::WeatherApi { api_key })
    } else {
        Err(ProviderCreationError::NotImplemented)
    }
}

impl Provider {
    /// Picks the provider that an identifier names once it has been lowercased.
    pub fn from_lowered(lowered: &str, api_key: String) -> (r: Result<Provider, ProviderCreationError>)
        ensures
            r == provider_named(lowered@, api_key),
    {
        let name = String::from_str(lowered);
        if name == String::from_str("openweather") {
            Ok(Provider::OpenWeather { api_key })
        } else if name == String::from_str("weatherapi") {
            Ok(Provider::WeatherApi { api_key })
        } else {
            Err(ProviderCreationError::NotImplemented)
        }
    }
}

impl TryFrom<(String, String)> for Provider {
    type Error = ProviderCreationError;

    /// Makes the provider that `pair.0` names, in any letter case, with the
    /// credential `pair.1`.
    fn try_from(pair: (String, String)) -> (r: Result<Provider, ProviderCreationError>) {
        let (provider, api_key) = pair;
        let lowered = lowercase(provider.as_str());
        Provider::from_lowered(lowered.as_str(), api_key)
    }
}

impl vstd::std_specs::convert::TryFromSpecImpl<(String, String)> for Provider {
    open spec fn obeys_try_from_spec() -> bool {
        true
    }

    open spec fn try_from_spec(pair: (String, String)) -> Result<Provider, ProviderCreationError> {
        provider_named(lower_of(pair.0@), pair.1)
    }
}

} // verus!
