//! Current weather conditions from interchangeable upstream providers.
//!
//! The library holds the decisions of a retrieval: which provider an
//! identifier names, which requests to send in which order, and how each
//! upstream answer becomes a `WeatherData` or a typed error. Sending the
//! requests is left to the caller.
mod json;
mod laws;
mod provider;
mod record;
mod retrieval;

pub use json::{
    json_leaf_at, leaf_view, number_of, number_text, percentage, percentage_of, text_of,
    text_or_empty, JsonLeaf, LeafView,
};
pub use laws::{
    holds_number, holds_unsigned, lemma_failure_status_carries_message,
    lemma_missing_field_is_malformed, lemma_openweather_answer_read_exactly,
    lemma_unplaced_geocode_stops, lemma_weatherapi_answer_read_exactly,
};
pub use provider::{lower_of, provider_named, Provider, ProviderCreationError, ProviderUsingError};
pub use record::{decimal, WeatherData, WeatherView};
pub use retrieval::{
    conditions_view, decode_conditions, decode_place, finishes_with, first_exchange,
    geocode_url, geocoded_place, is_success, next_step, onecall_url, openweather_conditions,
    retrieve, upstream_message, weatherapi_conditions, weatherapi_url, Exchange, Reply,
    Retrieval, Step,
};
