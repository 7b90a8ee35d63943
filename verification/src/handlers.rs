//! The request's path through the cache-aside protocol, as steps. Each
//! function here takes what the last step brought and says what to do
//! next: look the assessment up, fetch the weather, keep the new
//! assessment, or reply. The caller does the asking and the waiting.

use crate::cache::{
    bucket_or_default, cache_key, calculate_provider_score, generate_hints, hints_for,
    provider_score, CacheService, StoreUnavailable, StoreWrite,
};
use crate::config::Config;
use crate::models::{lowercase_of, texts, ForecastMeta, RideSafetyResponse, VehicleType};
use crate::reading::Reading;
use crate::weather::{WeatherClient, WeatherUnavailable};
use vstd::prelude::*;

verus! {

#[derive(Debug, Clone, PartialEq, Eq)]
pub struct AppState {
    pub weather_client: WeatherClient,
    pub cache_service: CacheService,
}

impl AppState {
    /// The services as the configuration describes them.
    pub fn from_config(config: &Config) -> (state: AppState)
        ensures
            state.weather_client.api_key == config.weatherapi.key,
            state.weather_client.base_url == config.weatherapi.base_url,
            state.cache_service.ttl_seconds == config.cache.ttl_seconds,
            state.cache_service.geohash_precision == config.cache.geohash_precision,
    {
        AppState {
            weather_client: WeatherClient::new(
                config.weatherapi.key.clone(),
                config.weatherapi.base_url.clone(),
            ),
            cache_service: CacheService::new(
                config.cache.ttl_seconds,
                config.cache.geohash_precision,
            ),
        }
    }
}

/// What is sent back to the client.
#[derive(Debug, PartialEq, Eq)]
pub enum HttpReply {
    /// The assessment, with status 200.
    Success(RideSafetyResponse),
    /// The client's fault, with status 400 and a message.
    BadRequest(String),
    /// The service's fault, with status 500 and a message.
    InternalServerError(String),
}

impl HttpReply {
    pub open spec fn status(self) -> int {
        match self {
            HttpReply::Success(_) => 200,
            HttpReply::BadRequest(_) => 400,
            HttpReply::InternalServerError(_) => 500,
        }
    }

    pub fn status_code(&self) -> (code: u16)
        ensures
            code == self.status(),
    {
        match self {
            HttpReply::Success(_) => 200,
            HttpReply::BadRequest(_) => 400,
            HttpReply::InternalServerError(_) => 500,
        }
    }
}

/// A request that has passed parsing: where it is and what is ridden.
#[derive(Debug, PartialEq, Eq)]
pub struct Pending {
    pub bucket: Option<String>,
    pub vehicle: VehicleType,
}

/// What the caller is to do next.
#[derive(Debug, PartialEq, Eq)]
pub enum Step {
    /// Look `key` up in the store, then go on with `after_cache_lookup`.
    LookupCache { key: String, pending: Pending },
    /// Ask the provider, then go on with `after_weather_fetch`.
    FetchWeather { pending: Pending },
    /// Write to the store, then go on with `after_cache_store`.
    StoreAssessment { write: StoreWrite },
    /// Send the reply: the request is done.
    Reply(HttpReply),
}

/// `response` is the assessment of `forecast` for `vehicle`: the observation
/// itself, its advisories, and its score as a reading.
pub open spec fn is_assessment_of(
    response: RideSafetyResponse,
    forecast: ForecastMeta,
    vehicle: VehicleType,
) -> bool {
    &&& response.forecast_meta == forecast
    &&& texts(response.hints@) == hints_for(forecast, vehicle)
    &&& response.provider_score matches Some(score) && score.is_whole(
        provider_score(forecast, vehicle),
    ) && !score.is_negative()
}

/// Assesses an observation for a vehicle.
pub fn assess(forecast: ForecastMeta, vehicle: VehicleType) -> (response: RideSafetyResponse)
    ensures
        is_assessment_of(response, forecast, vehicle),
{
    let hints = generate_hints(&forecast, vehicle);
    let score = calculate_provider_score(&forecast, vehicle);
    RideSafetyResponse {
        forecast_meta: forecast,
        hints,
        provider_score: Some(Reading::from_whole(score)),
    }
}

/// The first step for a request whose vehicle was read already: without a
/// vehicle the client is told so, with one the cache is asked.
pub fn begin_ride_safety(state: &AppState, vehicle: Option<VehicleType>, bucket: Option<String>) -> (step: Step)
    ensures
        match vehicle {
            None => step matches Step::Reply(HttpReply::BadRequest(message)) && message@
                == "Invalid vehicle type. Use 'bike' or 'motor'"@,
            Some(parsed) => step matches Step::LookupCache { key, pending } && key@ == cache_key(
                bucket_or_default(bucket),
                parsed,
            ) && pending == (Pending { bucket, vehicle: parsed }),
        },
{
    match vehicle {
        None => Step::Reply(
            HttpReply::BadRequest(String::from_str("Invalid vehicle type. Use 'bike' or 'motor'")),
        ),
        Some(parsed) => {
            let key = state.cache_service.generate_cache_key(&bucket, parsed);
            Step::LookupCache { key, pending: Pending { bucket, vehicle: parsed } }
        },
    }
}

/// The first step for a request: reads the vehicle, in any letter case, and
/// goes on as `begin_ride_safety` does. `bucket` is the geohash of the
/// request's coordinate, or `None` where it has none.
pub fn ride_safety_handler(state: &AppState, vehicle: &str, bucket: Option<String>) -> (step: Step)
    ensures
        match VehicleType::named_by(lowercase_of(vehicle@)) {
            None => step matches Step::Reply(HttpReply::BadRequest(message)) && message@
                == "Invalid vehicle type. Use 'bike' or 'motor'"@,
            Some(parsed) => step matches Step::LookupCache { key, pending } && key@ == cache_key(
                bucket_or_default(bucket),
                parsed,
            ) && pending == (Pending { bucket, vehicle: parsed }),
        },
{
    begin_ride_safety(state, VehicleType::from_str(vehicle), bucket)
}

/// After the lookup: a hit is the reply. A miss, and a store that did not
/// answer, both lead to the provider.
pub fn after_cache_lookup(
    pending: Pending,
    cached: Result<Option<RideSafetyResponse>, StoreUnavailable>,
) -> (step: Step)
    ensures
        step == match cached {
            Ok(Some(response)) => Step::Reply(HttpReply::Success(response)),
            _ => Step::FetchWeather { pending },
        },
{
    match cached {
        Ok(Some(response)) => Step::Reply(HttpReply::Success(response)),
        _ => Step::FetchWeather { pending },
    }
}

/// After the provider's answer: without an observation the request fails.
/// With one, its assessment is made and is to be kept under the key that the
/// lookup used, for the configured time.
pub fn after_weather_fetch(
    state: &AppState,
    pending: Pending,
    observed: Result<ForecastMeta, WeatherUnavailable>,
) -> (step: Step)
    ensures
        match observed {
            Err(_) => step matches Step::Reply(HttpReply::InternalServerError(message))
                && message@ == "Failed to fetch weather data"@,
            Ok(forecast) => step matches Step::StoreAssessment { write } && write.key@
                == cache_key(bucket_or_default(pending.bucket), pending.vehicle)
                && write.ttl_seconds == state.cache_service.ttl_seconds && is_assessment_of(
                write.response,
                forecast,
                pending.vehicle,
            ),
        },
{
    match observed {
        Err(_) => Step::Reply(
            HttpReply::InternalServerError(String::from_str("Failed to fetch weather data")),
        ),
        Ok(forecast) => {
            let response = assess(forecast, pending.vehicle);
            let write = state.cache_service.set_cached_response(
                &pending.bucket,
                pending.vehicle,
                response,
            );
            Step::StoreAssessment { write }
        },
    }
}

/// After the write: the assessment is the reply, whether or not it was kept.
pub fn after_cache_store(write: StoreWrite, stored: Result<(), StoreUnavailable>) -> (reply:
    HttpReply)
    ensures
        reply == HttpReply::Success(write.response),
{
    HttpReply::Success(write.response)
}

/// The service's state of health.
#[derive(Debug, Clone, PartialEq, Eq)]
pub struct Health {
    pub status: String,
    pub version: String,
}

/// Reports the service as up, with the version it runs.
pub fn health_handler(version: String) -> (health: Health)
    ensures
        health.status@ == "ok"@,
        health.version == version,
{
    Health { status: String::from_str("ok"), version }
}

} // verus!
