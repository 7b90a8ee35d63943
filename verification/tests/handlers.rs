use meteoride::cache::{CacheService, StoreUnavailable};
use meteoride::config::{CacheConfig, Config, ServerConfig, WeatherApiConfig};
use meteoride::handlers::{
    after_cache_lookup, after_cache_store, after_weather_fetch, assess, begin_ride_safety,
    health_handler, ride_safety_handler, AppState, HttpReply, Pending, Step,
};
use meteoride::models::{ForecastMeta, RideSafetyResponse, VehicleType};
use meteoride::reading::Reading;
use meteoride::weather::{WeatherClient, WeatherUnavailable};

fn reading(value: f32) -> Reading {
    Reading::from_bits(value.to_bits())
}

fn state() -> AppState {
    AppState {
        weather_client: WeatherClient::new("key".to_string(), "https://weather.example/v1".to_string()),
        cache_service: CacheService::new(600, 5),
    }
}

fn storm() -> ForecastMeta {
    ForecastMeta {
        temperature_c: reading(-5.0),
        wind_kph: reading(50.0),
        wind_dir: "N".to_string(),
        precip_mm: reading(10.0),
        humidity: 90,
        condition: "Heavy rain".to_string(),
        condition_code: 1189,
        feels_like_c: reading(-10.0),
        uv_index: reading(1.0),
        visibility_km: reading(1.0),
    }
}

fn drizzle() -> ForecastMeta {
    ForecastMeta {
        temperature_c: reading(12.5),
        wind_kph: reading(22.0),
        wind_dir: "SW".to_string(),
        precip_mm: reading(0.3),
        humidity: 81,
        condition: "Light drizzle".to_string(),
        condition_code: 1153,
        feels_like_c: reading(11.0),
        uv_index: reading(2.0),
        visibility_km: reading(8.0),
    }
}

fn pending(vehicle: VehicleType) -> Pending {
    Pending { bucket: Some("u09tv".to_string()), vehicle }
}

#[test]
fn state_is_made_from_the_configuration() {
    let config = Config {
        server: ServerConfig { host: "0.0.0.0".to_string(), port: 8080 },
        weatherapi: WeatherApiConfig {
            key: "secret".to_string(),
            provider: "weatherapi".to_string(),
            base_url: "https://api.weatherapi.com/v1".to_string(),
        },
        cache: CacheConfig { redis_url: "redis://localhost".to_string(), ttl_seconds: 300, geohash_precision: 6 },
    };
    let state = AppState::from_config(&config);
    assert_eq!(state.weather_client.api_key, "secret");
    assert_eq!(state.weather_client.base_url, "https://api.weatherapi.com/v1");
    assert_eq!(state.cache_service, CacheService::new(300, 6));
}

#[test]
fn an_unknown_vehicle_is_the_clients_fault() {
    let step = ride_safety_handler(&state(), "car", Some("u09tv".to_string()));
    let expected = HttpReply::BadRequest("Invalid vehicle type. Use 'bike' or 'motor'".to_string());
    assert_eq!(expected.status_code(), 400);
    assert_eq!(step, Step::Reply(expected));
}

#[test]
fn a_known_vehicle_leads_to_the_cache() {
    for (text, vehicle, key) in [
        ("bike", VehicleType::Bike, "ride:u09tv:bike:v1"),
        ("Motorcycle", VehicleType::Motor, "ride:u09tv:motor:v1"),
        ("MOTOR", VehicleType::Motor, "ride:u09tv:motor:v1"),
    ] {
        let step = ride_safety_handler(&state(), text, Some("u09tv".to_string()));
        assert_eq!(step, Step::LookupCache { key: key.to_string(), pending: pending(vehicle) });
    }
}

#[test]
fn a_request_without_a_bucket_uses_the_sentinel() {
    let step = ride_safety_handler(&state(), "bike", None);
    assert_eq!(
        step,
        Step::LookupCache {
            key: "ride:default:bike:v1".to_string(),
            pending: Pending { bucket: None, vehicle: VehicleType::Bike },
        }
    );
}

#[test]
fn beginning_with_a_parsed_vehicle() {
    assert_eq!(
        begin_ride_safety(&state(), None, None),
        Step::Reply(HttpReply::BadRequest("Invalid vehicle type. Use 'bike' or 'motor'".to_string()))
    );
    assert_eq!(
        begin_ride_safety(&state(), Some(VehicleType::Motor), Some("u09tv".to_string())),
        Step::LookupCache { key: "ride:u09tv:motor:v1".to_string(), pending: pending(VehicleType::Motor) }
    );
}

#[test]
fn a_hit_is_the_reply() {
    let cached = assess(drizzle(), VehicleType::Bike);
    let step = after_cache_lookup(pending(VehicleType::Bike), Ok(Some(cached.clone())));
    let expected = HttpReply::Success(cached);
    assert_eq!(expected.status_code(), 200);
    assert_eq!(step, Step::Reply(expected));
}

#[test]
fn a_miss_leads_to_the_provider() {
    let step = after_cache_lookup(pending(VehicleType::Bike), Ok(None));
    assert_eq!(step, Step::FetchWeather { pending: pending(VehicleType::Bike) });
}

#[test]
fn a_silent_store_leads_to_the_provider_too() {
    let step = after_cache_lookup(pending(VehicleType::Motor), Err(StoreUnavailable));
    assert_eq!(step, Step::FetchWeather { pending: pending(VehicleType::Motor) });
}

#[test]
fn without_an_observation_the_request_fails() {
    let step = after_weather_fetch(&state(), pending(VehicleType::Bike), Err(WeatherUnavailable));
    let expected = HttpReply::InternalServerError("Failed to fetch weather data".to_string());
    assert_eq!(expected.status_code(), 500);
    assert_eq!(step, Step::Reply(expected));
}

#[test]
fn an_observation_is_assessed_and_kept() {
    let step = after_weather_fetch(&state(), pending(VehicleType::Motor), Ok(drizzle()));
    let Step::StoreAssessment { write } = step else { panic!("no write: {step:?}") };
    assert_eq!(write.key, "ride:u09tv:motor:v1");
    assert_eq!(write.ttl_seconds, 600);
    assert_eq!(
        write.response,
        RideSafetyResponse {
            forecast_meta: drizzle(),
            hints: vec!["Light rain".to_string()],
            provider_score: Some(reading(85.0)),
        }
    );
}

#[test]
fn the_assessment_is_the_reply_whether_or_not_it_was_kept() {
    for stored in [Ok(()), Err(StoreUnavailable)] {
        let step = after_weather_fetch(&state(), pending(VehicleType::Bike), Ok(storm()));
        let Step::StoreAssessment { write } = step else { panic!("no write: {step:?}") };
        let reply = after_cache_store(write, stored);
        assert_eq!(reply, HttpReply::Success(assess(storm(), VehicleType::Bike)));
    }
}

#[test]
fn assessing_a_storm() {
    let response = assess(storm(), VehicleType::Bike);
    assert_eq!(response.forecast_meta, storm());
    assert_eq!(response.hints.len(), 5);
    assert_eq!(response.provider_score, Some(reading(0.0)));
    let response = assess(drizzle(), VehicleType::Bike);
    assert_eq!(response.provider_score, Some(reading(90.0)));
}

#[test]
fn a_miss_runs_lookup_fetch_store_reply() {
    let state = state();
    let Step::LookupCache { key, pending } = ride_safety_handler(&state, "bike", Some("u09tv".to_string())) else {
        panic!("no lookup")
    };
    assert_eq!(key, "ride:u09tv:bike:v1");
    let Step::FetchWeather { pending } = after_cache_lookup(pending, Ok(None)) else { panic!("no fetch") };
    let Step::StoreAssessment { write } = after_weather_fetch(&state, pending, Ok(drizzle())) else {
        panic!("no write")
    };
    assert_eq!(write.key, key);
    let kept = write.response.clone();
    assert_eq!(after_cache_store(write, Ok(())), HttpReply::Success(kept.clone()));
    // The next request for the bucket finds what was kept.
    let Step::LookupCache { pending, .. } = ride_safety_handler(&state, "bike", Some("u09tv".to_string())) else {
        panic!("no lookup")
    };
    assert_eq!(after_cache_lookup(pending, Ok(Some(kept.clone()))), Step::Reply(HttpReply::Success(kept)));
}

#[test]
fn health_is_ok_with_the_version() {
    let health = health_handler("0.1.0".to_string());
    assert_eq!(health.status, "ok");
    assert_eq!(health.version, "0.1.0");
}
