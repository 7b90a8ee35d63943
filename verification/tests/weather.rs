use meteoride::models::{CurrentWeather, WeatherApiResponse, WeatherCondition};
use meteoride::reading::Reading;
use meteoride::weather::{WeatherClient, WeatherUnavailable};

fn reading(value: f32) -> Reading {
    Reading::from_bits(value.to_bits())
}

#[test]
fn test_weather_client_creation() {
    let client = WeatherClient::new(
        "test_key".to_string(),
        "https://api.weatherapi.com/v1".to_string(),
    );
    assert_eq!(client.api_key, "test_key");
}

#[test]
fn request_url_names_key_and_coordinate() {
    let client = WeatherClient::new("test_key".to_string(), "https://api.weatherapi.com/v1".to_string());
    assert_eq!(client.base_url, "https://api.weatherapi.com/v1");
    assert_eq!(
        client.request_url("48.8566", "2.3522"),
        "https://api.weatherapi.com/v1/current.json?key=test_key&q=48.8566,2.3522"
    );
    assert_eq!(client.request_url(&format!("{}", -33.5f64), &format!("{}", 151f64)),
        "https://api.weatherapi.com/v1/current.json?key=test_key&q=-33.5,151");
}

#[test]
fn an_answer_is_normalized_field_by_field() {
    let client = WeatherClient::new("k".to_string(), "u".to_string());
    let answer = WeatherApiResponse {
        current: CurrentWeather {
            temp_c: reading(12.5),
            wind_kph: reading(22.0),
            wind_dir: "SW".to_string(),
            precip_mm: reading(0.3),
            humidity: 81,
            condition: WeatherCondition { text: "Light drizzle".to_string(), code: 1153 },
            feelslike_c: reading(11.0),
            uv: reading(2.0),
            vis_km: reading(8.0),
        },
    };
    let observed = client.get_current_weather(Some(answer)).unwrap();
    assert_eq!(observed.temperature_c, reading(12.5));
    assert_eq!(observed.wind_kph, reading(22.0));
    assert_eq!(observed.wind_dir, "SW");
    assert_eq!(observed.precip_mm, reading(0.3));
    assert_eq!(observed.humidity, 81);
    assert_eq!(observed.condition, "Light drizzle");
    assert_eq!(observed.condition_code, 1153);
    assert_eq!(observed.feels_like_c, reading(11.0));
    assert_eq!(observed.uv_index, reading(2.0));
    assert_eq!(observed.visibility_km, reading(8.0));
}

#[test]
fn no_answer_is_no_observation() {
    let client = WeatherClient::new("k".to_string(), "u".to_string());
    assert_eq!(client.get_current_weather(None).unwrap_err(), WeatherUnavailable);
}
