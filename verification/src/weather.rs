//! The weather provider's interface: the address that is asked for current
//! conditions, and the observation that its answer is normalized to.

use crate::models::{ForecastMeta, WeatherApiResponse};
use vstd::prelude::*;

verus! {

/// No observation could be had from the provider.
#[derive(Debug, Clone, Copy, PartialEq, Eq, Structural)]
pub struct WeatherUnavailable;

/// The observation that a provider's answer holds, field by field.
pub open spec fn observation_of(response: WeatherApiResponse) -> ForecastMeta {
    ForecastMeta {
        temperature_c: response.current.temp_c,
        wind_kph: response.current.wind_kph,
        wind_dir: response.current.wind_dir,
        precip_mm: response.current.precip_mm,
        humidity: response.current.humidity,
        condition: response.current.condition.text,
        condition_code: response.current.condition.code,
        feels_like_c: response.current.feelslike_c,
        uv_index: response.current.uv,
        visibility_km: response.current.vis_km,
    }
}

/// The address for the current conditions at a coordinate, whose latitude
/// and longitude are given as decimal text.
pub open spec fn current_weather_url(
    base_url: Seq<char>,
    api_key: Seq<char>,
    lat: Seq<char>,
    lon: Seq<char>,
) -> Seq<char> {
    base_url + "/current.json?key="@ + api_key + "&q="@ + lat + ","@ + lon
}

#[derive(Debug, Clone, PartialEq, Eq)]
pub struct WeatherClient {
    pub api_key: String,
    pub base_url: String,
}

impl WeatherClient {
    pub fn new(api_key: String, base_url: String) -> (client: WeatherClient)
        ensures
            client.api_key == api_key,
            client.base_url == base_url,
    {
        WeatherClient { api_key, base_url }
    }

    /// The address to ask for the current conditions at a coordinate.
    pub fn request_url(&self, lat: &str, lon: &str) -> (url: String)
        ensures
            url@ == current_weather_url(self.base_url@, self.api_key@, lat@, lon@),
    {
        let mut url = String::from_str(self.base_url.as_str());
        url.append("/current.json?key=");
        url.append(self.api_key.as_str());
        url.append("&q=");
        url.append(lat);
        url.append(",");
        url.append(lon);
        url
    }

    /// The observation in the provider's answer. `None` stands for an answer
    /// that did not arrive or could not be read: every such failure is the
    /// same to the caller, and nothing is tried again.
    pub fn get_current_weather(&self, answer: Option<WeatherApiResponse>) -> (observed: Result<
        ForecastMeta,
        WeatherUnavailable,
    >)
        ensures
            observed == match answer {
                Some(response) => Ok::<_, WeatherUnavailable>(observation_of(response)),
                None => Err(WeatherUnavailable),
            },
    {
        match answer {
            Some(response) => Ok(
                ForecastMeta {
                    temperature_c: response.current.temp_c,
                    wind_kph: response.current.wind_kph,
                    wind_dir: response.current.wind_dir,
                    precip_mm: response.current.precip_mm,
                    humidity: response.current.humidity,
                    condition: response.current.condition.text,
                    condition_code: response.current.condition.code,
                    feels_like_c: response.current.feelslike_c,
                    uv_index: response.current.uv,
                    visibility_km: response.current.vis_km,
                },
            ),
            None => Err(WeatherUnavailable),
        }
    }
}

} // verus!
