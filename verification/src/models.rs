//! The data that flows through the library: the vehicle category, the
//! observation a weather provider reports, and the assessment made from it.

use crate::reading::Reading;
use vstd::prelude::*;

verus! {

/// The lowercase form of a text, as `str::to_lowercase` of the standard
/// library gives it.
pub uninterp spec fn lowercase_of(text: Seq<char>) -> Seq<char>;

/// Calls `str::to_lowercase`. The standard library documents the result as
/// the lowercase equivalent under the Unicode property `Lowercase`; the
/// contract only gives that result its name.
#[verifier::external_body]
fn to_lowercase(text: &str) -> (lowered: String)
    ensures
        lowered@ == lowercase_of(text@),
{
    text.to_lowercase()
}

/// Do the two texts hold the same characters?
pub fn same_text(a: &str, b: &str) -> (same: bool)
    ensures
        same == (a@ == b@),
{
    let left = String::from_str(a);
    let right = String::from_str(b);
    left == right
}

/// The views of a sequence of strings, in order.
pub open spec fn texts(items: Seq<String>) -> Seq<Seq<char>> {
    Seq::new(items.len(), |i: int| items[i]@)
}

#[derive(Debug, Clone, Copy, PartialEq, Eq, Structural)]
pub enum VehicleType {
    Bike,
    Motor,
}

impl VehicleType {
    /// The canonical lowercase name of the category.
    pub open spec fn name(self) -> Seq<char> {
        match self {
            VehicleType::Bike => "bike"@,
            VehicleType::Motor => "motor"@,
        }
    }

    /// The category that a lowercase text names, if any. "motorcycle" is a
    /// second name for `Motor`.
    pub open spec fn named_by(lowered: Seq<char>) -> Option<VehicleType> {
        if lowered == "bike"@ {
            Some(VehicleType::Bike)
        } else if lowered == "motor"@ || lowered == "motorcycle"@ {
            Some(VehicleType::Motor)
        } else {
            None
        }
    }

    /// Reads a category from a text that is already in lowercase. Any text
    /// but the three names gives `None`.
    pub fn from_lowercase(lowered: &str) -> (parsed: Option<VehicleType>)
        ensures
            parsed == VehicleType::named_by(lowered@),
    {
        if same_text(lowered, "bike") {
            Some(VehicleType::Bike)
        } else if same_text(lowered, "motor") || same_text(lowered, "motorcycle") {
            Some(VehicleType::Motor)
        } else {
            None
        }
    }

    /// Reads a category from a text in any letter case. There is no default
    /// category: an unknown text gives `None`.
    pub fn from_str(s: &str) -> (parsed: Option<VehicleType>)
        ensures
            parsed == VehicleType::named_by(lowercase_of(s@)),
    {
        let lowered = to_lowercase(s);
        VehicleType::from_lowercase(lowered.as_str())
    }

    pub fn as_str(&self) -> (name: &'static str)
        ensures
            name@ == self.name(),
    {
        match self {
            VehicleType::Bike => "bike",
            VehicleType::Motor => "motor",
        }
    }
}

/// The two canonical names differ, and each names its own category.
pub proof fn lemma_names_are_distinct(a: VehicleType, b: VehicleType)
    ensures
        a.name() == b.name() <==> a == b,
        VehicleType::named_by(a.name()) == Some(a),
{
    reveal_strlit("bike");
    reveal_strlit("motor");
    reveal_strlit("motorcycle");
    assert("bike"@.len() == 4);
    assert("motor"@.len() == 5);
    assert("motorcycle"@.len() == 10);
}

/// A weather observation, normalized from what the provider reports.
#[derive(Debug, Clone, PartialEq, Eq)]
pub struct ForecastMeta {
    pub temperature_c: Reading,
    pub wind_kph: Reading,
    pub wind_dir: String,
    pub precip_mm: Reading,
    pub humidity: i32,
    pub condition: String,
    pub condition_code: i32,
    pub feels_like_c: Reading,
    pub uv_index: Reading,
    pub visibility_km: Reading,
}

/// A safety assessment: the observation, the advisories made from it in the
/// order in which the rules were evaluated, and a score if one was computed.
#[derive(Debug, Clone, PartialEq, Eq)]
pub struct RideSafetyResponse {
    pub forecast_meta: ForecastMeta,
    pub hints: Vec<String>,
    pub provider_score: Option<Reading>,
}

/// The provider's answer to a request for current conditions.
#[derive(Debug, Clone, PartialEq, Eq)]
pub struct WeatherApiResponse {
    pub current: CurrentWeather,
}

#[derive(Debug, Clone, PartialEq, Eq)]
pub struct CurrentWeather {
    pub temp_c: Reading,
    pub wind_kph: Reading,
    pub wind_dir: String,
    pub precip_mm: Reading,
    pub humidity: i32,
    pub condition: WeatherCondition,
    pub feelslike_c: Reading,
    pub uv: Reading,
    pub vis_km: Reading,
}

#[derive(Debug, Clone, PartialEq, Eq)]
pub struct WeatherCondition {
    pub text: String,
    pub code: i32,
}

} // verus!
