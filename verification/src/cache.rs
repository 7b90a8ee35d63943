//! The scoring rules, and the response cache's side of the cache-aside
//! protocol: which key an assessment is kept under, what is written, and what
//! a reply of the store means.

use crate::models::{texts, ForecastMeta, RideSafetyResponse, VehicleType};
use vstd::arithmetic::power2::lemma_pow2_pos;
use vstd::prelude::*;

verus! {

// ---------------------------------------------------------------------------
// Advisories
// ---------------------------------------------------------------------------

pub open spec fn wind_advice(forecast: ForecastMeta) -> Seq<Seq<char>> {
    if forecast.wind_kph.above(40) {
        seq!["Strong wind conditions"@]
    } else {
        seq![]
    }
}

pub open spec fn precipitation_advice(forecast: ForecastMeta) -> Seq<Seq<char>> {
    if forecast.precip_mm.above(5) {
        seq!["Heavy precipitation"@]
    } else if forecast.precip_mm.above(0) {
        seq!["Light rain"@]
    } else {
        seq![]
    }
}

pub open spec fn temperature_advice(forecast: ForecastMeta) -> Seq<Seq<char>> {
    if forecast.temperature_c.below(0) {
        seq!["Freezing temperature - risk of ice"@]
    } else if forecast.temperature_c.below(5) {
        seq!["Cold temperature"@]
    } else {
        seq![]
    }
}

pub open spec fn visibility_advice(forecast: ForecastMeta) -> Seq<Seq<char>> {
    if forecast.visibility_km.below(2) {
        seq!["Low visibility"@]
    } else {
        seq![]
    }
}

pub open spec fn uv_advice(forecast: ForecastMeta) -> Seq<Seq<char>> {
    if forecast.uv_index.above(7) {
        seq!["High UV index"@]
    } else {
        seq![]
    }
}

pub open spec fn vehicle_advice(forecast: ForecastMeta, vehicle: VehicleType) -> Seq<Seq<char>> {
    match vehicle {
        VehicleType::Bike => if forecast.wind_kph.above(30) {
            seq!["Wind too strong for cycling"@]
        } else {
            seq![]
        },
        VehicleType::Motor => if forecast.precip_mm.above(0) && forecast.temperature_c.below(5) {
            seq!["Cold and wet - slippery conditions"@]
        } else {
            seq![]
        },
    }
}

/// The warnings of all rules that fire, in the order wind, precipitation,
/// temperature, visibility, UV, vehicle.
pub open spec fn warnings(forecast: ForecastMeta, vehicle: VehicleType) -> Seq<Seq<char>> {
    wind_advice(forecast) + precipitation_advice(forecast) + temperature_advice(forecast)
        + visibility_advice(forecast) + uv_advice(forecast) + vehicle_advice(forecast, vehicle)
}

/// The advisories for an observation: its warnings, or the one all-clear
/// where there is none.
pub open spec fn hints_for(forecast: ForecastMeta, vehicle: VehicleType) -> Seq<Seq<char>> {
    if warnings(forecast, vehicle).len() == 0 {
        seq!["Good conditions for riding"@]
    } else {
        warnings(forecast, vehicle)
    }
}

/// Appends `text` to the advisories.
fn advise(hints: &mut Vec<String>, text: &str)
    ensures
        texts(final(hints)@) == texts(old(hints)@).push(text@),
{
    hints.push(String::from_str(text));
    assert(texts(hints@) =~= texts(old(hints)@).push(text@));
}

fn advise_wind(forecast: &ForecastMeta, hints: &mut Vec<String>)
    ensures
        texts(final(hints)@) == texts(old(hints)@) + wind_advice(*forecast),
{
    if forecast.wind_kph.exceeds(40) {
        advise(hints, "Strong wind conditions");
    }
    assert(texts(hints@) =~= texts(old(hints)@) + wind_advice(*forecast));
}

fn advise_precipitation(forecast: &ForecastMeta, hints: &mut Vec<String>)
    ensures
        texts(final(hints)@) == texts(old(hints)@) + precipitation_advice(*forecast),
{
    if forecast.precip_mm.exceeds(5) {
        advise(hints, "Heavy precipitation");
    } else if forecast.precip_mm.exceeds(0) {
        advise(hints, "Light rain");
    }
    assert(texts(hints@) =~= texts(old(hints)@) + precipitation_advice(*forecast));
}

fn advise_temperature(forecast: &ForecastMeta, hints: &mut Vec<String>)
    ensures
        texts(final(hints)@) == texts(old(hints)@) + temperature_advice(*forecast),
{
    if forecast.temperature_c.falls_below(0) {
        advise(hints, "Freezing temperature - risk of ice");
    } else if forecast.temperature_c.falls_below(5) {
        advise(hints, "Cold temperature");
    }
    assert(texts(hints@) =~= texts(old(hints)@) + temperature_advice(*forecast));
}

fn advise_visibility(forecast: &ForecastMeta, hints: &mut Vec<String>)
    ensures
        texts(final(hints)@) == texts(old(hints)@) + visibility_advice(*forecast),
{
    if forecast.visibility_km.falls_below(2) {
        advise(hints, "Low visibility");
    }
    assert(texts(hints@) =~= texts(old(hints)@) + visibility_advice(*forecast));
}

fn advise_uv(forecast: &ForecastMeta, hints: &mut Vec<String>)
    ensures
        texts(final(hints)@) == texts(old(hints)@) + uv_advice(*forecast),
{
    if forecast.uv_index.exceeds(7) {
        advise(hints, "High UV index");
    }
    assert(texts(hints@) =~= texts(old(hints)@) + uv_advice(*forecast));
}

fn advise_vehicle(forecast: &ForecastMeta, vehicle: VehicleType, hints: &mut Vec<String>)
    ensures
        texts(final(hints)@) == texts(old(hints)@) + vehicle_advice(*forecast, vehicle),
{
    match vehicle {
        VehicleType::Bike => {
            if forecast.wind_kph.exceeds(30) {
                advise(hints, "Wind too strong for cycling");
            }
        },
        VehicleType::Motor => {
            if forecast.precip_mm.exceeds(0) && forecast.temperature_c.falls_below(5) {
                advise(hints, "Cold and wet - slippery conditions");
            }
        },
    }
    assert(texts(hints@) =~= texts(old(hints)@) + vehicle_advice(*forecast, vehicle));
}

/// The advisories for an observation, in the order in which the rules stand.
/// The result is never empty: where no rule fires it is the one all-clear.
pub fn generate_hints(forecast: &ForecastMeta, vehicle: VehicleType) -> (hints: Vec<String>)
    ensures
        texts(hints@) == hints_for(*forecast, vehicle),
{
    let mut hints: Vec<String> = Vec::new();
    assert(texts(hints@) =~= Seq::<Seq<char>>::empty());
    advise_wind(forecast, &mut hints);
    advise_precipitation(forecast, &mut hints);
    advise_temperature(forecast, &mut hints);
    advise_visibility(forecast, &mut hints);
    advise_uv(forecast, &mut hints);
    advise_vehicle(forecast, vehicle, &mut hints);
    assert(texts(hints@) =~= warnings(*forecast, vehicle));
    if hints.len() == 0 {
        advise(&mut hints, "Good conditions for riding");
        assert(texts(hints@) =~= seq!["Good conditions for riding"@]);
    }
    hints
}

/// In fair weather the one advisory is the all-clear: wind of at most 40
/// km/h, no precipitation, 5 to 35 degrees, at least 2 km of visibility and
/// a UV index of at most 7. On a bike the wind must not exceed 30 km/h
/// either, since beyond that the cycling rule fires.
pub proof fn lemma_fair_weather_is_all_clear(forecast: ForecastMeta, vehicle: VehicleType)
    requires
        forecast.wind_kph.at_most(40),
        forecast.precip_mm.is_whole(0),
        forecast.temperature_c.at_least(5),
        forecast.temperature_c.at_most(35),
        forecast.visibility_km.at_least(2),
        forecast.uv_index.at_most(7),
        vehicle == VehicleType::Bike ==> forecast.wind_kph.at_most(30),
    ensures
        hints_for(forecast, vehicle) == seq!["Good conditions for riding"@],
{
    lemma_pow2_pos(149);
    assert(warnings(forecast, vehicle) =~= Seq::<Seq<char>>::empty());
}

/// Every observation has at least one advisory, and at most six.
pub proof fn lemma_hints_are_never_empty(forecast: ForecastMeta, vehicle: VehicleType)
    ensures
        1 <= hints_for(forecast, vehicle).len() <= 6,
{
}

// ---------------------------------------------------------------------------
// Score
// ---------------------------------------------------------------------------

pub open spec fn wind_penalty(forecast: ForecastMeta) -> int {
    if forecast.wind_kph.above(50) {
        30
    } else if forecast.wind_kph.above(40) {
        20
    } else if forecast.wind_kph.above(30) {
        10
    } else {
        0
    }
}

pub open spec fn precipitation_penalty(forecast: ForecastMeta) -> int {
    if forecast.precip_mm.above(10) {
        30
    } else if forecast.precip_mm.above(5) {
        20
    } else if forecast.precip_mm.above(0) {
        10
    } else {
        0
    }
}

pub open spec fn temperature_penalty(forecast: ForecastMeta) -> int {
    if forecast.temperature_c.below(0) {
        40
    } else if forecast.temperature_c.below(5) {
        20
    } else {
        0
    }
}

pub open spec fn visibility_penalty(forecast: ForecastMeta) -> int {
    if forecast.visibility_km.below(1) {
        30
    } else if forecast.visibility_km.below(2) {
        15
    } else {
        0
    }
}

pub open spec fn vehicle_penalty(forecast: ForecastMeta, vehicle: VehicleType) -> int {
    match vehicle {
        VehicleType::Bike => if forecast.wind_kph.above(25) {
            15
        } else {
            0
        },
        VehicleType::Motor => if forecast.precip_mm.above(0) {
            5
        } else {
            0
        },
    }
}

/// All deductions for an observation, one per category.
pub open spec fn total_penalty(forecast: ForecastMeta, vehicle: VehicleType) -> int {
    wind_penalty(forecast) + precipitation_penalty(forecast) + temperature_penalty(forecast)
        + visibility_penalty(forecast) + vehicle_penalty(forecast, vehicle)
}

/// One hundred less the deductions, and no less than zero.
pub open spec fn provider_score(forecast: ForecastMeta, vehicle: VehicleType) -> int {
    if total_penalty(forecast, vehicle) >= 100 {
        0
    } else {
        100 - total_penalty(forecast, vehicle)
    }
}

fn penalize_wind(forecast: &ForecastMeta) -> (penalty: u8)
    ensures
        penalty == wind_penalty(*forecast),
{
    if forecast.wind_kph.exceeds(50) {
        30
    } else if forecast.wind_kph.exceeds(40) {
        20
    } else if forecast.wind_kph.exceeds(30) {
        10
    } else {
        0
    }
}

fn penalize_precipitation(forecast: &ForecastMeta) -> (penalty: u8)
    ensures
        penalty == precipitation_penalty(*forecast),
{
    if forecast.precip_mm.exceeds(10) {
        30
    } else if forecast.precip_mm.exceeds(5) {
        20
    } else if forecast.precip_mm.exceeds(0) {
        10
    } else {
        0
    }
}

fn penalize_temperature(forecast: &ForecastMeta) -> (penalty: u8)
    ensures
        penalty == temperature_penalty(*forecast),
{
    if forecast.temperature_c.falls_below(0) {
        40
    } else if forecast.temperature_c.falls_below(5) {
        20
    } else {
        0
    }
}

fn penalize_visibility(forecast: &ForecastMeta) -> (penalty: u8)
    ensures
        penalty == visibility_penalty(*forecast),
{
    if forecast.visibility_km.falls_below(1) {
        30
    } else if forecast.visibility_km.falls_below(2) {
        15
    } else {
        0
    }
}

fn penalize_vehicle(forecast: &ForecastMeta, vehicle: VehicleType) -> (penalty: u8)
    ensures
        penalty == vehicle_penalty(*forecast, vehicle),
{
    match vehicle {
        VehicleType::Bike => if forecast.wind_kph.exceeds(25) {
            15
        } else {
            0
        },
        VehicleType::Motor => if forecast.precip_mm.exceeds(0) {
            5
        } else {
            0
        },
    }
}

/// The score of an observation for a vehicle: a whole number from 0 to 100.
pub fn calculate_provider_score(forecast: &ForecastMeta, vehicle: VehicleType) -> (score: u8)
    ensures
        score == provider_score(*forecast, vehicle),
        0 <= score <= 100,
{
    let penalty: u8 = penalize_wind(forecast) + penalize_precipitation(forecast)
        + penalize_temperature(forecast) + penalize_visibility(forecast) + penalize_vehicle(
        forecast,
        vehicle,
    );
    if penalty >= 100 {
        0
    } else {
        100 - penalty
    }
}

/// The score is 100 exactly where no penalty applies, and 0 exactly where
/// the penalties reach 100.
pub proof fn lemma_score_bounds(forecast: ForecastMeta, vehicle: VehicleType)
    ensures
        0 <= provider_score(forecast, vehicle) <= 100,
        0 <= total_penalty(forecast, vehicle) <= 145,
        provider_score(forecast, vehicle) == 100 <==> total_penalty(forecast, vehicle) == 0,
        provider_score(forecast, vehicle) == 0 <==> total_penalty(forecast, vehicle) >= 100,
{
}

// ---------------------------------------------------------------------------
// Cache keys
// ---------------------------------------------------------------------------

/// The bucket that a key is made from: the spatial bucket of the coordinate,
/// or the sentinel where the coordinate could not be encoded.
pub open spec fn bucket_or_default(bucket: Option<String>) -> Seq<char> {
    match bucket {
        Some(name) => name@,
        None => "default"@,
    }
}

/// The key of a bucket and a vehicle: the namespace, the bucket, the
/// vehicle's name and the schema version, joined by colons.
pub open spec fn cache_key(bucket: Seq<char>, vehicle: VehicleType) -> Seq<char> {
    "ride:"@ + bucket + ":"@ + vehicle.name() + ":v1"@
}

/// The store did not answer.
#[derive(Debug, Clone, Copy, PartialEq, Eq, Structural)]
pub struct StoreUnavailable;

/// What a lookup in the store came to.
#[derive(Debug, PartialEq, Eq)]
pub enum StoreReply {
    /// The store could not be reached.
    Unavailable,
    /// Nothing is kept under the key: never written, or expired.
    Missing,
    /// Something is kept under the key that does not read as an assessment.
    Unreadable,
    /// The assessment kept under the key.
    Found(RideSafetyResponse),
}

/// A write to the store: the payload replaces whatever the key held, and
/// expires after `ttl_seconds`.
#[derive(Debug, PartialEq, Eq)]
pub struct StoreWrite {
    pub key: String,
    pub ttl_seconds: u64,
    pub response: RideSafetyResponse,
}

/// The response cache's settings.
#[derive(Debug, Clone, Copy, PartialEq, Eq, Structural)]
pub struct CacheService {
    pub ttl_seconds: u64,
    pub geohash_precision: usize,
}

impl CacheService {
    pub fn new(ttl_seconds: u64, geohash_precision: usize) -> (service: CacheService)
        ensures
            service.ttl_seconds == ttl_seconds,
            service.geohash_precision == geohash_precision,
    {
        CacheService { ttl_seconds, geohash_precision }
    }

    /// The key under which the assessment for a bucket and a vehicle is
    /// kept. `bucket` is the coordinate's geohash at the configured
    /// precision, or `None` where the coordinate has none; the key is then
    /// made from the sentinel bucket "default".
    pub fn generate_cache_key(&self, bucket: &Option<String>, vehicle: VehicleType) -> (key: String)
        ensures
            key@ == cache_key(bucket_or_default(*bucket), vehicle),
    {
        let mut key = String::from_str("ride:");
        match bucket {
            Some(name) => key.append(name.as_str()),
            None => key.append("default"),
        }
        key.append(":");
        key.append(vehicle.as_str());
        key.append(":v1");
        key
    }

    /// What a lookup means to the caller. A missing entry and one that
    /// cannot be read are both a miss, not an error; only a store that did
    /// not answer is reported, and the caller goes on as after a miss.
    pub fn get_cached_response(&self, reply: StoreReply) -> (cached: Result<
        Option<RideSafetyResponse>,
        StoreUnavailable,
    >)
        ensures
            cached == match reply {
                StoreReply::Unavailable => Err::<Option<RideSafetyResponse>, _>(StoreUnavailable),
                StoreReply::Missing => Ok(None),
                StoreReply::Unreadable => Ok(None),
                StoreReply::Found(response) => Ok(Some(response)),
            },
    {
        match reply {
            StoreReply::Unavailable => Err(StoreUnavailable),
            StoreReply::Missing => Ok(None),
            StoreReply::Unreadable => Ok(None),
            StoreReply::Found(response) => Ok(Some(response)),
        }
    }

    /// The write that keeps `response` for a bucket and a vehicle: under the
    /// key that a lookup for them uses, with the configured time to live.
    pub fn set_cached_response(
        &self,
        bucket: &Option<String>,
        vehicle: VehicleType,
        response: RideSafetyResponse,
    ) -> (write: StoreWrite)
        ensures
            write.key@ == cache_key(bucket_or_default(*bucket), vehicle),
            write.ttl_seconds == self.ttl_seconds,
            write.response == response,
    {
        let key = self.generate_cache_key(bucket, vehicle);
        StoreWrite { key, ttl_seconds: self.ttl_seconds, response }
    }
}

/// Keys are one-to-one: two keys are the same exactly where both the bucket
/// and the vehicle are. So coordinates of one bucket share an entry for a
/// vehicle, and the two vehicles never share one.
pub proof fn lemma_cache_key_is_injective(
    bucket_a: Seq<char>,
    vehicle_a: VehicleType,
    bucket_b: Seq<char>,
    vehicle_b: VehicleType,
)
    ensures
        cache_key(bucket_a, vehicle_a) == cache_key(bucket_b, vehicle_b) <==> bucket_a == bucket_b
            && vehicle_a == vehicle_b,
{
    reveal_strlit("ride:");
    reveal_strlit(":");
    reveal_strlit(":v1");
    reveal_strlit("bike");
    reveal_strlit("motor");
    let key_a = cache_key(bucket_a, vehicle_a);
    let key_b = cache_key(bucket_b, vehicle_b);
    if key_a == key_b {
        assert(key_a.len() == 5 + bucket_a.len() + 1 + vehicle_a.name().len() + 3);
        assert(key_b.len() == 5 + bucket_b.len() + 1 + vehicle_b.name().len() + 3);
        // The fourth character from the end is the last of the vehicle's name.
        assert(key_a[key_a.len() - 4] == vehicle_a.name()[vehicle_a.name().len() - 1]);
        assert(key_b[key_b.len() - 4] == vehicle_b.name()[vehicle_b.name().len() - 1]);
        assert(vehicle_a == vehicle_b);
        assert(bucket_a.len() == bucket_b.len());
        assert forall|i: int| 0 <= i < bucket_a.len() implies bucket_a[i] == bucket_b[i] by {
            assert(key_a[5 + i] == bucket_a[i]);
            assert(key_b[5 + i] == bucket_b[i]);
        }
        assert(bucket_a =~= bucket_b);
    }
}

} // verus!
