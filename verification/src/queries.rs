//! Query parameters and endpoint paths of the upstream reference and
//! analytics lookups.
//!
//! Each lookup's parameters are an explicit value, and its endpoint path and
//! query string are built by a verified function; the caller prepends the
//! environment's base address and performs the call.

use vstd::prelude::*;
use crate::text::{spec_decimal_signed, i32_to_string};

verus! {

/// What `urlencoding::encode` returns for a string: its percent-encoded
/// form, a function of the characters alone.
pub uninterp spec fn url_encoded(s: Seq<char>) -> Seq<char>;

/// Relies on `urlencoding::encode`: percent-encodes every byte except
/// alphanumerics and `-`, `_`, `.`, `~`; a pure function of its argument,
/// and an empty string stays empty.
#[verifier::external_body]
fn url_encode(s: &str) -> (encoded: String)
    ensures
        encoded@ == url_encoded(s@),
        s@.len() == 0 ==> encoded@.len() == 0,
{
    urlencoding::encode(s).into_owned()
}

/// Append a rendered number to a string.
fn push_decimal(text: &mut String, n: i32)
    ensures
        final(text)@ == old(text)@ + spec_decimal_signed(n as int),
{
    let rendered = i32_to_string(n);
    text.append(rendered.as_str());
}

/// Parameters for the flight destinations (inspiration) lookup.
#[derive(Debug, Clone)]
pub struct FlightDestinationsQuery {
    pub origin: String,
    pub max_price: Option<i32>,
}

/// The inspiration lookup's path: origin, and the price cap when given.
pub open spec fn spec_flight_destinations_path(q: FlightDestinationsQuery) -> Seq<char> {
    "/v1/shopping/flight-destinations?origin="@ + q.origin@ + (match q.max_price {
        Some(p) => "&maxPrice="@ + spec_decimal_signed(p as int),
        None => Seq::empty(),
    })
}

/// Build the inspiration lookup's path.
pub fn flight_destinations_path(q: &FlightDestinationsQuery) -> (path: String)
    ensures
        path@ == spec_flight_destinations_path(*q),
{
    let mut path = String::from_str("/v1/shopping/flight-destinations?origin=");
    path.append(q.origin.as_str());
    match q.max_price {
        Some(p) => {
            path.append("&maxPrice=");
            push_decimal(&mut path, p);
        },
        None => (),
    }
    proof {
        assert(path@ =~= spec_flight_destinations_path(*q));
    }
    path
}

/// Parameters for the cheapest-dates lookup.
#[derive(Debug, Clone)]
pub struct FlightDatesQuery {
    pub origin: String,
    pub destination: String,
}

/// The cheapest-dates lookup's path.
pub open spec fn spec_flight_dates_path(q: FlightDatesQuery) -> Seq<char> {
    "/v1/shopping/flight-dates?origin="@ + q.origin@ + "&destination="@ + q.destination@
}

/// Build the cheapest-dates lookup's path.
pub fn flight_dates_path(q: &FlightDatesQuery) -> (path: String)
    ensures
        path@ == spec_flight_dates_path(*q),
{
    let mut path = String::from_str("/v1/shopping/flight-dates?origin=");
    path.append(q.origin.as_str());
    path.append("&destination=");
    path.append(q.destination.as_str());
    proof {
        assert(path@ =~= spec_flight_dates_path(*q));
    }
    path
}

/// Parameters for the historical price metrics lookup.
#[derive(Debug, Clone)]
pub struct PriceMetricsQuery {
    pub origin: String,
    pub destination: String,
    pub departure_date: String,
    pub currency_code: Option<String>,
    pub one_way: Option<bool>,
}

/// The price metrics lookup's path.
pub open spec fn spec_price_metrics_path(q: PriceMetricsQuery) -> Seq<char> {
    "/v1/analytics/itinerary-price-metrics?originIataCode="@ + q.origin@
        + "&destinationIataCode="@ + q.destination@ + "&departureDate="@ + q.departure_date@ + (
    match q.currency_code {
        Some(c) => "&currencyCode="@ + c@,
        None => Seq::empty(),
    }) + (match q.one_way {
        Some(b) => "&oneWay="@ + (if b {
            "true"@
        } else {
            "false"@
        }),
        None => Seq::empty(),
    })
}

/// Build the price metrics lookup's path.
pub fn price_metrics_path(q: &PriceMetricsQuery) -> (path: String)
    ensures
        path@ == spec_price_metrics_path(*q),
{
    let mut path = String::from_str("/v1/analytics/itinerary-price-metrics?originIataCode=");
    path.append(q.origin.as_str());
    path.append("&destinationIataCode=");
    path.append(q.destination.as_str());
    path.append("&departureDate=");
    path.append(q.departure_date.as_str());
    match &q.currency_code {
        Some(c) => {
            path.append("&currencyCode=");
            path.append(c.as_str());
        },
        None => (),
    }
    match q.one_way {
        Some(b) => {
            path.append("&oneWay=");
            if b {
                path.append("true");
            } else {
                path.append("false");
            }
        },
        None => (),
    }
    proof {
        assert(path@ =~= spec_price_metrics_path(*q));
    }
    path
}

/// Parameters for the flight delay prediction lookup.
#[derive(Debug, Clone)]
pub struct FlightDelayQuery {
    pub origin: String,
    pub destination: String,
    pub departure_date: String,
    pub departure_time: String,
    pub arrival_date: String,
    pub arrival_time: String,
    pub aircraft_code: String,
    pub carrier_code: String,
    pub flight_number: String,
    pub duration: String,
}

/// The delay prediction lookup's path.
pub open spec fn spec_flight_delay_path(q: FlightDelayQuery) -> Seq<char> {
    "/v1/travel/predictions/flight-delay?originLocationCode="@ + q.origin@
        + "&destinationLocationCode="@ + q.destination@ + "&departureDate="@ + q.departure_date@
        + "&departureTime="@ + q.departure_time@ + "&arrivalDate="@ + q.arrival_date@
        + "&arrivalTime="@ + q.arrival_time@ + "&aircraftCode="@ + q.aircraft_code@
        + "&carrierCode="@ + q.carrier_code@ + "&flightNumber="@ + q.flight_number@ + "&duration="@
        + q.duration@
}

/// Build the delay prediction lookup's path.
pub fn flight_delay_path(q: &FlightDelayQuery) -> (path: String)
    ensures
        path@ == spec_flight_delay_path(*q),
{
    let mut path = String::from_str("/v1/travel/predictions/flight-delay?originLocationCode=");
    path.append(q.origin.as_str());
    path.append("&destinationLocationCode=");
    path.append(q.destination.as_str());
    path.append("&departureDate=");
    path.append(q.departure_date.as_str());
    path.append("&departureTime=");
    path.append(q.departure_time.as_str());
    path.append("&arrivalDate=");
    path.append(q.arrival_date.as_str());
    path.append("&arrivalTime=");
    path.append(q.arrival_time.as_str());
    path.append("&aircraftCode=");
    path.append(q.aircraft_code.as_str());
    path.append("&carrierCode=");
    path.append(q.carrier_code.as_str());
    path.append("&flightNumber=");
    path.append(q.flight_number.as_str());
    path.append("&duration=");
    path.append(q.duration.as_str());
    proof {
        assert(path@ =~= spec_flight_delay_path(*q));
    }
    path
}

/// Parameters for the airport direct destinations lookup.
#[derive(Debug, Clone)]
pub struct AirportDirectDestinationsQuery {
    pub departure_airport_code: String,
    pub max: Option<i32>,
}

/// The airport direct destinations lookup's path.
pub open spec fn spec_airport_direct_destinations_path(
    q: AirportDirectDestinationsQuery,
) -> Seq<char> {
    "/v1/airport/direct-destinations?departureAirportCode="@ + q.departure_airport_code@ + (
    match q.max {
        Some(m) => "&max="@ + spec_decimal_signed(m as int),
        None => Seq::empty(),
    })
}

/// Build the airport direct destinations lookup's path.
pub fn airport_direct_destinations_path(q: &AirportDirectDestinationsQuery) -> (path: String)
    ensures
        path@ == spec_airport_direct_destinations_path(*q),
{
    let mut path = String::from_str("/v1/airport/direct-destinations?departureAirportCode=");
    path.append(q.departure_airport_code.as_str());
    match q.max {
        Some(m) => {
            path.append("&max=");
            push_decimal(&mut path, m);
        },
        None => (),
    }
    proof {
        assert(path@ =~= spec_airport_direct_destinations_path(*q));
    }
    path
}

/// Parameters for the airline destinations lookup.
#[derive(Debug, Clone)]
pub struct AirlineDestinationsQuery {
    pub airline_code: String,
    pub max: Option<i32>,
}

/// The airline destinations lookup's path.
pub open spec fn spec_airline_destinations_path(q: AirlineDestinationsQuery) -> Seq<char> {
    "/v1/airline/destinations?airlineCode="@ + q.airline_code@ + (match q.max {
        Some(m) => "&max="@ + spec_decimal_signed(m as int),
        None => Seq::empty(),
    })
}

/// Build the airline destinations lookup's path.
pub fn airline_destinations_path(q: &AirlineDestinationsQuery) -> (path: String)
    ensures
        path@ == spec_airline_destinations_path(*q),
{
    let mut path = String::from_str("/v1/airline/destinations?airlineCode=");
    path.append(q.airline_code.as_str());
    match q.max {
        Some(m) => {
            path.append("&max=");
            push_decimal(&mut path, m);
        },
        None => (),
    }
    proof {
        assert(path@ =~= spec_airline_destinations_path(*q));
    }
    path
}

/// Parameters for the flight status lookup.
#[derive(Debug, Clone)]
pub struct FlightStatusQuery {
    pub carrier_code: String,
    pub flight_number: String,
    pub scheduled_departure_date: String,
}

/// The flight status lookup's path.
pub open spec fn spec_flight_status_path(q: FlightStatusQuery) -> Seq<char> {
    "/v2/schedule/flights?carrierCode="@ + q.carrier_code@ + "&flightNumber="@ + q.flight_number@
        + "&scheduledDepartureDate="@ + q.scheduled_departure_date@
}

/// Build the flight status lookup's path.
pub fn flight_status_path(q: &FlightStatusQuery) -> (path: String)
    ensures
        path@ == spec_flight_status_path(*q),
{
    let mut path = String::from_str("/v2/schedule/flights?carrierCode=");
    path.append(q.carrier_code.as_str());
    path.append("&flightNumber=");
    path.append(q.flight_number.as_str());
    path.append("&scheduledDepartureDate=");
    path.append(q.scheduled_departure_date.as_str());
    proof {
        assert(path@ =~= spec_flight_status_path(*q));
    }
    path
}

/// Parameters for the check-in links lookup.
#[derive(Debug, Clone)]
pub struct CheckinLinksQuery {
    pub airline_code: String,
    pub language: Option<String>,
}

/// The check-in links lookup's path.
pub open spec fn spec_checkin_links_path(q: CheckinLinksQuery) -> Seq<char> {
    "/v2/reference-data/urls/checkin-links?airlineCode="@ + q.airline_code@ + (match q.language {
        Some(l) => "&language="@ + l@,
        None => Seq::empty(),
    })
}

/// Build the check-in links lookup's path.
pub fn checkin_links_path(q: &CheckinLinksQuery) -> (path: String)
    ensures
        path@ == spec_checkin_links_path(*q),
{
    let mut path = String::from_str("/v2/reference-data/urls/checkin-links?airlineCode=");
    path.append(q.airline_code.as_str());
    match &q.language {
        Some(l) => {
            path.append("&language=");
            path.append(l.as_str());
        },
        None => (),
    }
    proof {
        assert(path@ =~= spec_checkin_links_path(*q));
    }
    path
}

/// Parameters for the locations (airports and cities) search.
#[derive(Debug, Clone)]
pub struct LocationsQuery {
    pub keyword: String,
    pub sub_type: Option<String>,
    pub page_limit: Option<i32>,
}

/// Subtypes searched when the query names none.
pub const DEFAULT_LOCATION_SUBTYPES: &'static str = "AIRPORT,CITY";

/// The locations search's path: the percent-encoded keyword, the subtype
/// (defaulted), the full view sorted by traveler score, and the page limit
/// when given.
pub open spec fn spec_locations_path(q: LocationsQuery) -> Seq<char> {
    "/v1/reference-data/locations?keyword="@ + url_encoded(q.keyword@) + "&subType="@ + (
    match q.sub_type {
        Some(s) => s@,
        None => DEFAULT_LOCATION_SUBTYPES@,
    }) + "&view=FULL&sort=analytics.travelers.score"@ + (match q.page_limit {
        Some(l) => "&page[limit]="@ + spec_decimal_signed(l as int),
        None => Seq::empty(),
    })
}

/// Build the locations search's path.
pub fn locations_path(q: &LocationsQuery) -> (path: String)
    ensures
        path@ == spec_locations_path(*q),
{
    let mut path = String::from_str("/v1/reference-data/locations?keyword=");
    let encoded = url_encode(q.keyword.as_str());
    path.append(encoded.as_str());
    path.append("&subType=");
    match &q.sub_type {
        Some(s) => path.append(s.as_str()),
        None => path.append(DEFAULT_LOCATION_SUBTYPES),
    }
    path.append("&view=FULL&sort=analytics.travelers.score");
    match q.page_limit {
        Some(l) => {
            path.append("&page[limit]=");
            push_decimal(&mut path, l);
        },
        None => (),
    }
    proof {
        assert(path@ =~= spec_locations_path(*q));
    }
    path
}

/// Parameters for the airlines lookup.
#[derive(Debug, Clone)]
pub struct AirlinesQuery {
    pub airline_codes: Option<String>,
}

/// The airlines lookup's path.
pub open spec fn spec_airlines_path(q: AirlinesQuery) -> Seq<char> {
    "/v1/reference-data/airlines"@ + (match q.airline_codes {
        Some(codes) => "?airlineCodes="@ + codes@,
        None => Seq::empty(),
    })
}

/// Build the airlines lookup's path.
pub fn airlines_path(q: &AirlinesQuery) -> (path: String)
    ensures
        path@ == spec_airlines_path(*q),
{
    let mut path = String::from_str("/v1/reference-data/airlines");
    match &q.airline_codes {
        Some(codes) => {
            path.append("?airlineCodes=");
            path.append(codes.as_str());
        },
        None => (),
    }
    proof {
        assert(path@ =~= spec_airlines_path(*q));
    }
    path
}

/// Parameters for the busiest travel period lookup.
#[derive(Debug, Clone)]
pub struct BusiestPeriodQuery {
    pub city_code: String,
    pub period: String,
    pub direction: Option<String>,
}

/// The busiest period lookup's path.
pub open spec fn spec_busiest_period_path(q: BusiestPeriodQuery) -> Seq<char> {
    "/v1/travel/analytics/air-traffic/busiest-period?cityCode="@ + q.city_code@ + "&period="@
        + q.period@ + (match q.direction {
        Some(d) => "&direction="@ + d@,
        None => Seq::empty(),
    })
}

/// Build the busiest period lookup's path.
pub fn busiest_period_path(q: &BusiestPeriodQuery) -> (path: String)
    ensures
        path@ == spec_busiest_period_path(*q),
{
    let mut path = String::from_str("/v1/travel/analytics/air-traffic/busiest-period?cityCode=");
    path.append(q.city_code.as_str());
    path.append("&period=");
    path.append(q.period.as_str());
    match &q.direction {
        Some(d) => {
            path.append("&direction=");
            path.append(d.as_str());
        },
        None => (),
    }
    proof {
        assert(path@ =~= spec_busiest_period_path(*q));
    }
    path
}

/// Parameters for the booked air traffic lookup.
#[derive(Debug, Clone)]
pub struct AirTrafficBookedQuery {
    pub origin_city_code: String,
    pub period: String,
    pub max: Option<i32>,
}

/// The booked air traffic lookup's path.
pub open spec fn spec_air_traffic_booked_path(q: AirTrafficBookedQuery) -> Seq<char> {
    "/v1/travel/analytics/air-traffic/booked?originCityCode="@ + q.origin_city_code@ + "&period="@
        + q.period@ + (match q.max {
        Some(m) => "&max="@ + spec_decimal_signed(m as int),
        None => Seq::empty(),
    })
}

/// Build the booked air traffic lookup's path.
pub fn air_traffic_booked_path(q: &AirTrafficBookedQuery) -> (path: String)
    ensures
        path@ == spec_air_traffic_booked_path(*q),
{
    let mut path = String::from_str("/v1/travel/analytics/air-traffic/booked?originCityCode=");
    path.append(q.origin_city_code.as_str());
    path.append("&period=");
    path.append(q.period.as_str());
    match q.max {
        Some(m) => {
            path.append("&max=");
            push_decimal(&mut path, m);
        },
        None => (),
    }
    proof {
        assert(path@ =~= spec_air_traffic_booked_path(*q));
    }
    path
}

/// Parameters for the recommended locations lookup.
#[derive(Debug, Clone)]
pub struct RecommendedLocationsQuery {
    pub city_codes: String,
    pub traveler_country_code: Option<String>,
}

/// The recommended locations lookup's path.
pub open spec fn spec_recommended_locations_path(q: RecommendedLocationsQuery) -> Seq<char> {
    "/v1/reference-data/recommended-locations?cityCodes="@ + q.city_codes@ + (
    match q.traveler_country_code {
        Some(c) => "&travelerCountryCode="@ + c@,
        None => Seq::empty(),
    })
}

/// Build the recommended locations lookup's path.
pub fn recommended_locations_path(q: &RecommendedLocationsQuery) -> (path: String)
    ensures
        path@ == spec_recommended_locations_path(*q),
{
    let mut path = String::from_str("/v1/reference-data/recommended-locations?cityCodes=");
    path.append(q.city_codes.as_str());
    match &q.traveler_country_code {
        Some(c) => {
            path.append("&travelerCountryCode=");
            path.append(c.as_str());
        },
        None => (),
    }
    proof {
        assert(path@ =~= spec_recommended_locations_path(*q));
    }
    path
}

/// The pricing endpoint's path, with the baggage catalog included on
/// request.
pub open spec fn spec_pricing_path(include_bags: bool) -> Seq<char> {
    "/v1/shopping/flight-offers/pricing"@ + (if include_bags {
        "?include=bags"@
    } else {
        Seq::empty()
    })
}

/// Build the pricing endpoint's path.
pub fn pricing_path(include_bags: bool) -> (path: String)
    ensures
        path@ == spec_pricing_path(include_bags),
{
    let mut path = String::from_str("/v1/shopping/flight-offers/pricing");
    if include_bags {
        path.append("?include=bags");
    }
    proof {
        assert(path@ =~= spec_pricing_path(include_bags));
    }
    path
}

/// The path of one stored order.
pub open spec fn spec_flight_order_path(order_id: Seq<char>) -> Seq<char> {
    "/v1/booking/flight-orders/"@ + order_id
}

/// Build the path of one stored order.
pub fn flight_order_path(order_id: &str) -> (path: String)
    ensures
        path@ == spec_flight_order_path(order_id@),
{
    let mut path = String::from_str("/v1/booking/flight-orders/");
    path.append(order_id);
    proof {
        assert(path@ =~= spec_flight_order_path(order_id@));
    }
    path
}

/// The path of the seatmaps of one stored order.
pub open spec fn spec_seatmaps_by_order_path(order_id: Seq<char>) -> Seq<char> {
    "/v1/shopping/seatmaps?flight-orderId="@ + order_id
}

/// Build the path of the seatmaps of one stored order.
pub fn seatmaps_by_order_path(order_id: &str) -> (path: String)
    ensures
        path@ == spec_seatmaps_by_order_path(order_id@),
{
    let mut path = String::from_str("/v1/shopping/seatmaps?flight-orderId=");
    path.append(order_id);
    proof {
        assert(path@ =~= spec_seatmaps_by_order_path(order_id@));
    }
    path
}

} // verus!
