//! Data model for the upstream flight-offer APIs.
//!
//! Plain value types: requests the service accepts, responses the upstream
//! returns, and the pieces they are built from. Fields mirror the upstream
//! JSON schema. Serialization lives outside the library; these types carry
//! the values the orchestration core reasons about.

use vstd::prelude::*;
use std::collections::HashMap;

verus! {

/// Request for flight search.
#[derive(Debug, Clone)]
pub struct FlightSearchRequest {
    pub origin: String,
    pub destination: String,
    pub departure_date: String,
    pub return_date: Option<String>,
    pub adults: u32,
    pub children: u32,
    pub infants: u32,
    pub currency: Option<String>,
    pub travel_class: Option<String>,
    pub non_stop: Option<bool>,
    pub max_price: Option<i32>,
    pub max_results: Option<i32>,
    pub included_airline_codes: Option<Vec<String>>,
    pub excluded_airline_codes: Option<Vec<String>>,
    /// Additional legs for multi-city search.
    pub additional_legs: Option<Vec<FlightLegRequest>>,
}

/// A single leg for multi-city search.
#[derive(Debug, Clone)]
pub struct FlightLegRequest {
    pub origin: String,
    pub destination: String,
    pub departure_date: String,
}

/// Request for batch price matrix search.
#[derive(Debug, Clone)]
pub struct PriceMatrixRequest {
    pub origin: String,
    pub destination: String,
    pub outbound_dates: Vec<String>,
    pub inbound_dates: Vec<String>,
    pub adults: u32,
    pub children: u32,
    pub infants: u32,
    pub currency: Option<String>,
}

/// Response for batch price matrix search.
#[derive(Debug, Clone)]
pub struct PriceMatrixResponse {
    pub prices: Vec<PriceMatrixEntry>,
}

/// A single price entry in the matrix.
#[derive(Debug, Clone)]
pub struct PriceMatrixEntry {
    pub outbound_date: String,
    pub inbound_date: String,
    pub price: Option<String>,
    pub currency: String,
}

/// Departure or arrival endpoint of a segment.
#[derive(Debug, Clone)]
pub struct FlightEndpoint {
    pub iata_code: String,
    pub terminal: Option<String>,
    /// ISO 8601 date-time.
    pub at: String,
}

/// Aircraft information.
#[derive(Debug, Clone)]
pub struct Aircraft {
    pub code: String,
}

/// Operating flight (codeshare).
#[derive(Debug, Clone)]
pub struct OperatingFlight {
    pub carrier_code: Option<String>,
    pub number: Option<String>,
    pub suffix: Option<String>,
}

/// Flight stop information.
#[derive(Debug, Clone)]
pub struct FlightStop {
    pub iata_code: String,
    pub duration: Option<String>,
    pub arrival_at: Option<String>,
    pub departure_at: Option<String>,
    /// Whether the aircraft changes at this stop.
    pub new_aircraft: Option<bool>,
}

/// Price information for an offer.
#[derive(Debug, Clone)]
pub struct Price {
    pub currency: String,
    pub total: String,
    pub base: String,
    pub fees: Vec<Fee>,
    pub grand_total: Option<String>,
    pub taxes: Vec<Tax>,
    pub refundable_taxes: Option<String>,
    pub billing_currency: Option<String>,
}

/// Fee information.
#[derive(Debug, Clone)]
pub struct Fee {
    pub amount: String,
    pub fee_type: String,
}

/// Tax information.
#[derive(Debug, Clone)]
pub struct Tax {
    pub amount: String,
    pub code: String,
}

/// Pricing options.
#[derive(Debug, Clone)]
pub struct PricingOptions {
    pub fare_type: Vec<String>,
    pub included_checked_bags_only: bool,
}

/// Traveler pricing details.
#[derive(Debug, Clone)]
pub struct TravelerPricing {
    pub traveler_id: String,
    pub fare_option: String,
    pub traveler_type: String,
    pub price: TravelerPrice,
    pub fare_details_by_segment: Vec<FareDetailsBySegment>,
}

/// Traveler-specific price.
#[derive(Debug, Clone)]
pub struct TravelerPrice {
    pub currency: String,
    pub total: String,
    pub base: String,
    pub taxes: Vec<Tax>,
    pub refundable_taxes: Option<String>,
}

/// Fare details for a specific segment.
#[derive(Debug, Clone)]
pub struct FareDetailsBySegment {
    pub segment_id: String,
    pub cabin: String,
    pub fare_basis: String,
    pub branded_fare: Option<String>,
    pub branded_fare_label: Option<String>,
    pub booking_class: String,
    pub included_checked_bags: Option<BaggageAllowance>,
    pub amenities: Vec<Amenity>,
    pub is_allotment: bool,
    pub allotment_details: Option<AllotmentDetails>,
    pub slice_dice_indicator: Option<String>,
    /// Additional services (bags, seats) for booking.
    pub additional_services: Option<AdditionalServices>,
}

/// Additional services for booking (bags, seats, and so on).
#[derive(Debug, Clone)]
pub struct AdditionalServices {
    pub chargeable_checked_bags: Option<ChargeableCheckedBags>,
    pub chargeable_seat_number: Option<String>,
}

/// Chargeable checked bags.
#[derive(Debug, Clone)]
pub struct ChargeableCheckedBags {
    pub weight: Option<i32>,
    pub weight_unit: Option<String>,
    pub quantity: Option<i32>,
}

/// Baggage allowance.
#[derive(Debug, Clone)]
pub struct BaggageAllowance {
    pub weight: Option<i32>,
    pub weight_unit: Option<String>,
    pub quantity: Option<i32>,
}

/// Amenity information.
#[derive(Debug, Clone)]
pub struct Amenity {
    pub description: String,
    pub is_chargeable: bool,
    pub amenity_type: Option<String>,
    pub amenity_provider: Option<AmenityProvider>,
}

/// Amenity provider.
#[derive(Debug, Clone)]
pub struct AmenityProvider {
    pub name: Option<String>,
}

/// Allotment details.
#[derive(Debug, Clone)]
pub struct AllotmentDetails {
    pub tour_name: Option<String>,
    pub tour_reference: Option<String>,
}

/// Dictionaries for code lookups.
#[derive(Debug, Clone)]
pub struct Dictionaries {
    pub carriers: HashMap<String, String>,
    pub aircraft: HashMap<String, String>,
    pub currencies: HashMap<String, String>,
    pub locations: HashMap<String, LocationValue>,
    /// Facility code to name mapping.
    pub facilities: HashMap<String, String>,
    /// Seat characteristic code to description.
    pub seat_characteristics: HashMap<String, String>,
}

/// Location dictionary value.
#[derive(Debug, Clone)]
pub struct LocationValue {
    pub city_code: Option<String>,
    pub country_code: Option<String>,
}

/// Included additional services from the pricing API.
#[derive(Debug, Clone)]
pub struct IncludedServices {
    /// Baggage options catalog, keyed by the bag option identifier.
    pub bags: HashMap<String, BagOption>,
}

/// Baggage option from the pricing API.
#[derive(Debug, Clone)]
pub struct BagOption {
    pub quantity: Option<i32>,
    pub weight: Option<i32>,
    pub weight_unit: Option<String>,
    pub name: Option<String>,
    pub price: Option<BagPrice>,
    pub bookable_by_itinerary: bool,
    pub segment_ids: Vec<String>,
    pub traveler_ids: Vec<String>,
}

/// Price for a bag option.
#[derive(Debug, Clone)]
pub struct BagPrice {
    pub amount: String,
    pub currency_code: String,
}

/// Booking requirements reported by the pricing API.
#[derive(Debug, Clone)]
pub struct BookingRequirements {
    pub email_address_required: bool,
    pub mobile_phone_number_required: bool,
    pub traveler_requirements: Vec<TravelerRequirement>,
}

/// Traveler-specific requirements.
#[derive(Debug, Clone)]
pub struct TravelerRequirement {
    pub traveler_id: String,
    pub date_of_birth_required: bool,
    pub gender_required: bool,
    pub document_required: bool,
    pub document_issuance_city_required: bool,
    pub redress_required: bool,
    pub residence_required: bool,
}

/// Form of payment for booking.
#[derive(Debug, Clone)]
pub struct FormOfPayment {
    pub other: Option<OtherPayment>,
    pub credit_card: Option<CreditCard>,
}

/// Other payment method (cash, invoice, and so on).
#[derive(Debug, Clone)]
pub struct OtherPayment {
    pub method: String,
    pub flight_offer_ids: Option<Vec<String>>,
}

/// Credit card payment.
#[derive(Debug, Clone)]
pub struct CreditCard {
    pub brand: String,
    pub bin_number: String,
    pub holder: String,
    pub number: Option<String>,
    pub expiry_date: Option<String>,
    pub security_code: Option<String>,
    pub flight_offer_ids: Option<Vec<String>>,
}

/// Traveler information for booking.
#[derive(Debug, Clone)]
pub struct Traveler {
    pub id: String,
    pub date_of_birth: String,
    pub gender: Option<String>,
    pub name: TravelerName,
    pub contact: Option<TravelerContact>,
    pub documents: Option<Vec<TravelerDocument>>,
    /// Special service requests: wheelchair, meals, and so on.
    pub special_services: Option<SpecialServices>,
    /// Loyalty program information.
    pub loyalty_programs: Option<Vec<LoyaltyProgram>>,
}

/// Special service requests.
#[derive(Debug, Clone)]
pub struct SpecialServices {
    pub requests: Option<Vec<SpecialServiceRequest>>,
}

/// Individual special service request.
#[derive(Debug, Clone)]
pub struct SpecialServiceRequest {
    pub ssr_code: String,
    pub text: Option<String>,
}

/// Loyalty program (frequent flyer).
#[derive(Debug, Clone)]
pub struct LoyaltyProgram {
    pub program_owner: String,
    pub id: String,
}

/// Traveler name.
#[derive(Debug, Clone)]
pub struct TravelerName {
    pub first_name: String,
    pub last_name: String,
    pub middle_name: Option<String>,
    pub second_last_name: Option<String>,
}

/// Traveler contact information.
#[derive(Debug, Clone)]
pub struct TravelerContact {
    pub email_address: Option<String>,
    pub phones: Option<Vec<Phone>>,
    pub company_name: Option<String>,
    pub purpose: Option<String>,
}

/// Phone number.
#[derive(Debug, Clone)]
pub struct Phone {
    pub device_type: String,
    pub country_calling_code: String,
    pub number: String,
}

/// Traveler document (passport, identity card, and so on).
#[derive(Debug, Clone)]
pub struct TravelerDocument {
    pub document_type: String,
    pub birth_place: Option<String>,
    pub issuance_location: Option<String>,
    pub issuance_date: Option<String>,
    pub number: String,
    pub expiry_date: String,
    pub issuance_country: String,
    pub validity_country: Option<String>,
    pub nationality: String,
    pub holder: Option<bool>,
}

/// Remarks for the booking.
#[derive(Debug, Clone)]
pub struct Remarks {
    pub general: Option<Vec<GeneralRemark>>,
}

/// General remark.
#[derive(Debug, Clone)]
pub struct GeneralRemark {
    pub subtype: String,
    pub text: String,
}

/// Ticketing agreement.
#[derive(Debug, Clone)]
pub struct TicketingAgreement {
    pub option: String,
    pub date_time: Option<String>,
}

/// Contact for the booking.
#[derive(Debug, Clone)]
pub struct Contact {
    pub address_ee_name: Option<String>,
    pub company_name: Option<String>,
    pub purpose: String,
    pub phones: Option<Vec<Phone>>,
    pub email_address: Option<String>,
    pub address: Option<Address>,
}

/// Address.
#[derive(Debug, Clone)]
pub struct Address {
    pub lines: Vec<String>,
    pub postal_code: Option<String>,
    pub city_name: String,
    pub country_code: String,
}

/// Associated record (booking-file reference).
#[derive(Debug, Clone)]
pub struct AssociatedRecord {
    pub reference: String,
    pub creation_date: Option<String>,
    pub origin_system_code: String,
    pub flight_offer_id: Option<String>,
}

/// Response from the seatmap display API.
#[derive(Debug, Clone)]
pub struct SeatmapResponse {
    pub data: Vec<SeatmapData>,
    pub dictionaries: Option<Dictionaries>,
}

/// Seatmap data for a flight segment.
#[derive(Debug, Clone)]
pub struct SeatmapData {
    pub data_type: String,
    pub flight_offer_id: Option<String>,
    pub segment_id: Option<String>,
    pub carrier_code: Option<String>,
    pub number: Option<String>,
    pub cabin_class: Option<String>,
    pub aircraft: Option<SeatmapAircraft>,
    pub departure: Option<SeatmapDeparture>,
    pub arrival: Option<SeatmapArrival>,
    pub decks: Vec<Deck>,
    pub available_seats_counters: Vec<AvailableSeatsCounter>,
    pub aircraft_cabin_amenities: Option<AircraftCabinAmenities>,
}

/// Aircraft info for a seatmap.
#[derive(Debug, Clone)]
pub struct SeatmapAircraft {
    pub code: Option<String>,
}

/// Departure info for a seatmap.
#[derive(Debug, Clone)]
pub struct SeatmapDeparture {
    pub iata_code: Option<String>,
    pub at: Option<String>,
}

/// Arrival info for a seatmap.
#[derive(Debug, Clone)]
pub struct SeatmapArrival {
    pub iata_code: Option<String>,
}

/// Deck in the aircraft.
#[derive(Debug, Clone)]
pub struct Deck {
    pub deck_type: Option<String>,
    pub deck_configuration: Option<DeckConfiguration>,
    pub seats: Vec<Seat>,
    pub facilities: Option<Vec<Facility>>,
}

/// Facility in the aircraft, such as a lavatory or galley.
#[derive(Debug, Clone)]
pub struct Facility {
    pub code: Option<String>,
    pub column: Option<String>,
    pub row: Option<String>,
    /// Position relative to seats: FRONT, REAR, or SEAT.
    pub position: Option<String>,
    pub coordinates: Option<FacilityCoordinates>,
}

/// Facility coordinates.
#[derive(Debug, Clone)]
pub struct FacilityCoordinates {
    pub x: Option<i32>,
    pub y: Option<i32>,
}

/// Deck configuration.
#[derive(Debug, Clone)]
pub struct DeckConfiguration {
    pub width: Option<i32>,
    pub length: Option<i32>,
    pub start_seat_row: Option<i32>,
    pub end_seat_row: Option<i32>,
    pub start_wings_row: Option<i32>,
    pub end_wings_row: Option<i32>,
    pub start_wings_x: Option<i32>,
    pub end_wings_x: Option<i32>,
    pub exit_rows_x: Option<Vec<i32>>,
}

/// Seat information.
#[derive(Debug, Clone)]
pub struct Seat {
    pub cabin: Option<String>,
    pub number: String,
    pub characteristics_codes: Option<Vec<String>>,
    pub coordinates: Option<SeatCoordinates>,
    pub traveler_pricing: Option<Vec<SeatTravelerPricing>>,
    pub medias: Option<Vec<Media>>,
    pub amenities: Option<Vec<SeatAmenityDetail>>,
}

/// Seat coordinates.
#[derive(Debug, Clone)]
pub struct SeatCoordinates {
    pub x: Option<i32>,
    pub y: Option<i32>,
}

/// Seat pricing per traveler.
#[derive(Debug, Clone)]
pub struct SeatTravelerPricing {
    pub traveler_id: Option<String>,
    pub seat_availability_status: Option<String>,
    pub price: Option<SeatPrice>,
}

/// Seat price.
#[derive(Debug, Clone)]
pub struct SeatPrice {
    pub currency: Option<String>,
    pub total: Option<String>,
    pub base: Option<String>,
    pub taxes: Option<Vec<Tax>>,
}

/// Available seats counter.
#[derive(Debug, Clone)]
pub struct AvailableSeatsCounter {
    pub traveler_id: Option<String>,
    pub value: Option<i32>,
}

/// Media content.
#[derive(Debug, Clone)]
pub struct Media {
    pub title: Option<String>,
    pub href: Option<String>,
    pub description: Option<QualifiedFreeText>,
    pub media_type: Option<String>,
}

/// Qualified free text.
#[derive(Debug, Clone)]
pub struct QualifiedFreeText {
    pub text: Option<String>,
    pub lang: Option<String>,
}

/// Seat amenity detail.
#[derive(Debug, Clone)]
pub struct SeatAmenityDetail {
    pub is_chargeable: Option<bool>,
    pub amenity_type: Option<String>,
    pub medias: Option<Vec<Media>>,
}

/// Aircraft cabin amenities.
#[derive(Debug, Clone)]
pub struct AircraftCabinAmenities {
    pub power: Option<CabinAmenity>,
    pub wifi: Option<WifiAmenity>,
    pub entertainment: Option<EntertainmentAmenity>,
    pub food: Option<FoodAmenity>,
    pub beverage: Option<BeverageAmenity>,
    pub seat: Option<SeatAmenityInfo>,
}

/// Generic cabin amenity with power info.
#[derive(Debug, Clone)]
pub struct CabinAmenity {
    pub is_chargeable: Option<bool>,
    pub power_type: Option<String>,
    pub usb_type: Option<String>,
}

/// WiFi amenity.
#[derive(Debug, Clone)]
pub struct WifiAmenity {
    pub is_chargeable: Option<bool>,
    pub wifi_coverage: Option<String>,
}

/// Entertainment amenity.
#[derive(Debug, Clone)]
pub struct EntertainmentAmenity {
    pub is_chargeable: Option<bool>,
    pub entertainment_type: Option<String>,
}

/// Food amenity.
#[derive(Debug, Clone)]
pub struct FoodAmenity {
    pub is_chargeable: Option<bool>,
    pub food_type: Option<String>,
}

/// Beverage amenity.
#[derive(Debug, Clone)]
pub struct BeverageAmenity {
    pub is_chargeable: Option<bool>,
    pub beverage_type: Option<String>,
}

/// Seat amenity info.
#[derive(Debug, Clone)]
pub struct SeatAmenityInfo {
    pub is_chargeable: Option<bool>,
    pub seat_tilt: Option<String>,
    pub leg_space: Option<i32>,
    pub space_unit: Option<String>,
}

/// Request for flight availabilities.
#[derive(Debug, Clone)]
pub struct FlightAvailabilityRequest {
    pub origin_destinations: Vec<OriginDestination>,
    pub travelers: Vec<TravelerInfo>,
    pub sources: Vec<String>,
}

/// Origin-destination for availability search.
#[derive(Debug, Clone)]
pub struct OriginDestination {
    pub id: String,
    pub origin_location_code: String,
    pub destination_location_code: String,
    pub departure_date_time_range: DateTimeRange,
}

/// Date-time range.
#[derive(Debug, Clone)]
pub struct DateTimeRange {
    pub date: String,
    pub time: Option<String>,
}

/// Traveler info for availability.
#[derive(Debug, Clone)]
pub struct TravelerInfo {
    pub id: String,
    pub traveler_type: String,
}

/// Availability class (booking class).
#[derive(Debug, Clone)]
pub struct AvailabilityClass {
    pub number_of_bookable_seats: Option<i32>,
    pub segment_class: Option<String>,
    pub closed_status: Option<String>,
}

/// Response from the flight destinations (inspiration) API.
#[derive(Debug, Clone)]
pub struct FlightDestinationsResponse {
    pub data: Vec<FlightDestination>,
    pub dictionaries: Option<Dictionaries>,
}

/// Flight destination (inspiration search result).
#[derive(Debug, Clone)]
pub struct FlightDestination {
    pub data_type: String,
    pub origin: String,
    pub destination: String,
    pub departure_date: Option<String>,
    pub return_date: Option<String>,
    pub price: FlightDestinationPrice,
}

/// Price for a flight destination.
#[derive(Debug, Clone)]
pub struct FlightDestinationPrice {
    pub total: String,
}

/// Response from the flight dates (cheapest date) API.
#[derive(Debug, Clone)]
pub struct FlightDatesResponse {
    pub data: Vec<FlightDate>,
    pub dictionaries: Option<Dictionaries>,
}

/// Flight date (cheapest date search result).
#[derive(Debug, Clone)]
pub struct FlightDate {
    pub data_type: String,
    pub origin: String,
    pub destination: String,
    pub departure_date: String,
    pub return_date: Option<String>,
    pub price: FlightDestinationPrice,
}

/// Response from the itinerary price metrics API.
#[derive(Debug, Clone)]
pub struct ItineraryPriceMetricsResponse {
    pub data: Vec<ItineraryPriceMetric>,
}

/// Itinerary price metric.
#[derive(Debug, Clone)]
pub struct ItineraryPriceMetric {
    pub data_type: String,
    pub origin: PriceMetricLocation,
    pub destination: PriceMetricLocation,
    pub departure_date: String,
    pub transport_type: Option<String>,
    pub currency_code: String,
    pub one_way: Option<bool>,
    pub price_metrics: Vec<PriceMetrics>,
}

/// Location for price metrics.
#[derive(Debug, Clone)]
pub struct PriceMetricLocation {
    pub iata_code: String,
}

/// Price metrics with quartiles.
#[derive(Debug, Clone)]
pub struct PriceMetrics {
    pub amount: String,
    pub quartile_ranking: String,
}

/// Response from the airport direct destinations API.
#[derive(Debug, Clone)]
pub struct DirectDestinationsResponse {
    pub data: Vec<Destination>,
}

/// Destination.
#[derive(Debug, Clone)]
pub struct Destination {
    pub data_type: String,
    pub subtype: Option<String>,
    pub name: Option<String>,
    pub iata_code: Option<String>,
}

/// Response from the airline destinations API.
#[derive(Debug, Clone)]
pub struct AirlineDestinationsResponse {
    pub data: Vec<Destination>,
}

/// Response from the flight status API.
#[derive(Debug, Clone)]
pub struct FlightStatusResponse {
    pub data: Vec<DatedFlight>,
}

/// Dated flight (flight status).
#[derive(Debug, Clone)]
pub struct DatedFlight {
    pub data_type: String,
    pub scheduled_departure_date: Option<String>,
    pub flight_designator: Option<FlightDesignator>,
    pub flight_points: Option<Vec<FlightPoint>>,
    pub segments: Option<Vec<FlightStatusSegment>>,
    pub legs: Option<Vec<FlightLeg>>,
}

/// Flight designator.
#[derive(Debug, Clone)]
pub struct FlightDesignator {
    pub carrier_code: Option<String>,
    pub flight_number: Option<i32>,
    pub operational_suffix: Option<String>,
}

/// Flight point (departure or arrival).
#[derive(Debug, Clone)]
pub struct FlightPoint {
    pub iata_code: Option<String>,
    pub departure: Option<FlightTiming>,
    pub arrival: Option<FlightTiming>,
}

/// Flight timing.
#[derive(Debug, Clone)]
pub struct FlightTiming {
    pub terminal: Option<FlightTerminal>,
    pub gate: Option<FlightGate>,
    pub timings: Option<Vec<TimingDetail>>,
}

/// Flight terminal.
#[derive(Debug, Clone)]
pub struct FlightTerminal {
    pub code: Option<String>,
}

/// Flight gate.
#[derive(Debug, Clone)]
pub struct FlightGate {
    pub main_gate: Option<String>,
}

/// Timing detail.
#[derive(Debug, Clone)]
pub struct TimingDetail {
    pub qualifier: Option<String>,
    pub value: Option<String>,
    pub delays: Option<Vec<DelayInfo>>,
}

/// Delay info.
#[derive(Debug, Clone)]
pub struct DelayInfo {
    pub duration: Option<String>,
}

/// Flight status segment.
#[derive(Debug, Clone)]
pub struct FlightStatusSegment {
    pub board_point_iata_code: Option<String>,
    pub off_point_iata_code: Option<String>,
    pub scheduled_segment_duration: Option<String>,
}

/// Flight leg.
#[derive(Debug, Clone)]
pub struct FlightLeg {
    pub board_point_iata_code: Option<String>,
    pub off_point_iata_code: Option<String>,
    pub scheduled_leg_duration: Option<String>,
    pub aircraft_equipment: Option<AircraftEquipment>,
}

/// Aircraft equipment.
#[derive(Debug, Clone)]
pub struct AircraftEquipment {
    pub aircraft_type: Option<String>,
}

/// Response from the check-in links API.
#[derive(Debug, Clone)]
pub struct CheckinLinksResponse {
    pub data: Vec<CheckinLink>,
}

/// Check-in link.
#[derive(Debug, Clone)]
pub struct CheckinLink {
    pub data_type: String,
    pub id: Option<String>,
    pub href: Option<String>,
    pub channel: Option<String>,
}

/// Location address.
#[derive(Debug, Clone)]
pub struct LocationAddress {
    pub city_name: Option<String>,
    pub city_code: Option<String>,
    pub country_name: Option<String>,
    pub country_code: Option<String>,
    pub region_code: Option<String>,
}

/// Response from the airlines API.
#[derive(Debug, Clone)]
pub struct AirlinesResponse {
    pub data: Vec<Airline>,
}

/// Airline.
#[derive(Debug, Clone)]
pub struct Airline {
    pub data_type: String,
    pub iata_code: Option<String>,
    pub icao_code: Option<String>,
    pub business_name: Option<String>,
    pub common_name: Option<String>,
}

/// Response from the air traffic busiest period API.
#[derive(Debug, Clone)]
pub struct BusiestPeriodResponse {
    pub data: Vec<BusiestPeriod>,
}

/// Busiest period.
#[derive(Debug, Clone)]
pub struct BusiestPeriod {
    pub data_type: String,
    pub period: Option<String>,
    pub analytics: Option<BusiestPeriodAnalytics>,
}

/// Busiest period analytics.
#[derive(Debug, Clone)]
pub struct BusiestPeriodAnalytics {
    pub travelers: Option<TravelersScore>,
}

/// Travelers score.
#[derive(Debug, Clone)]
pub struct TravelersScore {
    pub score: Option<i32>,
}

/// Response from the air traffic booked API.
#[derive(Debug, Clone)]
pub struct AirTrafficBookedResponse {
    pub data: Vec<AirTrafficData>,
}

/// Air traffic data.
#[derive(Debug, Clone)]
pub struct AirTrafficData {
    pub data_type: String,
    pub subtype: Option<String>,
    pub destination: Option<String>,
    pub analytics: Option<AirTrafficAnalytics>,
}

/// Air traffic analytics.
#[derive(Debug, Clone)]
pub struct AirTrafficAnalytics {
    pub flights: Option<FlightsAnalytics>,
    pub travelers: Option<TravelersAnalytics>,
}

/// Flights analytics.
#[derive(Debug, Clone)]
pub struct FlightsAnalytics {
    pub score: Option<i32>,
}

/// Travelers analytics.
#[derive(Debug, Clone)]
pub struct TravelersAnalytics {
    pub score: Option<i32>,
}

/// Category scores for a location.
#[derive(Debug, Clone)]
pub struct CategoryScores {
    pub sight: Option<CategoryScore>,
    pub restaurant: Option<CategoryScore>,
    pub shopping: Option<CategoryScore>,
    pub night_life: Option<CategoryScore>,
}

/// Individual category score.
#[derive(Debug, Clone)]
pub struct CategoryScore {
    pub overall: Option<i32>,
    pub historical: Option<i32>,
    pub beach_and_park: Option<i32>,
}

/// Upstream API error response.
#[derive(Debug, Clone)]
pub struct AmadeusErrorResponse {
    pub errors: Vec<AmadeusError>,
}

/// Individual upstream API error.
#[derive(Debug, Clone)]
pub struct AmadeusError {
    pub status: Option<i32>,
    pub code: Option<i32>,
    pub title: Option<String>,
    pub detail: Option<String>,
    pub source: Option<ErrorSource>,
}

/// Error source information.
#[derive(Debug, Clone)]
pub struct ErrorSource {
    pub parameter: Option<String>,
    pub pointer: Option<String>,
    pub example: Option<String>,
}

} // verus!
