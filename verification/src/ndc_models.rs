//! Data model for the enterprise (NDC) provider interface.
//!
//! Plain value types mirroring the structures of the enterprise API's
//! requests and responses: offers, travelers, payments, orders, seat
//! availability, reshop, fare rules, and errors.

use vstd::prelude::*;

verus! {

/// NDC offer identifier.
#[derive(Debug, Clone)]
pub struct NdcOfferId {
    /// Airline code owning the offer.
    pub owner: String,
    pub offer_id: String,
    pub offer_item_ids: Vec<String>,
}

/// NDC price.
#[derive(Debug, Clone)]
pub struct NdcPrice {
    pub total_amount: String,
    pub base_amount: Option<String>,
    pub tax_amount: Option<String>,
    pub currency_code: String,
}

/// NDC traveler.
#[derive(Debug, Clone)]
pub struct NdcTraveler {
    pub traveler_id: String,
    /// Passenger type code: ADT, CHD, INF.
    pub ptc: String,
    pub given_name: Option<String>,
    pub surname: Option<String>,
    pub birth_date: Option<String>,
    pub gender: Option<String>,
    pub contact: Option<NdcContact>,
    pub documents: Vec<NdcDocument>,
}

/// NDC contact information.
#[derive(Debug, Clone)]
pub struct NdcContact {
    pub email: Option<String>,
    pub phone_number: Option<String>,
    pub phone_country_code: Option<String>,
}

/// NDC travel document.
#[derive(Debug, Clone)]
pub struct NdcDocument {
    pub document_type: String,
    pub document_number: String,
    pub issuing_country: String,
    pub expiry_date: String,
    pub nationality: String,
}

/// NDC offer-price request.
#[derive(Debug, Clone)]
pub struct NdcOfferPriceRequest {
    pub offer: NdcOfferId,
    pub travelers: Vec<NdcTraveler>,
}

/// NDC offer-price response.
#[derive(Debug, Clone)]
pub struct NdcOfferPriceResponse {
    pub priced_offer: Option<NdcPricedOffer>,
    pub errors: Vec<NdcError>,
    pub warnings: Vec<NdcWarning>,
}

/// NDC priced offer.
#[derive(Debug, Clone)]
pub struct NdcPricedOffer {
    pub offer_id: NdcOfferId,
    pub total_price: NdcPrice,
    pub offer_items: Vec<NdcOfferItem>,
}

/// NDC offer item (flight segment plus services).
#[derive(Debug, Clone)]
pub struct NdcOfferItem {
    pub offer_item_id: String,
    pub price: NdcPrice,
    pub services: Vec<NdcService>,
    pub fare_basis: Option<String>,
    pub fare_rules: Option<NdcFareRules>,
}

/// NDC service (ancillary).
#[derive(Debug, Clone)]
pub struct NdcService {
    pub service_id: String,
    pub name: String,
    pub description: Option<String>,
    pub service_code: String,
    pub price: NdcPrice,
    pub included: bool,
    pub media: Vec<NdcMediaLink>,
}

/// NDC media link (rich content).
#[derive(Debug, Clone)]
pub struct NdcMediaLink {
    pub media_type: String,
    pub url: String,
    pub description: Option<String>,
}

/// NDC order-create request.
#[derive(Debug, Clone)]
pub struct NdcOrderCreateRequest {
    pub offer: NdcOfferId,
    pub travelers: Vec<NdcTraveler>,
    pub payment: NdcPayment,
    pub remarks: Vec<String>,
}

/// NDC payment.
#[derive(Debug, Clone)]
pub struct NdcPayment {
    pub payment_type: NdcPaymentType,
    pub amount: NdcPrice,
}

/// NDC payment types.
#[derive(Debug, Clone)]
pub enum NdcPaymentType {
    Cash,
    CreditCard(NdcCreditCard),
    AgencyPayment,
    Other(String),
}

/// NDC credit card.
#[derive(Debug, Clone)]
pub struct NdcCreditCard {
    pub card_code: String,
    pub card_number: String,
    /// Expiry in MMYY form.
    pub expiry_date: String,
    pub cvv: Option<String>,
    pub holder_name: String,
}

/// NDC order-create response.
#[derive(Debug, Clone)]
pub struct NdcOrderCreateResponse {
    pub order_id: String,
    pub booking_references: Vec<NdcBookingReference>,
    pub order_items: Vec<NdcOrderItem>,
    pub total_price: NdcPrice,
    pub errors: Vec<NdcError>,
    pub warnings: Vec<NdcWarning>,
}

/// NDC booking reference.
#[derive(Debug, Clone)]
pub struct NdcBookingReference {
    pub reference_id: String,
    pub reference_type: String,
    pub airline_id: Option<String>,
}

/// NDC order item.
#[derive(Debug, Clone)]
pub struct NdcOrderItem {
    pub order_item_id: String,
    pub flight_refs: Vec<String>,
    pub service_refs: Vec<String>,
    pub price: NdcPrice,
    pub status: NdcOrderItemStatus,
}

/// NDC order item status.
#[derive(Debug, Clone)]
pub enum NdcOrderItemStatus {
    Confirmed,
    Pending,
    Cancelled,
    Waitlisted,
}

/// NDC seat availability request.
#[derive(Debug, Clone)]
pub struct NdcSeatAvailabilityRequest {
    pub offer_id: NdcOfferId,
    pub segment_refs: Vec<String>,
}

/// NDC seat availability response.
#[derive(Debug, Clone)]
pub struct NdcSeatAvailabilityResponse {
    pub cabin_layouts: Vec<NdcCabinLayout>,
    pub errors: Vec<NdcError>,
}

/// NDC cabin layout.
#[derive(Debug, Clone)]
pub struct NdcCabinLayout {
    pub cabin_type: String,
    pub rows: Vec<NdcSeatRow>,
    pub column_headers: Vec<String>,
}

/// NDC seat row.
#[derive(Debug, Clone)]
pub struct NdcSeatRow {
    pub row_number: u32,
    pub seats: Vec<NdcSeat>,
    pub characteristics: Vec<String>,
}

/// NDC seat.
#[derive(Debug, Clone)]
pub struct NdcSeat {
    pub column: String,
    pub available: bool,
    pub price: Option<NdcPrice>,
    pub characteristics: Vec<String>,
    pub traveler_ref: Option<String>,
}

/// NDC order reshop request (check change options).
#[derive(Debug, Clone)]
pub struct NdcOrderReshopRequest {
    pub order_id: String,
    pub reshop_type: NdcReshopType,
    pub new_itinerary: Option<NdcItinerary>,
}

/// NDC reshop type.
#[derive(Debug, Clone)]
pub enum NdcReshopType {
    Cancel,
    Rebook,
    DateChange,
    RouteChange,
}

/// NDC itinerary (for reshop).
#[derive(Debug, Clone)]
pub struct NdcItinerary {
    pub origin_destination: Vec<NdcOriginDestination>,
}

/// NDC origin-destination.
#[derive(Debug, Clone)]
pub struct NdcOriginDestination {
    pub departure: NdcFlightPoint,
    pub arrival: NdcFlightPoint,
    pub marketing_carrier: Option<String>,
    pub flight_number: Option<String>,
}

/// NDC flight point.
#[derive(Debug, Clone)]
pub struct NdcFlightPoint {
    pub airport_code: String,
    pub date: String,
    pub time: Option<String>,
}

/// NDC order reshop response.
#[derive(Debug, Clone)]
pub struct NdcOrderReshopResponse {
    pub reshop_offers: Vec<NdcReshopOffer>,
    pub penalties: Option<NdcPenalties>,
    pub errors: Vec<NdcError>,
}

/// NDC reshop offer.
#[derive(Debug, Clone)]
pub struct NdcReshopOffer {
    pub offer_id: NdcOfferId,
    pub price_difference: NdcPrice,
    pub new_total: NdcPrice,
}

/// NDC penalties.
#[derive(Debug, Clone)]
pub struct NdcPenalties {
    pub change_fee: Option<NdcPrice>,
    pub cancellation_fee: Option<NdcPrice>,
    pub refund_amount: Option<NdcPrice>,
}

/// NDC fare rules.
#[derive(Debug, Clone)]
pub struct NdcFareRules {
    pub rules: Vec<NdcFareRule>,
}

/// NDC fare rule.
#[derive(Debug, Clone)]
pub struct NdcFareRule {
    pub category: String,
    pub text: String,
    pub penalty: Option<NdcPrice>,
}

/// NDC error.
#[derive(Debug, Clone)]
pub struct NdcError {
    pub code: String,
    pub description: String,
    pub owner: Option<String>,
}

/// NDC warning.
#[derive(Debug, Clone)]
pub struct NdcWarning {
    pub code: String,
    pub description: String,
}

} // verus!
