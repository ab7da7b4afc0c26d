use flight_query::error_codes;
use flight_query::errors::has_error_code;
use flight_query::models::{AmadeusError, AmadeusErrorResponse};
use flight_query::models::{Fee, Price, Tax};
use flight_query::queries::{
    airlines_path, air_traffic_booked_path, flight_dates_path, flight_delay_path,
    flight_destinations_path, flight_order_path, locations_path, pricing_path,
    seatmaps_by_order_path, AirlinesQuery, AirTrafficBookedQuery, FlightDatesQuery,
    FlightDelayQuery, FlightDestinationsQuery, LocationsQuery,
};
use flight_query::requests::{
    build_cabin_leg_ids, build_carrier_filter, build_origin_destinations, build_travelers,
    validate_party, CarrierFilter, RequestError, TravelerKind,
};
use flight_query::models::{FlightLegRequest, FlightSearchRequest};
use flight_query::soap::SoapEnvelope;
use flight_query::soap_actions;

#[test]
fn test_price_structure() {
    let price = Price {
        currency: "EUR".to_string(),
        total: "299.00".to_string(),
        base: "250.00".to_string(),
        fees: vec![Fee { amount: "10.00".to_string(), fee_type: "SUPPLIER".to_string() }],
        taxes: vec![Tax { amount: "39.00".to_string(), code: "MX".to_string() }],
        grand_total: Some("299.00".to_string()),
        refundable_taxes: None,
        billing_currency: None,
    };

    // Parse amounts
    let base: f64 = price.base.parse().unwrap();
    let total: f64 = price.total.parse().unwrap();
    let grand_total: f64 = price.grand_total.unwrap().parse().unwrap();

    assert_eq!(base, 250.0);
    assert_eq!(total, 299.0);
    assert_eq!(grand_total, 299.0);
    assert_eq!(price.fees.len(), 1);
    assert_eq!(price.taxes.len(), 1);
}

#[test]
fn test_error_codes() {
    assert_eq!(error_codes::INVALID_FORMAT, 477);
    assert_eq!(error_codes::RESOURCE_NOT_FOUND, 1797);
    assert_eq!(error_codes::UNAUTHORIZED, 38190);
    assert_eq!(error_codes::RATE_LIMIT_EXCEEDED, 38194);
}

fn round_trip_request() -> FlightSearchRequest {
    FlightSearchRequest {
        origin: "FRA".to_string(),
        destination: "LHR".to_string(),
        departure_date: "2024-06-15".to_string(),
        return_date: Some("2024-06-22".to_string()),
        adults: 2,
        children: 1,
        infants: 1,
        currency: Some("EUR".to_string()),
        travel_class: None,
        non_stop: None,
        max_price: None,
        max_results: None,
        included_airline_codes: None,
        excluded_airline_codes: None,
        additional_legs: None,
    }
}

#[test]
fn travelers_get_sequential_ids_and_infants_get_adults() {
    let travelers = build_travelers(2, 1, 1);
    assert_eq!(travelers.len(), 4);
    for (i, t) in travelers.iter().enumerate() {
        assert_eq!(t.id as usize, i + 1);
    }
    assert_eq!(travelers[0].kind, TravelerKind::Adult);
    assert_eq!(travelers[1].kind, TravelerKind::Adult);
    assert_eq!(travelers[2].kind, TravelerKind::Child);
    assert_eq!(travelers[3].kind, TravelerKind::HeldInfant);
    assert_eq!(travelers[3].associated_adult_id, Some(1));
    assert_eq!(travelers[0].kind.code(), "ADULT");
    assert_eq!(travelers[3].kind.code(), "HELD_INFANT");
}

#[test]
fn infants_rotate_over_the_adults() {
    let travelers = build_travelers(2, 0, 3);
    assert_eq!(travelers.len(), 5);
    assert_eq!(travelers[2].associated_adult_id, Some(1));
    assert_eq!(travelers[3].associated_adult_id, Some(2));
    assert_eq!(travelers[4].associated_adult_id, Some(1));
}

#[test]
fn infants_need_an_adult() {
    assert_eq!(validate_party(0, 0, 1), Err(RequestError::InfantWithoutAdult));
    assert_eq!(validate_party(1, 0, 1), Ok(()));
    assert_eq!(validate_party(600, 600, 0), Err(RequestError::PartyTooLarge));
}

#[test]
fn round_trip_gets_a_return_leg() {
    let legs = build_origin_destinations(&round_trip_request());
    assert_eq!(legs.len(), 2);
    assert_eq!(legs[0].id, 1);
    assert_eq!(legs[0].origin, "FRA");
    assert_eq!(legs[0].destination, "LHR");
    assert_eq!(legs[0].departure_date, "2024-06-15");
    assert_eq!(legs[1].id, 2);
    assert_eq!(legs[1].origin, "LHR");
    assert_eq!(legs[1].destination, "FRA");
    assert_eq!(legs[1].departure_date, "2024-06-22");
}

#[test]
fn multi_city_legs_follow_the_outbound() {
    let mut req = round_trip_request();
    req.additional_legs = Some(vec![FlightLegRequest {
        origin: "LHR".to_string(),
        destination: "JFK".to_string(),
        departure_date: "2024-06-25".to_string(),
    }]);
    let legs = build_origin_destinations(&req);
    // With additional legs, no automatic return leg is added.
    assert_eq!(legs.len(), 2);
    assert_eq!(legs[1].id, 2);
    assert_eq!(legs[1].origin, "LHR");
    assert_eq!(legs[1].destination, "JFK");
}

#[test]
fn inclusion_list_wins_over_exclusion_list() {
    let mut req = round_trip_request();
    req.included_airline_codes = Some(vec!["LH".to_string()]);
    req.excluded_airline_codes = Some(vec!["FR".to_string()]);
    match build_carrier_filter(&req) {
        CarrierFilter::IncludeOnly { codes } => assert_eq!(codes, vec!["LH".to_string()]),
        other => panic!("expected an inclusion filter, got {:?}", other),
    }
    req.included_airline_codes = None;
    match build_carrier_filter(&req) {
        CarrierFilter::Exclude { codes } => assert_eq!(codes, vec!["FR".to_string()]),
        other => panic!("expected an exclusion filter, got {:?}", other),
    }
    req.excluded_airline_codes = Some(Vec::new());
    assert_eq!(build_carrier_filter(&req), CarrierFilter::Unrestricted);
}

#[test]
fn cabin_restriction_covers_all_legs() {
    let ids = build_cabin_leg_ids(&round_trip_request());
    assert_eq!(ids, vec![1, 2]);
    let mut one_way = round_trip_request();
    one_way.return_date = None;
    assert_eq!(build_cabin_leg_ids(&one_way), vec![1]);
}

#[test]
fn lookup_paths_carry_their_parameters() {
    let destinations = flight_destinations_path(&FlightDestinationsQuery {
        origin: "FRA".to_string(),
        max_price: Some(200),
    });
    assert_eq!(destinations, "/v1/shopping/flight-destinations?origin=FRA&maxPrice=200");
    let dates = flight_dates_path(&FlightDatesQuery {
        origin: "FRA".to_string(),
        destination: "LHR".to_string(),
    });
    assert_eq!(dates, "/v1/shopping/flight-dates?origin=FRA&destination=LHR");
    let airlines = airlines_path(&AirlinesQuery { airline_codes: None });
    assert_eq!(airlines, "/v1/reference-data/airlines");
    let booked = air_traffic_booked_path(&AirTrafficBookedQuery {
        origin_city_code: "MAD".to_string(),
        period: "2024-01".to_string(),
        max: None,
    });
    assert_eq!(booked, "/v1/travel/analytics/air-traffic/booked?originCityCode=MAD&period=2024-01");
}

#[test]
fn delay_prediction_path_names_every_parameter() {
    let path = flight_delay_path(&FlightDelayQuery {
        origin: "FRA".to_string(),
        destination: "LHR".to_string(),
        departure_date: "2024-06-15".to_string(),
        departure_time: "10:00:00".to_string(),
        arrival_date: "2024-06-15".to_string(),
        arrival_time: "11:30:00".to_string(),
        aircraft_code: "320".to_string(),
        carrier_code: "LH".to_string(),
        flight_number: "900".to_string(),
        duration: "PT1H30M".to_string(),
    });
    assert_eq!(
        path,
        "/v1/travel/predictions/flight-delay?originLocationCode=FRA&destinationLocationCode=LHR\
         &departureDate=2024-06-15&departureTime=10:00:00&arrivalDate=2024-06-15\
         &arrivalTime=11:30:00&aircraftCode=320&carrierCode=LH&flightNumber=900&duration=PT1H30M"
    );
}

#[test]
fn location_search_percent_encodes_the_keyword() {
    let path = locations_path(&LocationsQuery {
        keyword: "New York".to_string(),
        sub_type: None,
        page_limit: Some(5),
    });
    assert_eq!(
        path,
        "/v1/reference-data/locations?keyword=New%20York&subType=AIRPORT,CITY\
         &view=FULL&sort=analytics.travelers.score&page[limit]=5"
    );
}

#[test]
fn pricing_and_order_paths() {
    assert_eq!(pricing_path(false), "/v1/shopping/flight-offers/pricing");
    assert_eq!(pricing_path(true), "/v1/shopping/flight-offers/pricing?include=bags");
    assert_eq!(flight_order_path("ABC123"), "/v1/booking/flight-orders/ABC123");
    assert_eq!(
        seatmaps_by_order_path("ABC123"),
        "/v1/shopping/seatmaps?flight-orderId=ABC123"
    );
}

#[test]
fn stateless_envelope_has_no_session_header() {
    let envelope = SoapEnvelope::new_stateless(
        soap_actions::FARE_MASTER_PRICER,
        "<Fare_MasterPricerTravelBoardSearch/>",
    );
    assert_eq!(envelope.message_id.len(), 36);
    let xml = envelope.to_xml();
    assert!(xml.starts_with("<?xml version=\"1.0\" encoding=\"UTF-8\"?>"));
    assert!(xml.contains("<Fare_MasterPricerTravelBoardSearch/>"));
    assert!(!xml.contains("<awsse:Session "));
    assert!(xml.ends_with("</soap:Envelope>"));
}

#[test]
fn session_envelope_carries_the_session() {
    let envelope = SoapEnvelope::new_with_session(
        soap_actions::PNR_RETRIEVE,
        "<PNR_Retrieve/>",
        "SESSION-1",
        7,
        "TOKEN-1",
    );
    let xml = envelope.to_xml();
    assert!(xml.contains("<awsse:SessionId>SESSION-1</awsse:SessionId>"));
    assert!(xml.contains("<awsse:SequenceNumber>7</awsse:SequenceNumber>"));
    assert!(xml.contains("<awsse:SecurityToken>TOKEN-1</awsse:SecurityToken>"));
    assert!(xml.contains("<PNR_Retrieve/>"));
}

#[test]
fn error_reports_are_searched_by_code() {
    let report = AmadeusErrorResponse {
        errors: vec![
            AmadeusError {
                status: Some(400),
                code: Some(error_codes::UNABLE_TO_PROCESS),
                title: None,
                detail: None,
                source: None,
            },
            AmadeusError {
                status: Some(400),
                code: Some(error_codes::SEGMENT_SELL_FAILURE),
                title: None,
                detail: None,
                source: None,
            },
        ],
    };
    assert!(has_error_code(&report, error_codes::SEGMENT_SELL_FAILURE));
    assert!(!has_error_code(&report, error_codes::UNAUTHORIZED));
    assert!(!has_error_code(&AmadeusErrorResponse { errors: Vec::new() }, 1));
}
