//! SOAP action headers of the enterprise interface's operations.

use vstd::prelude::*;

verus! {

pub const SECURITY_AUTHENTICATE: &'static str = "http://webservices.amadeus.com/VLSSLQ_06_1_1A";

pub const AIR_MULTI_AVAILABILITY: &'static str = "http://webservices.amadeus.com/SATRQT_07_1_1A";

pub const FARE_MASTER_PRICER: &'static str = "http://webservices.amadeus.com/FMPTBQ_24_2_1A";

pub const FARE_PRICE_PNR_WITH_BOOKING_CLASS: &'static str =
    "http://webservices.amadeus.com/TPCBRQ_23_1_1A";

pub const PNR_ADD_MULTI_ELEMENTS: &'static str = "http://webservices.amadeus.com/PNRADD_21_1_1A";

pub const PNR_RETRIEVE: &'static str = "http://webservices.amadeus.com/PNRRET_21_1_1A";

pub const TRAVEL_ORDER_CREATE: &'static str = "http://webservices.amadeus.com/TTORDR_17_1_1A";

pub const TRAVEL_OFFER_PRICE: &'static str = "http://webservices.amadeus.com/TOFFPR_17_1_1A";

pub const TRAVEL_SERVICE_LIST: &'static str = "http://webservices.amadeus.com/TSRVLT_17_1_1A";

pub const TRAVEL_SEAT_AVAILABILITY: &'static str = "http://webservices.amadeus.com/TSEATV_17_1_1A";

pub const TRAVEL_ORDER_PAY: &'static str = "http://webservices.amadeus.com/TORDPY_17_1_1A";

pub const TRAVEL_ORDER_CANCEL: &'static str = "http://webservices.amadeus.com/TORDCL_17_1_1A";

pub const TRAVEL_ORDER_RESHOP: &'static str = "http://webservices.amadeus.com/TORDRS_17_1_1A";

pub const TRAVEL_ORDER_CHANGE: &'static str = "http://webservices.amadeus.com/TORDCH_17_1_1A";

} // verus!
