//! Request builders for the upstream search interface.
//!
//! A search request is expanded into explicit, validated builder values
//! before anything is sent: the traveler list (each traveler with a unique
//! sequential identifier, infants attached to adults), the legs to search
//! (outbound, the return leg of a round trip, and any further legs of a
//! multi-city search), and the search criteria (result cap, connection,
//! carrier, cabin and price filters). Serialization of these values is the
//! caller's concern; the builders fix what the document says.

use vstd::prelude::*;
use crate::models::FlightSearchRequest;

verus! {

/// Largest party a request may name, so that traveler identifiers stay
/// small.
pub const MAX_PARTY: u32 = 1000;

/// A traveler's type in the upstream request document.
#[derive(Debug, Clone, Copy, PartialEq, Eq)]
pub enum TravelerKind {
    Adult,
    Child,
    /// An infant on an adult's lap, without a seat; it must name the adult
    /// that carries it.
    HeldInfant,
}

impl TravelerKind {
    /// The type's code in the request document.
    pub fn code(&self) -> (code: &'static str)
        ensures
            code@ == match self {
                TravelerKind::Adult => "ADULT"@,
                TravelerKind::Child => "CHILD"@,
                TravelerKind::HeldInfant => "HELD_INFANT"@,
            },
    {
        match self {
            TravelerKind::Adult => "ADULT",
            TravelerKind::Child => "CHILD",
            TravelerKind::HeldInfant => "HELD_INFANT",
        }
    }
}

/// One traveler of the request document.
#[derive(Debug, Clone, Copy, PartialEq, Eq)]
pub struct TravelerSpec {
    /// Sequential identifier, starting at 1.
    pub id: u32,
    pub kind: TravelerKind,
    /// For a held infant, the identifier of the adult that carries it.
    pub associated_adult_id: Option<u32>,
}

/// A request that cannot be expanded at all; it is rejected before any
/// sub-query starts.
#[derive(Debug, Clone, Copy, PartialEq, Eq)]
pub enum RequestError {
    /// An infant cannot travel without at least one adult to carry it.
    InfantWithoutAdult,
    /// The party exceeds what one request may name.
    PartyTooLarge,
}

/// The traveler at position `i` of the document: the adults first, then the
/// children, then the infants, each infant attached to the adults in
/// rotation.
pub open spec fn spec_traveler_at(adults: u32, children: u32, infants: u32, i: int) -> TravelerSpec {
    if i < adults {
        TravelerSpec { id: (i + 1) as u32, kind: TravelerKind::Adult, associated_adult_id: None }
    } else if i < adults + children {
        TravelerSpec { id: (i + 1) as u32, kind: TravelerKind::Child, associated_adult_id: None }
    } else {
        TravelerSpec {
            id: (i + 1) as u32,
            kind: TravelerKind::HeldInfant,
            associated_adult_id: Some((((i - adults - children) % (adults as int)) + 1) as u32),
        }
    }
}

/// Check that a party can be expanded: infants need at least one adult, and
/// the party must stay within the document's bounds.
pub fn validate_party(adults: u32, children: u32, infants: u32) -> (r: Result<(), RequestError>)
    ensures
        r == if infants > 0 && adults == 0 {
            Err::<(), RequestError>(RequestError::InfantWithoutAdult)
        } else if adults + children + infants > MAX_PARTY {
            Err::<(), RequestError>(RequestError::PartyTooLarge)
        } else {
            Ok::<(), RequestError>(())
        },
{
    if infants > 0 && adults == 0 {
        Err(RequestError::InfantWithoutAdult)
    } else if adults as u64 + children as u64 + infants as u64 > MAX_PARTY as u64 {
        Err(RequestError::PartyTooLarge)
    } else {
        Ok(())
    }
}

/// Build the traveler list: one entry per adult, child and infant, with
/// sequential identifiers starting at 1, and each infant attached to an
/// adult in rotation.
pub fn build_travelers(adults: u32, children: u32, infants: u32) -> (travelers: Vec<TravelerSpec>)
    requires
        infants > 0 ==> adults > 0,
        adults + children + infants <= MAX_PARTY,
    ensures
        travelers@.len() == adults + children + infants,
        forall|i: int|
            0 <= i < travelers@.len() ==> #[trigger] travelers@[i] == spec_traveler_at(
                adults,
                children,
                infants,
                i,
            ),
        forall|i: int|
            0 <= i < travelers@.len() ==> (#[trigger] travelers@[i]).id == i + 1,
{
    let mut travelers: Vec<TravelerSpec> = Vec::new();
    let mut a: u32 = 0;
    while a < adults
        invariant
            a <= adults,
            adults + children + infants <= MAX_PARTY,
            travelers@.len() == a,
            forall|i: int|
                0 <= i < travelers@.len() ==> #[trigger] travelers@[i] == spec_traveler_at(
                    adults,
                    children,
                    infants,
                    i,
                ),
        decreases adults - a,
    {
        travelers.push(
            TravelerSpec { id: a + 1, kind: TravelerKind::Adult, associated_adult_id: None },
        );
        a = a + 1;
    }
    let mut c: u32 = 0;
    while c < children
        invariant
            c <= children,
            adults + children + infants <= MAX_PARTY,
            travelers@.len() == adults + c,
            forall|i: int|
                0 <= i < travelers@.len() ==> #[trigger] travelers@[i] == spec_traveler_at(
                    adults,
                    children,
                    infants,
                    i,
                ),
        decreases children - c,
    {
        travelers.push(
            TravelerSpec {
                id: adults + c + 1,
                kind: TravelerKind::Child,
                associated_adult_id: None,
            },
        );
        c = c + 1;
    }
    let mut n: u32 = 0;
    while n < infants
        invariant
            n <= infants,
            infants > 0 ==> adults > 0,
            adults + children + infants <= MAX_PARTY,
            travelers@.len() == adults + children + n,
            forall|i: int|
                0 <= i < travelers@.len() ==> #[trigger] travelers@[i] == spec_traveler_at(
                    adults,
                    children,
                    infants,
                    i,
                ),
        decreases infants - n,
    {
        let adult_id = (n % adults) + 1;
        travelers.push(
            TravelerSpec {
                id: adults + children + n + 1,
                kind: TravelerKind::HeldInfant,
                associated_adult_id: Some(adult_id),
            },
        );
        n = n + 1;
    }
    travelers
}

/// One leg of the search document, with its sequential identifier.
#[derive(Debug, Clone, PartialEq, Eq)]
pub struct LegSpec {
    pub id: u32,
    pub origin: String,
    pub destination: String,
    pub departure_date: String,
}

/// The legs a search request expands to: the outbound leg; for a round trip
/// without further legs, the return leg with origin and destination
/// swapped; and any further legs of a multi-city search, with sequential
/// identifiers.
pub open spec fn spec_base_legs(req: FlightSearchRequest) -> Seq<LegSpec> {
    let first = LegSpec {
        id: 1,
        origin: req.origin,
        destination: req.destination,
        departure_date: req.departure_date,
    };
    if req.additional_legs is None {
        match req.return_date {
            Some(d) => seq![
                first,
                LegSpec {
                    id: 2,
                    origin: req.destination,
                    destination: req.origin,
                    departure_date: d,
                },
            ],
            None => seq![first],
        }
    } else {
        seq![first]
    }
}

/// The additional legs of a multi-city search, with sequential identifiers.
pub open spec fn spec_extra_legs(req: FlightSearchRequest) -> Seq<LegSpec> {
    match req.additional_legs {
        Some(legs) => Seq::new(
            legs@.len(),
            |i: int|
                LegSpec {
                    id: (2 + i) as u32,
                    origin: legs@[i].origin,
                    destination: legs@[i].destination,
                    departure_date: legs@[i].departure_date,
                },
        ),
        None => Seq::empty(),
    }
}

/// The legs a search request expands to.
pub open spec fn spec_legs_of(req: FlightSearchRequest) -> Seq<LegSpec> {
    spec_base_legs(req) + spec_extra_legs(req)
}

/// Build the legs of the search document.
pub fn build_origin_destinations(req: &FlightSearchRequest) -> (legs: Vec<LegSpec>)
    requires
        req.additional_legs matches Some(l) ==> l@.len() <= 100,
    ensures
        legs@ == spec_legs_of(*req),
{
    let mut legs: Vec<LegSpec> = Vec::new();
    legs.push(
        LegSpec {
            id: 1,
            origin: req.origin.clone(),
            destination: req.destination.clone(),
            departure_date: req.departure_date.clone(),
        },
    );
    if req.additional_legs.is_none() {
        match &req.return_date {
            Some(d) => {
                legs.push(
                    LegSpec {
                        id: 2,
                        origin: req.destination.clone(),
                        destination: req.origin.clone(),
                        departure_date: d.clone(),
                    },
                );
            },
            None => (),
        }
    }
    let ghost base = legs@;
    proof {
        assert(base =~= spec_base_legs(*req));
    }
    match &req.additional_legs {
        Some(extra) => {
            let mut i: usize = 0;
            while i < extra.len()
                invariant
                    i <= extra@.len(),
                    extra@.len() <= 100,
                    legs@.len() == base.len() + i,
                    base == legs@.take(base.len() as int),
                    forall|j: int|
                        0 <= j < i ==> #[trigger] legs@[base.len() + j] == (LegSpec {
                            id: (2 + j) as u32,
                            origin: extra@[j].origin,
                            destination: extra@[j].destination,
                            departure_date: extra@[j].departure_date,
                        }),
                decreases extra@.len() - i,
            {
                legs.push(
                    LegSpec {
                        id: 2 + (i as u32),
                        origin: extra[i].origin.clone(),
                        destination: extra[i].destination.clone(),
                        departure_date: extra[i].departure_date.clone(),
                    },
                );
                proof {
                    assert(legs@.take(base.len() as int) =~= base);
                }
                i = i + 1;
            }
            proof {
                let whole = base + spec_extra_legs(*req);
                assert forall|k: int| 0 <= k < legs@.len() implies legs@[k] == whole[k] by {
                    if k < base.len() {
                        assert(legs@.take(base.len() as int)[k] == legs@[k]);
                    } else {
                        let j = k - base.len();
                        assert(legs@[base.len() + j] == (LegSpec {
                            id: (2 + j) as u32,
                            origin: extra@[j].origin,
                            destination: extra@[j].destination,
                            departure_date: extra@[j].departure_date,
                        }));
                    }
                }
                assert(legs@ =~= whole);
                assert(legs@ =~= spec_legs_of(*req));
            }
        },
        None => {
            proof {
                assert(legs@ =~= base + spec_extra_legs(*req));
                assert(legs@ =~= spec_legs_of(*req));
            }
        },
    }
    legs
}

/// Copy a list of strings element by element.
fn copy_strings(v: &Vec<String>) -> (r: Vec<String>)
    ensures
        r@ == v@,
{
    let mut r: Vec<String> = Vec::new();
    let mut i: usize = 0;
    while i < v.len()
        invariant
            i <= v@.len(),
            r@ == v@.take(i as int),
        decreases v@.len() - i,
    {
        r.push(v[i].clone());
        proof {
            assert(v@.take(i + 1) =~= v@.take(i as int).push(v@[i as int]));
        }
        i = i + 1;
    }
    proof {
        assert(v@.take(v@.len() as int) =~= v@);
    }
    r
}

/// Carrier restriction of a search: include only the named carriers, or
/// exclude the named carriers. An inclusion list wins over an exclusion
/// list when both are given.
#[derive(Debug, Clone, PartialEq, Eq)]
pub enum CarrierFilter {
    Unrestricted,
    IncludeOnly { codes: Vec<String> },
    Exclude { codes: Vec<String> },
}

/// The carrier filter a request asks for: a non-empty inclusion list wins,
/// else a non-empty exclusion list applies, else no restriction.
pub open spec fn spec_carrier_filter(req: FlightSearchRequest) -> CarrierFilter {
    match req.included_airline_codes {
        Some(inc) => if inc@.len() > 0 {
            CarrierFilter::IncludeOnly { codes: inc }
        } else {
            CarrierFilter::Unrestricted
        },
        None => match req.excluded_airline_codes {
            Some(exc) => if exc@.len() > 0 {
                CarrierFilter::Exclude { codes: exc }
            } else {
                CarrierFilter::Unrestricted
            },
            None => CarrierFilter::Unrestricted,
        },
    }
}

/// Build the carrier filter of a request.
pub fn build_carrier_filter(req: &FlightSearchRequest) -> (filter: CarrierFilter)
    ensures
        (filter is Unrestricted) == (spec_carrier_filter(*req) is Unrestricted),
        filter matches CarrierFilter::IncludeOnly { codes } ==> (spec_carrier_filter(*req)
            matches CarrierFilter::IncludeOnly { codes: c } && codes@ == c@),
        filter matches CarrierFilter::Exclude { codes } ==> (spec_carrier_filter(*req)
            matches CarrierFilter::Exclude { codes: c } && codes@ == c@),
{
    match &req.included_airline_codes {
        Some(included) => {
            if included.len() > 0 {
                CarrierFilter::IncludeOnly { codes: copy_strings(included) }
            } else {
                CarrierFilter::Unrestricted
            }
        },
        None => match &req.excluded_airline_codes {
            Some(excluded) => {
                if excluded.len() > 0 {
                    CarrierFilter::Exclude { codes: copy_strings(excluded) }
                } else {
                    CarrierFilter::Unrestricted
                }
            },
            None => CarrierFilter::Unrestricted,
        },
    }
}

/// Result cap used when the request gives no hint: the most the upstream
/// returns for one search.
pub const DEFAULT_SEARCH_MAX_RESULTS: i32 = 250;

/// The result cap of a search document.
pub open spec fn spec_max_offers(req: FlightSearchRequest) -> int {
    match req.max_results {
        Some(m) => m as int,
        None => DEFAULT_SEARCH_MAX_RESULTS as int,
    }
}

/// Build the result cap of a search document.
pub fn build_max_offers(req: &FlightSearchRequest) -> (max_offers: i32)
    ensures
        max_offers == spec_max_offers(*req),
{
    match req.max_results {
        Some(m) => m,
        None => DEFAULT_SEARCH_MAX_RESULTS,
    }
}

/// The identifiers of the legs a cabin restriction covers: the outbound
/// leg, the return leg when a return date is given, and one per additional
/// leg.
pub open spec fn spec_cabin_leg_ids(req: FlightSearchRequest) -> Seq<u32> {
    let with_return: Seq<u32> = if req.return_date is Some {
        seq![1u32, 2u32]
    } else {
        seq![1u32]
    };
    match req.additional_legs {
        Some(legs) => with_return + Seq::new(legs@.len(), |i: int| (2 + i) as u32),
        None => with_return,
    }
}

/// Build the leg identifiers a cabin restriction covers.
pub fn build_cabin_leg_ids(req: &FlightSearchRequest) -> (ids: Vec<u32>)
    requires
        req.additional_legs matches Some(l) ==> l@.len() <= 100,
    ensures
        ids@ == spec_cabin_leg_ids(*req),
{
    let mut ids: Vec<u32> = Vec::new();
    ids.push(1);
    if req.return_date.is_some() {
        ids.push(2);
    }
    let ghost base = ids@;
    match &req.additional_legs {
        Some(legs) => {
            let mut i: usize = 0;
            while i < legs.len()
                invariant
                    i <= legs@.len(),
                    legs@.len() <= 100,
                    ids@.len() == base.len() + i,
                    base == ids@.take(base.len() as int),
                    forall|j: int| 0 <= j < i ==> #[trigger] ids@[base.len() + j] == (2 + j) as u32,
                decreases legs@.len() - i,
            {
                ids.push(2 + (i as u32));
                proof {
                    assert(ids@.take(base.len() as int) =~= base);
                }
                i = i + 1;
            }
            proof {
                if req.return_date is Some {
                    assert(base =~= seq![1u32, 2u32]);
                } else {
                    assert(base =~= seq![1u32]);
                }
                let whole = base + Seq::new(legs@.len(), |i: int| (2 + i) as u32);
                assert forall|k: int| 0 <= k < ids@.len() implies ids@[k] == whole[k] by {
                    if k < base.len() {
                        assert(ids@.take(base.len() as int)[k] == ids@[k]);
                    } else {
                        let j = k - base.len();
                        assert(ids@[base.len() + j] == (2 + j) as u32);
                    }
                }
                assert(ids@ =~= whole);
                assert(ids@ =~= spec_cabin_leg_ids(*req));
            }
        },
        None => {
            proof {
                if req.return_date is Some {
                    assert(base =~= seq![1u32, 2u32]);
                } else {
                    assert(base =~= seq![1u32]);
                }
                assert(ids@ =~= base);
                assert(ids@ =~= spec_cabin_leg_ids(*req));
            }
        },
    }
    ids
}

} // verus!
