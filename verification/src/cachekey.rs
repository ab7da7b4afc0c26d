//! Cache keys for the cache-aside store.
//!
//! A search's key is a deterministic string built from every request field
//! that affects the result, after an explicit normalization step: an absent
//! return date renders empty, an absent cabin becomes the default label, an
//! absent non-stop flag means no restriction, and an absent result-count
//! hint takes the default. Being a function of those fields, the key is
//! identical for logically identical requests; and for requests whose text
//! fields are free of the separator (airport codes and ISO dates always
//! are), requests differing in any price-affecting field provably get
//! different keys.

use vstd::prelude::*;
use crate::models::FlightSearchRequest;
use crate::text::{
    spec_decimal,
    spec_decimal_signed,
    lemma_decimal_chars_are_digits,
    lemma_decimal_nonempty,
    lemma_decimal_injective,
    u32_to_string,
    i32_to_string,
};

verus! {

/// Cabin label used when the request names none.
pub const DEFAULT_TRAVEL_CLASS: &'static str = "ECONOMY";

/// Result-count hint used in the key when the request names none.
pub const DEFAULT_MAX_RESULTS: i32 = 50;

/// The normalized return date: the one requested, or empty for a one-way
/// search.
pub open spec fn spec_return_of(req: FlightSearchRequest) -> Seq<char> {
    match req.return_date {
        Some(d) => d@,
        None => Seq::empty(),
    }
}

/// The normalized cabin: the one requested, or the default label.
pub open spec fn spec_class_of(req: FlightSearchRequest) -> Seq<char> {
    match req.travel_class {
        Some(c) => c@,
        None => DEFAULT_TRAVEL_CLASS@,
    }
}

/// The normalized non-stop flag: absent means no restriction.
pub open spec fn spec_non_stop_of(req: FlightSearchRequest) -> bool {
    match req.non_stop {
        Some(b) => b,
        None => false,
    }
}

/// The normalized result-count hint.
pub open spec fn spec_max_results_of(req: FlightSearchRequest) -> int {
    match req.max_results {
        Some(m) => m as int,
        None => DEFAULT_MAX_RESULTS as int,
    }
}

/// The rendering of a boolean in the key.
pub open spec fn spec_bool_chars(b: bool) -> Seq<char> {
    if b {
        "true"@
    } else {
        "false"@
    }
}

/// The cache key of a search request: a fixed prefix and the normalized
/// price-affecting fields, separated by colons.
pub open spec fn spec_cache_key(req: FlightSearchRequest) -> Seq<char> {
    "flight_search:"@ + (req.origin@ + (":"@ + spec_key_tail(req, 1)))
}

/// Prefix a string onto a tail.
fn prepend(prefix: &str, tail: String) -> (joined: String)
    ensures
        joined@ == prefix@ + tail@,
{
    let joined = String::from_str(prefix);
    joined.concat(tail.as_str())
}

/// Build the cache key for a search request.
pub fn cache_key(req: &FlightSearchRequest) -> (key: String)
    ensures
        key@ == spec_cache_key(*req),
{
    let max_results = match req.max_results {
        Some(m) => m,
        None => DEFAULT_MAX_RESULTS,
    };
    let tail9 = i32_to_string(max_results);
    let non_stop = match req.non_stop {
        Some(b) => b,
        None => false,
    };
    let tail8 = prepend(if non_stop { "true" } else { "false" }, prepend(":", tail9));
    let tail7 = match &req.travel_class {
        Some(c) => prepend(c.as_str(), prepend(":", tail8)),
        None => prepend(DEFAULT_TRAVEL_CLASS, prepend(":", tail8)),
    };
    let infants = u32_to_string(req.infants);
    let tail6 = prepend(infants.as_str(), prepend(":", tail7));
    let children = u32_to_string(req.children);
    let tail5 = prepend(children.as_str(), prepend(":", tail6));
    let adults = u32_to_string(req.adults);
    let tail4 = prepend(adults.as_str(), prepend(":", tail5));
    let tail3 = match &req.return_date {
        Some(d) => prepend(d.as_str(), prepend(":", tail4)),
        None => prepend(":", tail4),
    };
    proof {
        if req.return_date is None {
            assert(spec_return_of(*req) + (":"@ + tail4@) =~= ":"@ + tail4@);
        }
    }
    let tail2 = prepend(req.departure_date.as_str(), prepend(":", tail3));
    let tail1 = prepend(req.destination.as_str(), prepend(":", tail2));
    let key = prepend("flight_search:", prepend(req.origin.as_str(), prepend(":", tail1)));
    proof {
        assert(tail9@ == spec_key_tail(*req, 9));
        assert(tail8@ == spec_key_tail(*req, 8));
        assert(tail7@ == spec_key_tail(*req, 7));
        assert(tail6@ == spec_key_tail(*req, 6));
        assert(tail5@ == spec_key_tail(*req, 5));
        assert(tail4@ == spec_key_tail(*req, 4));
        assert(tail3@ == spec_key_tail(*req, 3));
        assert(tail2@ == spec_key_tail(*req, 2));
        assert(tail1@ == spec_key_tail(*req, 1));
    }
    key
}

/// Whether a field never holds the key separator.
pub open spec fn spec_field_safe(s: Seq<char>) -> bool {
    forall|i: int| 0 <= i < s.len() ==> #[trigger] s[i] != ':'
}

/// Whether a request's text fields are free of the key separator. Airport
/// codes, ISO dates and cabin labels always are.
pub open spec fn spec_key_safe(req: FlightSearchRequest) -> bool {
    &&& spec_field_safe(req.origin@)
    &&& spec_field_safe(req.destination@)
    &&& spec_field_safe(req.departure_date@)
    &&& spec_field_safe(spec_return_of(req))
    &&& spec_field_safe(spec_class_of(req))
}

/// Splitting at the first separator is unambiguous: when two fields free of
/// the separator are followed by it, equal strings have equal fields and
/// equal remainders.
proof fn lemma_sep_split(a1: Seq<char>, rest1: Seq<char>, a2: Seq<char>, rest2: Seq<char>)
    requires
        spec_field_safe(a1),
        spec_field_safe(a2),
        a1 + (":"@ + rest1) == a2 + (":"@ + rest2),
    ensures
        a1 == a2,
        rest1 == rest2,
{
    reveal_strlit(":");
    let s1 = a1 + (":"@ + rest1);
    let s2 = a2 + (":"@ + rest2);
    if a1.len() < a2.len() {
        assert(s1[a1.len() as int] == (":"@ + rest1)[0]);
        assert(s2[a1.len() as int] == a2[a1.len() as int]);
    } else if a2.len() < a1.len() {
        assert(s2[a2.len() as int] == (":"@ + rest2)[0]);
        assert(s1[a2.len() as int] == a1[a2.len() as int]);
    }
    assert(a1 =~= a2) by {
        assert forall|i: int| 0 <= i < a1.len() implies a1[i] == a2[i] by {
            assert(s1[i] == a1[i]);
            assert(s2[i] == a2[i]);
        }
    }
    assert(s1.len() == s2.len());
    assert(s1.len() == a1.len() + (":"@ + rest1).len());
    assert(s2.len() == a2.len() + (":"@ + rest2).len());
    assert((":"@ + rest1).len() == 1 + rest1.len());
    assert((":"@ + rest2).len() == 1 + rest2.len());
    assert(rest1.len() == rest2.len());
    assert(rest1 =~= rest2) by {
        assert forall|j: int| 0 <= j < rest1.len() implies rest1[j] == rest2[j] by {
            assert(s1[a1.len() + 1 + j] == (":"@ + rest1)[1 + j]);
            assert(s2[a2.len() + 1 + j] == (":"@ + rest2)[1 + j]);
            assert((":"@ + rest1)[1 + j] == rest1[j]);
            assert((":"@ + rest2)[1 + j] == rest2[j]);
        }
    }
}

/// A decimal rendering never holds the separator.
proof fn lemma_decimal_field_safe(n: nat)
    ensures
        spec_field_safe(spec_decimal(n)),
{
    lemma_decimal_chars_are_digits(n);
}

/// A boolean rendering never holds the separator.
proof fn lemma_bool_field_safe(b: bool)
    ensures
        spec_field_safe(spec_bool_chars(b)),
{
    reveal_strlit("true");
    reveal_strlit("false");
    let s = spec_bool_chars(b);
    assert forall|i: int| 0 <= i < s.len() implies s[i] != ':' by {
        if i == 0 {
        } else if i == 1 {
        } else if i == 2 {
        } else if i == 3 {
        } else {
            assert(i == 4);
        }
    }
}

/// The boolean renderings are distinct.
proof fn lemma_bool_chars_injective(b1: bool, b2: bool)
    requires
        spec_bool_chars(b1) == spec_bool_chars(b2),
    ensures
        b1 == b2,
{
    reveal_strlit("true");
    reveal_strlit("false");
    if b1 && !b2 {
        assert("true"@.len() == 4);
        assert("false"@.len() == 5);
    }
    if !b1 && b2 {
        assert("true"@.len() == 4);
        assert("false"@.len() == 5);
    }
}

/// Signed decimal rendering is injective.
proof fn lemma_decimal_signed_injective(a: int, b: int)
    requires
        spec_decimal_signed(a) == spec_decimal_signed(b),
    ensures
        a == b,
{
    if a < 0 && b < 0 {
        let sa = spec_decimal((-a) as nat);
        let sb = spec_decimal((-b) as nat);
        assert((seq!['-'] + sa).len() == (seq!['-'] + sb).len());
        assert(sa.len() == sb.len());
        assert(sa =~= sb) by {
            assert forall|i: int| 0 <= i < sa.len() implies sa[i] == sb[i] by {
                assert((seq!['-'] + sa)[i + 1] == sa[i]);
                assert((seq!['-'] + sb)[i + 1] == sb[i]);
            }
        }
        lemma_decimal_injective((-a) as nat, (-b) as nat);
    } else if a >= 0 && b >= 0 {
        lemma_decimal_injective(a as nat, b as nat);
    } else if a < 0 {
        lemma_decimal_chars_are_digits(b as nat);
        lemma_decimal_nonempty(b as nat);
        assert(spec_decimal_signed(a)[0] == '-');
        assert(spec_decimal_signed(b)[0] == spec_decimal(b as nat)[0]);
    } else {
        lemma_decimal_chars_are_digits(a as nat);
        lemma_decimal_nonempty(a as nat);
        assert(spec_decimal_signed(b)[0] == '-');
        assert(spec_decimal_signed(a)[0] == spec_decimal(a as nat)[0]);
    }
}

/// Law: two requests whose text fields are free of the separator and whose
/// keys are equal agree on every normalized price-affecting field — no two
/// requests differing in such a field collide.
pub proof fn lemma_cache_key_injective(r1: FlightSearchRequest, r2: FlightSearchRequest)
    requires
        spec_key_safe(r1),
        spec_key_safe(r2),
        spec_cache_key(r1) == spec_cache_key(r2),
    ensures
        r1.origin@ == r2.origin@,
        r1.destination@ == r2.destination@,
        r1.departure_date@ == r2.departure_date@,
        spec_return_of(r1) == spec_return_of(r2),
        r1.adults == r2.adults,
        r1.children == r2.children,
        r1.infants == r2.infants,
        spec_class_of(r1) == spec_class_of(r2),
        spec_non_stop_of(r1) == spec_non_stop_of(r2),
        spec_max_results_of(r1) == spec_max_results_of(r2),
{
    reveal_with_fuel(spec_key_tail, 10);
    let t1_1 = spec_key_tail(r1, 1);
    let t2_1 = spec_key_tail(r2, 1);
    lemma_prefix_strip(
        "flight_search:"@,
        r1.origin@ + (":"@ + t1_1),
        r2.origin@ + (":"@ + t2_1),
    );
    lemma_sep_split(r1.origin@, t1_1, r2.origin@, t2_1);
    lemma_sep_split(r1.destination@, spec_key_tail(r1, 2), r2.destination@, spec_key_tail(r2, 2));
    lemma_sep_split(
        r1.departure_date@,
        spec_key_tail(r1, 3),
        r2.departure_date@,
        spec_key_tail(r2, 3),
    );
    lemma_sep_split(spec_return_of(r1), spec_key_tail(r1, 4), spec_return_of(r2), spec_key_tail(
        r2,
        4,
    ));
    lemma_decimal_field_safe(r1.adults as nat);
    lemma_decimal_field_safe(r2.adults as nat);
    lemma_sep_split(
        spec_decimal(r1.adults as nat),
        spec_key_tail(r1, 5),
        spec_decimal(r2.adults as nat),
        spec_key_tail(r2, 5),
    );
    lemma_decimal_injective(r1.adults as nat, r2.adults as nat);
    lemma_decimal_field_safe(r1.children as nat);
    lemma_decimal_field_safe(r2.children as nat);
    lemma_sep_split(
        spec_decimal(r1.children as nat),
        spec_key_tail(r1, 6),
        spec_decimal(r2.children as nat),
        spec_key_tail(r2, 6),
    );
    lemma_decimal_injective(r1.children as nat, r2.children as nat);
    lemma_decimal_field_safe(r1.infants as nat);
    lemma_decimal_field_safe(r2.infants as nat);
    lemma_sep_split(
        spec_decimal(r1.infants as nat),
        spec_key_tail(r1, 7),
        spec_decimal(r2.infants as nat),
        spec_key_tail(r2, 7),
    );
    lemma_decimal_injective(r1.infants as nat, r2.infants as nat);
    lemma_sep_split(spec_class_of(r1), spec_key_tail(r1, 8), spec_class_of(r2), spec_key_tail(
        r2,
        8,
    ));
    lemma_bool_field_safe(spec_non_stop_of(r1));
    lemma_bool_field_safe(spec_non_stop_of(r2));
    lemma_sep_split(
        spec_bool_chars(spec_non_stop_of(r1)),
        spec_key_tail(r1, 9),
        spec_bool_chars(spec_non_stop_of(r2)),
        spec_key_tail(r2, 9),
    );
    lemma_bool_chars_injective(spec_non_stop_of(r1), spec_non_stop_of(r2));
    lemma_decimal_signed_injective(spec_max_results_of(r1), spec_max_results_of(r2));
}

/// The part of the key that follows the `n`-th separator.
pub open spec fn spec_key_tail(req: FlightSearchRequest, n: int) -> Seq<char>
    decreases 10 - n,
{
    if n == 1 {
        req.destination@ + (":"@ + spec_key_tail(req, 2))
    } else if n == 2 {
        req.departure_date@ + (":"@ + spec_key_tail(req, 3))
    } else if n == 3 {
        spec_return_of(req) + (":"@ + spec_key_tail(req, 4))
    } else if n == 4 {
        spec_decimal(req.adults as nat) + (":"@ + spec_key_tail(req, 5))
    } else if n == 5 {
        spec_decimal(req.children as nat) + (":"@ + spec_key_tail(req, 6))
    } else if n == 6 {
        spec_decimal(req.infants as nat) + (":"@ + spec_key_tail(req, 7))
    } else if n == 7 {
        spec_class_of(req) + (":"@ + spec_key_tail(req, 8))
    } else if n == 8 {
        spec_bool_chars(spec_non_stop_of(req)) + (":"@ + spec_key_tail(req, 9))
    } else {
        spec_decimal_signed(spec_max_results_of(req))
    }
}

/// Equal strings with one equal prefix have equal remainders.
proof fn lemma_prefix_strip(p: Seq<char>, x1: Seq<char>, x2: Seq<char>)
    requires
        p + x1 == p + x2,
    ensures
        x1 == x2,
{
    assert((p + x1).len() == (p + x2).len());
    assert((p + x1).len() == p.len() + x1.len());
    assert((p + x2).len() == p.len() + x2.len());
    assert(x1.len() == x2.len());
    assert(x1 =~= x2) by {
        assert forall|i: int| 0 <= i < x1.len() implies x1[i] == x2[i] by {
            assert((p + x1)[p.len() + i] == x1[i]);
            assert((p + x2)[p.len() + i] == x2[i]);
        }
    }
}

} // verus!
