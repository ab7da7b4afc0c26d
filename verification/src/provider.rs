//! Provider combinator: merges results from a primary and an optional
//! secondary data source.
//!
//! The primary source is always queried. A configured secondary source is
//! queried as well; its failure is never surfaced — the primary's results
//! stand alone. When both succeed their item lists are concatenated and
//! sorted ascending by total price, where a price that does not parse as a
//! decimal amount orders last (treated as infinite, never a crash). When
//! only the secondary succeeds its results are returned; when both fail the
//! primary's error propagates.

use vstd::prelude::*;
use vstd::relations::sorted_by;
use vstd::multiset::Multiset;
use vstd::seq_lib::lemma_multiset_commutative;
use crate::errors::ApiError;
use crate::text::spec_digits_value;

verus! {

/// Content source identifier.
#[derive(Debug, Clone, Copy, PartialEq, Eq)]
pub enum ContentSource {
    /// Content from the self-service (primary) interface.
    Gds,
    /// Content from the enterprise (secondary) interface.
    Ndc,
    /// Combined content from both.
    Combined,
}

/// The content source a combined provider reports: combined when a
/// secondary source is configured, the primary's otherwise.
pub fn combined_content_source(has_secondary: bool) -> (source: ContentSource)
    ensures
        source == if has_secondary {
            ContentSource::Combined
        } else {
            ContentSource::Gds
        },
{
    if has_secondary {
        ContentSource::Combined
    } else {
        ContentSource::Gds
    }
}

/// Ancillary services response.
#[derive(Debug, Clone)]
pub struct AncillaryServicesResponse {
    pub services: Vec<AncillaryService>,
}

/// Single ancillary service.
#[derive(Debug, Clone)]
pub struct AncillaryService {
    pub id: String,
    pub service_type: AncillaryServiceType,
    pub name: String,
    pub description: Option<String>,
    pub price: ServicePrice,
    pub included: bool,
}

/// Ancillary service types.
#[derive(Debug, Clone, Copy, PartialEq, Eq)]
pub enum AncillaryServiceType {
    Baggage,
    Seat,
    Meal,
    WiFi,
    Lounge,
    PriorityBoarding,
    Insurance,
    CarbonOffset,
    Other,
}

/// Service price.
#[derive(Debug, Clone)]
pub struct ServicePrice {
    pub amount: String,
    pub currency: String,
}

/// Results of one source while the combinator merges them: where they came
/// from, the items found, and whether the source succeeded.
#[derive(Debug, Clone)]
pub struct ProviderResult<T> {
    pub source_tag: String,
    pub items: Vec<T>,
    pub succeeded: bool,
}

/// An item tagged with its sort key: the total price in cents, with
/// `u64::MAX` standing for a price that did not parse (sorted last).
#[derive(Debug, Clone, PartialEq, Eq)]
pub struct PricedItem<T> {
    pub key: u64,
    pub item: T,
}

/// Ten to the `n`-th power.
pub open spec fn spec_pow10(n: nat) -> int
    decreases n,
{
    if n == 0 {
        1
    } else {
        10 * spec_pow10((n - 1) as nat)
    }
}

/// A digit string's value is bounded by ten to its length.
proof fn lemma_digits_value_bound(s: Seq<char>)
    requires
        forall|i: int| 0 <= i < s.len() ==> '0' <= #[trigger] s[i] <= '9',
    ensures
        0 <= spec_digits_value(s) < spec_pow10(s.len()),
    decreases s.len(),
{
    if s.len() > 0 {
        lemma_digits_value_bound(s.drop_last());
    }
}

/// The index of the first decimal point, or the length when there is none.
pub open spec fn spec_find_dot(s: Seq<char>) -> int
    decreases s.len(),
{
    if s.len() == 0 {
        0
    } else if s[0] == '.' {
        0
    } else {
        1 + spec_find_dot(s.skip(1))
    }
}

/// `spec_find_dot` names the first decimal point: nothing before it is one,
/// and it is one unless the string has none.
proof fn lemma_find_dot(s: Seq<char>)
    ensures
        0 <= spec_find_dot(s) <= s.len(),
        spec_find_dot(s) < s.len() ==> s[spec_find_dot(s)] == '.',
        forall|j: int| 0 <= j < spec_find_dot(s) ==> s[j] != '.',
    decreases s.len(),
{
    if s.len() > 0 && s[0] != '.' {
        lemma_find_dot(s.skip(1));
        assert forall|j: int| 0 <= j < spec_find_dot(s) implies s[j] != '.' by {
            if j > 0 {
                assert(s.skip(1)[j - 1] == s[j]);
            }
        }
        if spec_find_dot(s) < s.len() {
            assert(s.skip(1)[spec_find_dot(s) - 1] == s[spec_find_dot(s)]);
        }
    }
}

/// Every string has one first decimal point: a position before which none
/// occurs, and which is one or the end, is `spec_find_dot`.
proof fn lemma_find_dot_unique(s: Seq<char>, d: int)
    requires
        0 <= d <= s.len(),
        d < s.len() ==> s[d] == '.',
        forall|j: int| 0 <= j < d ==> s[j] != '.',
    ensures
        d == spec_find_dot(s),
    decreases s.len(),
{
    lemma_find_dot(s);
    if d < spec_find_dot(s) {
        assert(s[d] == '.');
    } else if spec_find_dot(s) < d {
        assert(s[spec_find_dot(s)] == '.');
    }
}

/// Whether every character is a decimal digit.
pub open spec fn spec_all_digits(s: Seq<char>) -> bool {
    forall|i: int| 0 <= i < s.len() ==> '0' <= #[trigger] s[i] <= '9'
}

/// The most integer digits a parsable price may have. With two cents digits
/// the value then always fits the sort key's range.
pub const MAX_PRICE_DIGITS: usize = 16;

/// A total price parsed to cents: an integer part of one to sixteen digits,
/// optionally a decimal point with up to two fraction digits. Anything else
/// (signs, exponents, further points, other characters, the empty string)
/// does not parse.
pub open spec fn spec_price_cents(s: Seq<char>) -> Option<int> {
    let d = spec_find_dot(s);
    let whole = s.take(d);
    let frac = if d < s.len() {
        s.skip(d + 1)
    } else {
        Seq::<char>::empty()
    };
    if 1 <= whole.len() <= MAX_PRICE_DIGITS && spec_all_digits(whole) && frac.len() <= 2
        && spec_all_digits(frac) {
        Some(
            spec_digits_value(whole) * 100 + spec_digits_value(frac) * (if frac.len() == 1 {
                10int
            } else {
                1int
            }),
        )
    } else {
        None
    }
}

/// Parse a digit string of at most `MAX_PRICE_DIGITS` digits.
fn parse_digits(s: &str) -> (r: Option<u64>)
    ensures
        match r {
            Some(v) => s@.len() >= 1 && s@.len() <= MAX_PRICE_DIGITS && spec_all_digits(s@) && v
                == spec_digits_value(s@),
            None => !(1 <= s@.len() <= MAX_PRICE_DIGITS && spec_all_digits(s@)),
        },
{
    let len = s.unicode_len();
    if len < 1 || len > MAX_PRICE_DIGITS {
        return None;
    }
    let mut value: u64 = 0;
    let mut i: usize = 0;
    proof {
        assert(s@.take(0) =~= Seq::<char>::empty());
    }
    while i < len
        invariant
            i <= len,
            len == s@.len(),
            len <= MAX_PRICE_DIGITS,
            forall|j: int| 0 <= j < i ==> '0' <= #[trigger] s@[j] <= '9',
            value == spec_digits_value(s@.take(i as int)),
            value < spec_pow10(i as nat),
        decreases len - i,
    {
        let c = s.get_char(i);
        if c < '0' || c > '9' {
            return None;
        }
        let digit = (c as u32 - 48) as u64;
        proof {
            lemma_digits_value_bound(s@.take(i as int));
            lemma_pow10_increases(i as nat, MAX_PRICE_DIGITS as nat);
            reveal_with_fuel(spec_pow10, 17);
            assert(spec_pow10(16) == 0x2386f26fc10000);
            assert(s@.take(i + 1).drop_last() =~= s@.take(i as int));
            assert(s@.take(i + 1).last() == s@[i as int]);
        }
        value = value * 10 + digit;
        i = i + 1;
    }
    proof {
        assert(s@.take(len as int) =~= s@);
    }
    Some(value)
}

/// Powers of ten grow with the exponent.
proof fn lemma_pow10_increases(a: nat, b: nat)
    requires
        a <= b,
    ensures
        spec_pow10(a) <= spec_pow10(b),
    decreases b,
{
    if a < b {
        lemma_pow10_increases(a, (b - 1) as nat);
        lemma_pow10_positive((b - 1) as nat);
    }
}

/// Powers of ten are positive.
proof fn lemma_pow10_positive(n: nat)
    ensures
        spec_pow10(n) >= 1,
    decreases n,
{
    if n > 0 {
        lemma_pow10_positive((n - 1) as nat);
    }
}

/// Parse a total price to cents, or report that it does not parse.
pub fn price_cents(s: &str) -> (r: Option<u64>)
    ensures
        match r {
            Some(v) => spec_price_cents(s@) == Some(v as int),
            None => spec_price_cents(s@) is None,
        },
{
    let len = s.unicode_len();
    let mut dot: usize = len;
    let mut i: usize = 0;
    while i < len
        invariant_except_break
            dot == len,
        invariant
            i <= len,
            len == s@.len(),
            forall|j: int| 0 <= j < i ==> s@[j] != '.',
        ensures
            dot <= len,
            dot < len ==> s@[dot as int] == '.',
            forall|j: int| 0 <= j < dot ==> s@[j] != '.',
        decreases len - i,
    {
        if s.get_char(i) == '.' {
            dot = i;
            break;
        }
        i = i + 1;
    }
    proof {
        lemma_find_dot_unique(s@, dot as int);
    }
    let whole = s.substring_char(0, dot);
    proof {
        assert(whole@ =~= s@.take(dot as int));
    }
    let whole_value = match parse_digits(whole) {
        Some(v) => v,
        None => {
            return None;
        },
    };
    let frac_value: u64;
    let frac_scale: u64;
    if dot < len {
        let frac = s.substring_char(dot + 1, len);
        proof {
            assert(frac@ =~= s@.skip(dot + 1));
        }
        let frac_len = len - dot - 1;
        if frac_len > 2 {
            return None;
        }
        if frac_len == 0 {
            frac_value = 0;
            frac_scale = 1;
            proof {
                assert(spec_digits_value(frac@) == 0);
            }
        } else {
            frac_value = match parse_digits(frac) {
                Some(v) => v,
                None => {
                    return None;
                },
            };
            frac_scale = if frac_len == 1 {
                10
            } else {
                1
            };
            proof {
                lemma_digits_value_bound(frac@);
            }
        }
    } else {
        frac_value = 0;
        frac_scale = 1;
        proof {
            assert(spec_digits_value(Seq::<char>::empty()) == 0);
        }
    }
    proof {
        lemma_digits_value_bound(s@.take(spec_find_dot(s@)));
        reveal_with_fuel(spec_pow10, 17);
            assert(spec_pow10(16) == 0x2386f26fc10000);
    }
    Some(whole_value * 100 + frac_value * frac_scale)
}

/// The sort key for a total price: its value in cents, or `u64::MAX` when
/// it does not parse, so that unpriced items order last.
pub open spec fn spec_price_key(s: Seq<char>) -> u64 {
    match spec_price_cents(s) {
        Some(v) => v as u64,
        None => u64::MAX,
    }
}

/// Compute the sort key for a total price.
pub fn price_key(s: &str) -> (key: u64)
    ensures
        key == spec_price_key(s@),
{
    proof {
        if spec_price_cents(s@) matches Some(v) {
            lemma_digits_value_bound(s@.take(spec_find_dot(s@)));
            lemma_pow10_increases(s@.take(spec_find_dot(s@)).len() as nat, 16);
            reveal_with_fuel(spec_pow10, 17);
            assert(spec_pow10(16) == 0x2386f26fc10000);
        }
    }
    match price_cents(s) {
        Some(v) => v,
        None => u64::MAX,
    }
}

/// Ascending order on the price key.
pub open spec fn spec_key_leq<T>() -> spec_fn(PricedItem<T>, PricedItem<T>) -> bool {
    |a: PricedItem<T>, b: PricedItem<T>| a.key <= b.key
}

/// Sort items ascending by price key, keeping exactly the same items
/// (compared as a multiset: duplicates included).
pub fn sort_by_price<T>(items: Vec<PricedItem<T>>) -> (sorted: Vec<PricedItem<T>>)
    ensures
        sorted_by(sorted@, spec_key_leq::<T>()),
        sorted@.to_multiset() == items@.to_multiset(),
{
    broadcast use vstd::seq_lib::group_to_multiset_ensures;

    let mut items = items;
    let ghost all = items@;
    let mut sorted: Vec<PricedItem<T>> = Vec::new();
    let total = items.len();
    let mut i: usize = 0;
    proof {
        assert(all.take(0) =~= Seq::<PricedItem<T>>::empty());
        assert(Seq::<PricedItem<T>>::empty().to_multiset() =~= all.take(
            0,
        ).to_multiset());
    }
    while items.len() > 0
        invariant
            total == all.len(),
            i <= all.len(),
            i + items@.len() == all.len(),
            items@ == all.skip(i as int),
            sorted_by(sorted@, spec_key_leq::<T>()),
            sorted@.to_multiset() == all.take(i as int).to_multiset(),
            sorted@.len() == i,
        decreases items@.len(),
    {
        proof {
            assert(items@[0] == all[i as int]);
            assert(items@.remove(0) =~= all.skip(i + 1));
        }
        let x = items.remove(0);
        let mut p: usize = 0;
        while p < sorted.len() && sorted[p].key <= x.key
            invariant
                p <= sorted@.len(),
                forall|j: int| 0 <= j < p ==> (#[trigger] sorted@[j]).key <= x.key,
            decreases sorted@.len() - p,
        {
            p = p + 1;
        }
        let ghost before = sorted@;
        sorted.insert(p, x);
        proof {
            assert(sorted@ =~= before.take(p as int) + seq![x] + before.skip(p as int));
            lemma_insert_preserves_sorted(before, x, p as int);
            lemma_multiset_commutative(before.take(p as int) + seq![x], before.skip(p as int));
            lemma_multiset_commutative(before.take(p as int), seq![x]);
            assert(seq![x].to_multiset() =~= Multiset::<PricedItem<T>>::empty().insert(x)) by {
                let empty_items = Seq::<PricedItem<T>>::empty();
                empty_items.to_multiset_ensures();
                assert(empty_items.push(x) =~= seq![x]);
                assert forall|a: PricedItem<T>| empty_items.to_multiset().count(a) == 0 by {
                    assert(!empty_items.contains(a));
                }
                assert(empty_items.to_multiset() =~= Multiset::<PricedItem<T>>::empty());
            }
            lemma_multiset_commutative(before.take(p as int), before.skip(p as int));
            assert(before.take(p as int) + before.skip(p as int) =~= before);
            assert(sorted@.to_multiset() =~= before.to_multiset().insert(x));
            assert(all.take(i + 1) =~= all.take(i as int).push(x));
            all.take(i as int).to_multiset_ensures();
            assert(all.take(i as int).push(x).to_multiset() =~= all.take(
                i as int,
            ).to_multiset().insert(x));
            assert(sorted@.to_multiset() =~= all.take(i + 1).to_multiset());
        }
        i = i + 1;
    }
    proof {
        assert(all.take(all.len() as int) =~= all);
    }
    sorted
}

/// Inserting at the first position whose key exceeds the new item's keeps
/// the sequence sorted.
proof fn lemma_insert_preserves_sorted<T>(s: Seq<PricedItem<T>>, x: PricedItem<T>, p: int)
    requires
        0 <= p <= s.len(),
        sorted_by(s, spec_key_leq::<T>()),
        forall|j: int| 0 <= j < p ==> (#[trigger] s[j]).key <= x.key,
        p < s.len() ==> s[p].key > x.key,
    ensures
        sorted_by(s.take(p) + seq![x] + s.skip(p), spec_key_leq::<T>()),
{
    let merged = s.take(p) + seq![x] + s.skip(p);
    assert forall|k1: int, k2: int| 0 <= k1 < k2 < merged.len() implies spec_key_leq::<T>()(
        merged[k1],
        merged[k2],
    ) by {
        let v1 = if k1 < p {
            s[k1]
        } else if k1 == p {
            x
        } else {
            s[k1 - 1]
        };
        let v2 = if k2 < p {
            s[k2]
        } else if k2 == p {
            x
        } else {
            s[k2 - 1]
        };
        assert(merged[k1] == v1);
        assert(merged[k2] == v2);
        if k1 < p && k2 > p {
            assert(spec_key_leq::<T>()(s[k1], s[k2 - 1]));
        }
        if k1 == p && k2 > p {
            assert(spec_key_leq::<T>()(s[p], s[k2 - 1]));
        }
    }
}

/// Merge the two sources' results per the fallback policy: both succeed —
/// concatenate and sort by price; secondary fails or is absent — primary's
/// results unchanged; only secondary succeeds — its results; both fail —
/// the primary's error.
pub fn combine_results<T>(
    primary: Result<Vec<PricedItem<T>>, ApiError>,
    secondary: Option<Result<Vec<PricedItem<T>>, ApiError>>,
) -> (merged: Result<Vec<PricedItem<T>>, ApiError>)
    ensures
        match (primary, secondary) {
            (Ok(p), Some(Ok(s))) => {
                &&& merged matches Ok(m)
                &&& sorted_by(m@, spec_key_leq::<T>())
                &&& m@.to_multiset() == (p@ + s@).to_multiset()
            },
            (Ok(p), Some(Err(_))) => merged == Ok::<Vec<PricedItem<T>>, ApiError>(p),
            (Ok(p), None) => merged == Ok::<Vec<PricedItem<T>>, ApiError>(p),
            (Err(_), Some(Ok(s))) => merged == Ok::<Vec<PricedItem<T>>, ApiError>(s),
            (Err(e), Some(Err(_))) => merged == Err::<Vec<PricedItem<T>>, ApiError>(e),
            (Err(e), None) => merged == Err::<Vec<PricedItem<T>>, ApiError>(e),
        },
{
    match (primary, secondary) {
        (Ok(p), Some(Ok(s))) => {
            let mut all = p;
            let ghost p_view = all@;
            let mut s = s;
            let ghost s_view = s@;
            let s_total = s.len();
            let mut k: usize = 0;
            while s.len() > 0
                invariant
                    s_total == s_view.len(),
                    k + s@.len() == s_view.len(),
                    k <= s_view.len(),
                    s@ == s_view.skip(k as int),
                    all@ == p_view + s_view.take(k as int),
                decreases s@.len(),
            {
                proof {
                    assert(s@[0] == s_view[k as int]);
                    assert(s@.remove(0) =~= s_view.skip(k + 1));
                    assert(s_view.take(k + 1) =~= s_view.take(k as int).push(s_view[k as int]));
                    assert((p_view + s_view.take(k as int)).push(s_view[k as int]) =~= p_view
                        + s_view.take(k + 1));
                }
                let item = s.remove(0);
                all.push(item);
                k = k + 1;
            }
            proof {
                assert(s_view.take(s_view.len() as int) =~= s_view);
            }
            Ok(sort_by_price(all))
        },
        (Ok(p), Some(Err(_))) => Ok(p),
        (Ok(p), None) => Ok(p),
        (Err(_), Some(Ok(s))) => Ok(s),
        (Err(e), Some(Err(_))) => Err(e),
        (Err(e), None) => Err(e),
    }
}

} // verus!
