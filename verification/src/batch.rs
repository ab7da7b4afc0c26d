//! Batch combination generator.
//!
//! A date-matrix search names outbound candidates and inbound candidates;
//! the generator expands them into one independent sub-query per pair whose
//! inbound date lies strictly after the outbound date, in stable
//! outbound-major, inbound-minor order. Dates are ISO-8601 strings, so the
//! strict lexicographic order used here is calendar order.

use vstd::prelude::*;
use crate::text::{spec_lex_lt, str_lt};

verus! {

/// One outbound/inbound date pair to search as its own sub-query.
#[derive(Debug, Clone, PartialEq, Eq)]
pub struct DateCombination {
    pub outbound: String,
    pub inbound: String,
}

/// The combinations one outbound date forms with the inbound candidates, in
/// their order: those whose inbound date lies strictly after it.
pub open spec fn spec_row_combinations(outbound: String, inbound: Seq<String>) -> Seq<
    DateCombination,
>
    decreases inbound.len(),
{
    if inbound.len() == 0 {
        Seq::empty()
    } else {
        spec_row_combinations(outbound, inbound.drop_last()) + (
        if spec_lex_lt(outbound@, inbound.last()@) {
            seq![DateCombination { outbound, inbound: inbound.last() }]
        } else {
            Seq::empty()
        })
    }
}

/// All valid combinations, outbound-major: the rows of each outbound date in
/// order, each row in inbound order.
pub open spec fn spec_combinations(outbound: Seq<String>, inbound: Seq<String>) -> Seq<
    DateCombination,
>
    decreases outbound.len(),
{
    if outbound.len() == 0 {
        Seq::empty()
    } else {
        spec_combinations(outbound.drop_last(), inbound) + spec_row_combinations(
            outbound.last(),
            inbound,
        )
    }
}

/// Expand the outbound and inbound date candidates into the sub-queries to
/// run: exactly the pairs whose inbound date lies strictly after the
/// outbound date, in outbound-major, inbound-minor order.
pub fn generate_combinations(outbound: &Vec<String>, inbound: &Vec<String>) -> (combos: Vec<
    DateCombination,
>)
    ensures
        combos@ == spec_combinations(outbound@, inbound@),
{
    let mut combos: Vec<DateCombination> = Vec::new();
    let mut i: usize = 0;
    proof {
        assert(outbound@.take(0) =~= Seq::<String>::empty());
    }
    while i < outbound.len()
        invariant
            i <= outbound@.len(),
            combos@ == spec_combinations(outbound@.take(i as int), inbound@),
        decreases outbound@.len() - i,
    {
        let mut j: usize = 0;
        proof {
            assert(inbound@.take(0) =~= Seq::<String>::empty());
        }
        while j < inbound.len()
            invariant
                i < outbound@.len(),
                j <= inbound@.len(),
                combos@ == spec_combinations(outbound@.take(i as int), inbound@)
                    + spec_row_combinations(outbound@[i as int], inbound@.take(j as int)),
            decreases inbound@.len() - j,
        {
            if str_lt(outbound[i].as_str(), inbound[j].as_str()) {
                combos.push(
                    DateCombination { outbound: outbound[i].clone(), inbound: inbound[j].clone() },
                );
            }
            proof {
                assert(inbound@.take(j + 1).drop_last() =~= inbound@.take(j as int));
                assert(inbound@.take(j + 1).last() == inbound@[j as int]);
                assert(combos@ =~= spec_combinations(outbound@.take(i as int), inbound@)
                    + spec_row_combinations(outbound@[i as int], inbound@.take(j + 1)));
            }
            j = j + 1;
        }
        proof {
            assert(inbound@.take(inbound@.len() as int) =~= inbound@);
            assert(outbound@.take(i + 1).drop_last() =~= outbound@.take(i as int));
            assert(outbound@.take(i + 1).last() == outbound@[i as int]);
            assert(combos@ =~= spec_combinations(outbound@.take(i + 1), inbound@));
        }
        i = i + 1;
    }
    proof {
        assert(outbound@.take(outbound@.len() as int) =~= outbound@);
    }
    combos
}

/// Law: every generated combination is a valid pair, with the inbound date
/// strictly after the outbound date; no pair with inbound on or before
/// outbound is ever generated.
pub proof fn lemma_combinations_valid(outbound: Seq<String>, inbound: Seq<String>)
    ensures
        forall|k: int|
            0 <= k < spec_combinations(outbound, inbound).len() ==> spec_lex_lt(
                (#[trigger] spec_combinations(outbound, inbound)[k]).outbound@,
                spec_combinations(outbound, inbound)[k].inbound@,
            ),
    decreases outbound.len(),
{
    if outbound.len() > 0 {
        lemma_combinations_valid(outbound.drop_last(), inbound);
        lemma_row_combinations_valid(outbound.last(), inbound);
        let all = spec_combinations(outbound, inbound);
        let prefix = spec_combinations(outbound.drop_last(), inbound);
        let row = spec_row_combinations(outbound.last(), inbound);
        assert forall|k: int| 0 <= k < all.len() implies spec_lex_lt(
            (#[trigger] all[k]).outbound@,
            all[k].inbound@,
        ) by {
            if k < prefix.len() {
                assert(all[k] == prefix[k]);
            } else {
                assert(all[k] == row[k - prefix.len()]);
            }
        }
    }
}

/// Every combination of one row pairs its outbound date with a strictly
/// later inbound date.
proof fn lemma_row_combinations_valid(outbound: String, inbound: Seq<String>)
    ensures
        forall|k: int|
            0 <= k < spec_row_combinations(outbound, inbound).len() ==> (
            #[trigger] spec_row_combinations(outbound, inbound)[k]).outbound == outbound,
        forall|k: int|
            0 <= k < spec_row_combinations(outbound, inbound).len() ==> spec_lex_lt(
                (#[trigger] spec_row_combinations(outbound, inbound)[k]).outbound@,
                spec_row_combinations(outbound, inbound)[k].inbound@,
            ),
    decreases inbound.len(),
{
    if inbound.len() > 0 {
        lemma_row_combinations_valid(outbound, inbound.drop_last());
        let row = spec_row_combinations(outbound, inbound);
        let prefix = spec_row_combinations(outbound, inbound.drop_last());
        assert forall|k: int| 0 <= k < row.len() implies (#[trigger] row[k]).outbound == outbound
            && spec_lex_lt(row[k].outbound@, row[k].inbound@) by {
            if k < prefix.len() {
                assert(row[k] == prefix[k]);
            } else {
                assert(row[k] == DateCombination { outbound, inbound: inbound.last() });
            }
        }
    }
}

/// Law: the generator is complete: for every outbound candidate and every
/// strictly later inbound candidate, the pair appears among the generated
/// combinations.
pub proof fn lemma_combinations_complete(
    outbound: Seq<String>,
    inbound: Seq<String>,
    io: int,
    ii: int,
)
    requires
        0 <= io < outbound.len(),
        0 <= ii < inbound.len(),
        spec_lex_lt(outbound[io]@, inbound[ii]@),
    ensures
        spec_combinations(outbound, inbound).contains(
            DateCombination { outbound: outbound[io], inbound: inbound[ii] },
        ),
    decreases outbound.len(),
{
    let all = spec_combinations(outbound, inbound);
    if io == outbound.len() - 1 {
        lemma_row_combinations_complete(outbound.last(), inbound, ii);
        let row = spec_row_combinations(outbound.last(), inbound);
        let target = DateCombination { outbound: outbound[io], inbound: inbound[ii] };
        let k = choose|k: int| 0 <= k < row.len() && row[k] == target;
        assert(all[spec_combinations(outbound.drop_last(), inbound).len() + k] == target);
    } else {
        lemma_combinations_complete(outbound.drop_last(), inbound, io, ii);
        let prefix = spec_combinations(outbound.drop_last(), inbound);
        let target = DateCombination {
            outbound: outbound.drop_last()[io],
            inbound: inbound[ii],
        };
        let k = choose|k: int| 0 <= k < prefix.len() && prefix[k] == target;
        assert(all[k] == target);
    }
}

/// A strictly later inbound candidate appears in its outbound date's row.
proof fn lemma_row_combinations_complete(outbound: String, inbound: Seq<String>, ii: int)
    requires
        0 <= ii < inbound.len(),
        spec_lex_lt(outbound@, inbound[ii]@),
    ensures
        spec_row_combinations(outbound, inbound).contains(
            DateCombination { outbound, inbound: inbound[ii] },
        ),
    decreases inbound.len(),
{
    let row = spec_row_combinations(outbound, inbound);
    let target = DateCombination { outbound, inbound: inbound[ii] };
    if ii == inbound.len() - 1 {
        assert(row[row.len() - 1] == target);
    } else {
        lemma_row_combinations_complete(outbound, inbound.drop_last(), ii);
        let prefix = spec_row_combinations(outbound, inbound.drop_last());
        let k = choose|k: int| 0 <= k < prefix.len() && prefix[k] == target;
        assert(row[k] == target);
    }
}

} // verus!
