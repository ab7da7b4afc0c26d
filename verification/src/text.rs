//! Verified text helpers: decimal rendering of integers, lexicographic
//! comparison, and substring search.
//!
//! Cache keys, traveler identifiers and request documents are built from
//! numbers rendered in decimal; date ordering compares the ISO-8601 date
//! strings lexicographically; the upstream's business-error codes are found
//! by substring search in error bodies.

use vstd::prelude::*;

verus! {

/// The decimal digit character for one digit value.
pub open spec fn spec_digit_char(d: int) -> char {
    if d == 0 {
        '0'
    } else if d == 1 {
        '1'
    } else if d == 2 {
        '2'
    } else if d == 3 {
        '3'
    } else if d == 4 {
        '4'
    } else if d == 5 {
        '5'
    } else if d == 6 {
        '6'
    } else if d == 7 {
        '7'
    } else if d == 8 {
        '8'
    } else {
        '9'
    }
}

/// Decimal rendering of a natural number, most significant digit first,
/// without leading zeros (zero itself renders as one digit).
pub open spec fn spec_decimal(n: nat) -> Seq<char>
    decreases n,
{
    if n < 10 {
        seq![spec_digit_char(n as int)]
    } else {
        spec_decimal(n / 10).push(spec_digit_char((n % 10) as int))
    }
}

/// One-character string for a digit value.
fn digit_str(d: u64) -> (s: &'static str)
    requires
        d < 10,
    ensures
        s@ == seq![spec_digit_char(d as int)],
{
    proof {
        reveal_strlit("0");
        reveal_strlit("1");
        reveal_strlit("2");
        reveal_strlit("3");
        reveal_strlit("4");
        reveal_strlit("5");
        reveal_strlit("6");
        reveal_strlit("7");
        reveal_strlit("8");
        reveal_strlit("9");
    }
    if d == 0 {
        "0"
    } else if d == 1 {
        "1"
    } else if d == 2 {
        "2"
    } else if d == 3 {
        "3"
    } else if d == 4 {
        "4"
    } else if d == 5 {
        "5"
    } else if d == 6 {
        "6"
    } else if d == 7 {
        "7"
    } else if d == 8 {
        "8"
    } else {
        "9"
    }
}

/// Render a number in decimal.
pub fn u64_to_string(n: u64) -> (s: String)
    ensures
        s@ == spec_decimal(n as nat),
    decreases n,
{
    if n < 10 {
        String::from_str(digit_str(n))
    } else {
        let prefix = u64_to_string(n / 10);
        prefix.concat(digit_str(n % 10))
    }
}

/// Render a number in decimal.
pub fn u32_to_string(n: u32) -> (s: String)
    ensures
        s@ == spec_decimal(n as nat),
{
    u64_to_string(n as u64)
}

/// Decimal rendering of a signed number: a minus sign before the digits of
/// the magnitude when the number is negative.
pub open spec fn spec_decimal_signed(n: int) -> Seq<char> {
    if n < 0 {
        seq!['-'] + spec_decimal((-n) as nat)
    } else {
        spec_decimal(n as nat)
    }
}

/// Render a signed number in decimal.
pub fn i32_to_string(n: i32) -> (s: String)
    ensures
        s@ == spec_decimal_signed(n as int),
{
    proof {
        reveal_strlit("-");
    }
    if n < 0 {
        let magnitude: u64 = if n == i32::MIN {
            0x8000_0000u64
        } else {
            (-n) as u64
        };
        let sign = String::from_str("-");
        let digits = u64_to_string(magnitude);
        sign.concat(digits.as_str())
    } else {
        u64_to_string(n as u64)
    }
}

/// Every character of a decimal rendering is a digit.
pub proof fn lemma_decimal_chars_are_digits(n: nat)
    ensures
        forall|i: int|
            0 <= i < spec_decimal(n).len() ==> '0' <= #[trigger] spec_decimal(n)[i] <= '9',
    decreases n,
{
    if n < 10 {
        assert(spec_decimal(n)[0] == spec_digit_char(n as int));
    } else {
        lemma_decimal_chars_are_digits(n / 10);
        let whole = spec_decimal(n);
        let prefix = spec_decimal(n / 10);
        assert forall|i: int| 0 <= i < whole.len() implies '0' <= #[trigger] whole[i] <= '9' by {
            if i < prefix.len() {
                assert(whole[i] == prefix[i]);
            } else {
                assert(whole[i] == spec_digit_char((n % 10) as int));
            }
        }
    }
}

/// A decimal rendering is never empty.
pub proof fn lemma_decimal_nonempty(n: nat)
    ensures
        spec_decimal(n).len() >= 1,
    decreases n,
{
    if n >= 10 {
        lemma_decimal_nonempty(n / 10);
    }
}

/// The numeric value of a digit sequence, most significant digit first.
pub open spec fn spec_digits_value(s: Seq<char>) -> int
    decreases s.len(),
{
    if s.len() == 0 {
        0
    } else {
        spec_digits_value(s.drop_last()) * 10 + (s.last() as int - '0' as int)
    }
}

/// Reading back a decimal rendering gives the number rendered.
pub proof fn lemma_decimal_value(n: nat)
    ensures
        spec_digits_value(spec_decimal(n)) == n,
    decreases n,
{
    let s = spec_decimal(n);
    if n < 10 {
        assert(s.drop_last() =~= Seq::<char>::empty());
        assert(spec_digits_value(s.drop_last()) == 0);
        assert(s.last() == spec_digit_char(n as int));
        assert(spec_digit_char(n as int) as int - '0' as int == n);
        assert(spec_digits_value(s) == spec_digits_value(s.drop_last()) * 10 + (s.last() as int
            - '0' as int));
    } else {
        lemma_decimal_value(n / 10);
        assert(s.drop_last() =~= spec_decimal(n / 10));
        assert(spec_digits_value(s.drop_last()) == n / 10);
        assert(s.last() == spec_digit_char((n % 10) as int));
        assert(spec_digit_char((n % 10) as int) as int - '0' as int == n % 10);
        assert(spec_digits_value(s) == spec_digits_value(s.drop_last()) * 10 + (s.last() as int
            - '0' as int));
        vstd::arithmetic::div_mod::lemma_fundamental_div_mod(n as int, 10);
    }
}

/// Decimal rendering is injective: distinct numbers render as distinct
/// digit strings.
pub proof fn lemma_decimal_injective(a: nat, b: nat)
    requires
        spec_decimal(a) == spec_decimal(b),
    ensures
        a == b,
{
    lemma_decimal_value(a);
    lemma_decimal_value(b);
}

/// Strict lexicographic order on character sequences: the usual dictionary
/// order, character by character, with a proper prefix ordered first.
pub open spec fn spec_lex_lt(a: Seq<char>, b: Seq<char>) -> bool
    decreases a.len(),
{
    if b.len() == 0 {
        false
    } else if a.len() == 0 {
        true
    } else if a[0] != b[0] {
        a[0] < b[0]
    } else {
        spec_lex_lt(a.skip(1), b.skip(1))
    }
}

/// Compare two strings in lexicographic order of their characters. For
/// ISO-8601 dates this is calendar order.
pub fn str_lt(a: &str, b: &str) -> (r: bool)
    ensures
        r == spec_lex_lt(a@, b@),
{
    let a_len = a.unicode_len();
    let b_len = b.unicode_len();
    let mut i: usize = 0;
    proof {
        assert(a@.skip(0) =~= a@);
        assert(b@.skip(0) =~= b@);
    }
    loop
        invariant
            i <= a_len,
            i <= b_len,
            a_len == a@.len(),
            b_len == b@.len(),
            forall|j: int| 0 <= j < i ==> a@[j] == b@[j],
            spec_lex_lt(a@, b@) == spec_lex_lt(a@.skip(i as int), b@.skip(i as int)),
        decreases a_len - i,
    {
        if i == a_len {
            return b_len > i;
        }
        if i == b_len {
            return false;
        }
        let ca = a.get_char(i);
        let cb = b.get_char(i);
        if ca != cb {
            assert(a@.skip(i as int)[0] == a@[i as int]);
            assert(b@.skip(i as int)[0] == b@[i as int]);
            return ca < cb;
        }
        proof {
            assert(a@.skip(i as int)[0] == a@[i as int]);
            assert(b@.skip(i as int)[0] == b@[i as int]);
            assert(a@.skip(i as int).skip(1) =~= a@.skip(i + 1));
            assert(b@.skip(i as int).skip(1) =~= b@.skip(i + 1));
        }
        i = i + 1;
    }
}

/// The needle occurs in the haystack: some window of the haystack's
/// characters equals the needle.
pub open spec fn spec_contains_seq(haystack: Seq<char>, needle: Seq<char>) -> bool {
    exists|i: int|
        0 <= i <= haystack.len() - needle.len() && #[trigger] haystack.subrange(
            i,
            i + needle.len(),
        ) == needle
}

/// Whether the needle's characters occur contiguously in the haystack.
pub fn str_contains(haystack: &str, needle: &str) -> (r: bool)
    ensures
        r == spec_contains_seq(haystack@, needle@),
{
    let h_len = haystack.unicode_len();
    let n_len = needle.unicode_len();
    if n_len > h_len {
        return false;
    }
    if n_len == 0 {
        proof {
            assert(haystack@.subrange(0, 0 + needle@.len() as int) =~= needle@);
            assert(spec_contains_seq(haystack@, needle@));
        }
        return true;
    }
    let mut i: usize = 0;
    while i <= h_len - n_len
        invariant
            1 <= n_len <= h_len,
            h_len == haystack@.len(),
            n_len == needle@.len(),
            i <= h_len - n_len + 1,
            forall|j: int|
                0 <= j < i ==> #[trigger] haystack@.subrange(j, j + needle@.len()) != needle@,
        decreases h_len + 1 - n_len - i,
    {
        let mut k: usize = 0;
        let mut matched = true;
        while k < n_len
            invariant_except_break
                matched,
            invariant
                i + n_len <= h_len,
                h_len == haystack@.len(),
                n_len == needle@.len(),
                k <= n_len,
                forall|m: int| 0 <= m < k ==> haystack@[i + m] == needle@[m],
            ensures
                matched ==> k == n_len,
                matched ==> forall|m: int| 0 <= m < k ==> haystack@[i + m] == needle@[m],
                !matched ==> haystack@.subrange(i as int, i + needle@.len()) != needle@,
            decreases n_len - k,
        {
            if haystack.get_char(i + k) != needle.get_char(k) {
                assert(haystack@.subrange(i as int, i + needle@.len())[k as int]
                    == haystack@[i + k]);
                matched = false;
                break;
            }
            k = k + 1;
        }
        if matched {
            assert(haystack@.subrange(i as int, i + needle@.len()) =~= needle@);
            return true;
        }
        i = i + 1;
    }
    false
}

} // verus!
