use vstd::arithmetic::div_mod::lemma_fundamental_div_mod;
use vstd::arithmetic::mul::lemma_mul_inequality;
use vstd::prelude::*;
use vstd::relations::injective_on;
use vstd::set_lib::{lemma_int_range, lemma_len_subset, lemma_map_size, set_int_range};
use vstd::string::StringExecFns;

use crate::model::{dec_digits, digit_char, is_digit_char, is_scratch_code};

verus! {

/// The `k`-th power of ten.
pub(crate) open spec fn pow10(k: nat) -> nat
    decreases k,
{
    if k == 0 {
        1
    } else {
        10 * pow10((k - 1) as nat)
    }
}

/// The one-character string for decimal digit `d`.
fn digit_str(d: u64) -> (r: &'static str)
    requires
        d < 10,
    ensures
        r@.len() == 1,
        r@[0] == digit_char(d as int),
{
    proof {
        reveal_strlit("0");
        reveal_strlit("1");
        reveal_strlit("2");
        reveal_strlit("3");
        reveal_strlit("4");
        reveal_strlit("5");
        reveal_strlit("6");
        reveal_strlit("7");
        reveal_strlit("8");
        reveal_strlit("9");
    }
    if d == 0 { "0" }
    else if d == 1 { "1" }
    else if d == 2 { "2" }
    else if d == 3 { "3" }
    else if d == 4 { "4" }
    else if d == 5 { "5" }
    else if d == 6 { "6" }
    else if d == 7 { "7" }
    else if d == 8 { "8" }
    else { "9" }
}

/// The `k` low-order decimal digits of `n` as a string, most significant
/// first, zero-padded to width `k`.
pub(crate) fn format_digits(n: u64, k: usize) -> (r: String)
    ensures
        r@ == dec_digits(n as nat, k as nat),
    decreases k,
{
    if k == 0 {
        String::new()
    } else {
        let mut s = format_digits(n / 10, k - 1);
        s.append(digit_str(n % 10));
        proof {
            assert(s@ =~= dec_digits(n as nat, k as nat));
        }
        s
    }
}

/// A width-`k` digit string has exactly `k` characters, all decimal digits.
pub(crate) proof fn lemma_dec_digits_shape(n: nat, k: nat)
    ensures
        dec_digits(n, k).len() == k,
        forall|j: int| 0 <= j < k ==> is_digit_char(#[trigger] dec_digits(n, k)[j]),
    decreases k,
{
    if k > 0 {
        lemma_dec_digits_shape(n / 10, (k - 1) as nat);
    }
}

/// An eight-digit string has the shape of a scratch code.
pub(crate) proof fn lemma_dec_digits_scratch(n: nat)
    ensures
        is_scratch_code(dec_digits(n, 8)),
{
    lemma_dec_digits_shape(n, 8);
}

/// Distinct digits have distinct characters.
proof fn lemma_digit_char_injective(a: int, b: int)
    requires
        0 <= a < 10,
        0 <= b < 10,
        digit_char(a) == digit_char(b),
    ensures
        a == b,
{
}

/// Two numbers below `10^k` with the same width-`k` digit string are equal.
pub(crate) proof fn lemma_dec_digits_injective(a: nat, b: nat, k: nat)
    requires
        a < pow10(k),
        b < pow10(k),
        dec_digits(a, k) == dec_digits(b, k),
    ensures
        a == b,
    decreases k,
{
    if k > 0 {
        let k1 = (k - 1) as nat;
        lemma_dec_digits_shape(a / 10, k1);
        lemma_dec_digits_shape(b / 10, k1);
        let sa = dec_digits(a / 10, k1);
        let sb = dec_digits(b / 10, k1);
        assert(sa.push(digit_char((a % 10) as int))[k1 as int] == digit_char((a % 10) as int));
        assert(sb.push(digit_char((b % 10) as int))[k1 as int] == digit_char((b % 10) as int));
        lemma_digit_char_injective((a % 10) as int, (b % 10) as int);
        assert(sa =~= sb) by {
            assert forall|i: int| 0 <= i < k1 implies sa[i] == sb[i] by {
                assert(sa.push(digit_char((a % 10) as int))[i] == sa[i]);
                assert(sb.push(digit_char((b % 10) as int))[i] == sb[i]);
            }
        }
        assert(a / 10 < pow10(k1)) by {
            lemma_fundamental_div_mod(a as int, 10);
            if a / 10 >= pow10(k1) {
                lemma_mul_inequality(pow10(k1) as int, (a / 10) as int, 10);
            }
        }
        assert(b / 10 < pow10(k1)) by {
            lemma_fundamental_div_mod(b as int, 10);
            if b / 10 >= pow10(k1) {
                lemma_mul_inequality(pow10(k1) as int, (b / 10) as int, 10);
            }
        }
        lemma_dec_digits_injective(a / 10, b / 10, k1);
        lemma_fundamental_div_mod(a as int, 10);
        lemma_fundamental_div_mod(b as int, 10);
    }
}

/// There are `10^8` eight-digit strings, so any collection of fewer codes
/// leaves at least one of the candidates `0 ..= codes.len()` unused.
pub(crate) proof fn lemma_free_code_exists(codes: Seq<Seq<char>>)
    requires
        codes.len() < 100000000,
    ensures
        exists|c: u64| c <= codes.len() && !codes.contains(dec_digits(c as nat, 8)),
{
    broadcast use vstd::seq_lib::seq_to_set_is_finite;

    if !(exists|c: u64| c <= codes.len() && !codes.contains(dec_digits(c as nat, 8))) {
        let l = codes.len() as int;
        let cand = set_int_range(0, l + 1);
        lemma_int_range(0, l + 1);
        let f = (|c: int| dec_digits(c as nat, 8));
        assert(injective_on(f, cand)) by {
            assert forall|x: int, y: int|
                cand.contains(x) && cand.contains(y) && #[trigger] f(x) == #[trigger] f(y)
            implies x == y by {
                assert(pow10(8) == 100000000) by {
                    reveal_with_fuel(pow10, 9);
                }
                lemma_dec_digits_injective(x as nat, y as nat, 8);
            }
        }
        let image = cand.map(f);
        lemma_map_size(cand, image, f);
        assert(image.subset_of(codes.to_set())) by {
            assert forall|e: Seq<char>| image.contains(e) implies codes.to_set().contains(e) by {
                let c = choose|c: int| cand.contains(c) && f(c) == e;
                assert(codes.contains(dec_digits((c as u64) as nat, 8)));
            }
        }
        codes.lemma_cardinality_of_set();
        lemma_len_subset(image, codes.to_set());
        assert(false);
    }
}

} // verus!
