//! Validation of decimal asset amounts.

use crate::text::chars_of;
use crate::tx_error::{TxError, TxErrorView};
use vstd::prelude::*;
use vstd::string::*;

verus! {

/// An ASCII digit.
pub open spec fn is_ascii_digit(c: char) -> bool {
    '0' <= c && c <= '9'
}

/// Every character of `s` is an ASCII digit.
pub open spec fn all_digits(s: Seq<char>) -> bool {
    forall|i: int| 0 <= i < s.len() ==> #[trigger] is_ascii_digit(s[i])
}

/// `s` is written as a decimal number: one or more digits, optionally followed by a
/// `.` and one to seven digits (Stellar amounts have seven decimal places).
pub open spec fn is_decimal_amount(s: Seq<char>) -> bool {
    ||| (s.len() > 0 && all_digits(s))
    ||| exists|k: int|
        0 < k < s.len() && #[trigger] s[k] == '.' && all_digits(s.take(k)) && all_digits(
            s.skip(k + 1),
        ) && 1 <= s.len() - k - 1 <= 7
}

/// Every character of `s` is a `0` or a `.`: a well-formed amount of value zero.
pub open spec fn is_zero_amount(s: Seq<char>) -> bool {
    forall|i: int| 0 <= i < s.len() ==> #[trigger] s[i] == '0' || s[i] == '.'
}

/// What [`validate_amount`] answers for a text.
pub open spec fn amount_outcome(s: Seq<char>) -> Result<(), TxErrorView> {
    if !is_decimal_amount(s) {
        Err(TxErrorView::Rejected("invalid amount: `"@ + s + "`"@))
    } else if is_zero_amount(s) {
        Err(TxErrorView::Rejected("amount must be greater than zero: `"@ + s + "`"@))
    } else {
        Ok(())
    }
}

fn digits_between(chars: &Vec<char>, lo: usize, hi: usize) -> (b: bool)
    requires
        lo <= hi <= chars@.len(),
    ensures
        b == all_digits(chars@.subrange(lo as int, hi as int)),
{
    let mut i = lo;
    while i < hi
        invariant
            lo <= i <= hi <= chars@.len(),
            forall|j: int| lo <= j < i ==> #[trigger] is_ascii_digit(chars@[j]),
        decreases hi - i,
    {
        if !('0' <= chars[i] && chars[i] <= '9') {
            assert(!is_ascii_digit(chars@.subrange(lo as int, hi as int)[i - lo]));
            return false;
        }
        i = i + 1;
    }
    assert forall|j: int| 0 <= j < hi - lo implies #[trigger] is_ascii_digit(
        chars@.subrange(lo as int, hi as int)[j],
    ) by {
        assert(is_ascii_digit(chars@[lo + j]));
    }
    true
}

fn zeros_and_dots(chars: &Vec<char>) -> (b: bool)
    ensures
        b == is_zero_amount(chars@),
{
    let mut i: usize = 0;
    while i < chars.len()
        invariant
            i <= chars@.len(),
            forall|j: int| 0 <= j < i ==> #[trigger] chars@[j] == '0' || chars@[j] == '.',
        decreases chars.len() - i,
    {
        if chars[i] != '0' && chars[i] != '.' {
            return false;
        }
        i = i + 1;
    }
    true
}

/// A `.` at `k2` with only digits before it is the first `.` of `s`.
proof fn lemma_first_dot(s: Seq<char>, k: int, k2: int)
    requires
        0 <= k < s.len(),
        0 <= k2 < s.len(),
        s[k] == '.',
        s[k2] == '.',
        forall|j: int| 0 <= j < k ==> s[j] != '.',
        all_digits(s.take(k2)),
    ensures
        k2 == k,
{
    if k2 > k {
        assert(is_ascii_digit(s.take(k2)[k]));
    }
}

fn invalid_amount(amount: &str, zero: bool) -> (e: TxError)
    ensures
        zero ==> e@ == TxErrorView::Rejected("amount must be greater than zero: `"@ + amount@ + "`"@),
        !zero ==> e@ == TxErrorView::Rejected("invalid amount: `"@ + amount@ + "`"@),
{
    let mut reason = if zero {
        String::from_str("amount must be greater than zero: `")
    } else {
        String::from_str("invalid amount: `")
    };
    reason.append(amount);
    reason.append("`");
    TxError::Rejected(reason)
}

/// Validates that `amount` is a positive decimal amount, as Stellar expects (up to 7 decimal
/// places, matching the network's fixed-point representation of asset quantities).
pub fn validate_amount(amount: &str) -> (res: Result<(), TxError>)
    ensures
        match res {
            Ok(()) => amount_outcome(amount@) == Ok::<(), TxErrorView>(()),
            Err(e) => amount_outcome(amount@) == Err::<(), TxErrorView>(e@),
        },
{
    let chars = chars_of(amount);
    let ghost s = amount@;
    let n = chars.len();
    if n == 0 {
        return Err(invalid_amount(amount, false));
    }
    let mut k: usize = 0;
    while k < n && chars[k] != '.'
        invariant
            chars@ == s,
            n == s.len(),
            k <= n,
            forall|j: int| 0 <= j < k ==> s[j] != '.',
        decreases n - k,
    {
        k = k + 1;
    }
    let whole_ok = k > 0 && digits_between(&chars, 0, k);
    proof {
        if whole_ok {
            assert(s.take(k as int) =~= s.subrange(0, k as int));
        }
    }
    if !whole_ok {
        proof {
            if is_decimal_amount(s) {
                if s.len() > 0 && all_digits(s) {
                    if k == 0 {
                        assert(is_ascii_digit(s[0]));
                    } else {
                        let j = choose|j: int|
                            0 <= j < k && !is_ascii_digit(
                                #[trigger] s.subrange(0, k as int)[j],
                            );
                        assert(is_ascii_digit(s[j]));
                    }
                } else {
                    let k2 = choose|k2: int|
                        0 < k2 < s.len() && #[trigger] s[k2] == '.' && all_digits(s.take(k2))
                            && all_digits(s.skip(k2 + 1)) && 1 <= s.len() - k2 - 1 <= 7;
                    if k == n {
                        assert(s[k2] != '.');
                    } else {
                        lemma_first_dot(s, k as int, k2);
                        if k > 0 {
                            let j = choose|j: int|
                                0 <= j < k && !is_ascii_digit(
                                    #[trigger] s.subrange(0, k as int)[j],
                                );
                            assert(is_ascii_digit(s.take(k2)[j]));
                        }
                    }
                }
            }
        }
        return Err(invalid_amount(amount, false));
    }
    if k < n {
        let fraction_ok = n - k - 1 >= 1 && n - k - 1 <= 7 && digits_between(&chars, k + 1, n);
        proof {
            assert(s.skip(k + 1) =~= s.subrange(k + 1, n as int));
            if is_decimal_amount(s) {
                if s.len() > 0 && all_digits(s) {
                    assert(is_ascii_digit(s[k as int]));
                } else {
                    let k2 = choose|k2: int|
                        0 < k2 < s.len() && #[trigger] s[k2] == '.' && all_digits(s.take(k2))
                            && all_digits(s.skip(k2 + 1)) && 1 <= s.len() - k2 - 1 <= 7;
                    lemma_first_dot(s, k as int, k2);
                }
            }
            if fraction_ok {
                assert(s[k as int] == '.');
                assert(is_decimal_amount(s));
            }
        }
        if !fraction_ok {
            return Err(invalid_amount(amount, false));
        }
    } else {
        assert(s.take(k as int) =~= s);
    }
    if zeros_and_dots(&chars) {
        return Err(invalid_amount(amount, true));
    }
    Ok(())
}

} // verus!
