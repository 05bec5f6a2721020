use vstd::prelude::*;

verus! {

/// An ASCII decimal digit.
pub open spec fn spec_is_digit(b: u8) -> bool {
    48 <= b <= 57
}

/// The number written by a sequence of ASCII digits, most significant
/// first.
pub open spec fn spec_digits_val(s: Seq<u8>) -> int
    decreases s.len(),
{
    if s.len() == 0 {
        0
    } else {
        spec_digits_val(s.drop_last()) * 10 + (s.last() - 48)
    }
}

/// Ten to the power `n`.
pub open spec fn spec_pow10(n: nat) -> int
    decreases n,
{
    if n == 0 {
        1
    } else {
        10 * spec_pow10((n - 1) as nat)
    }
}

/// The end of the run of digits that starts at `from`.
pub open spec fn spec_digits_end(s: Seq<u8>, from: int) -> int
    decreases s.len() - from,
{
    if from < 0 || from >= s.len() {
        from
    } else if spec_is_digit(s[from]) {
        spec_digits_end(s, from + 1)
    } else {
        from
    }
}

/// The value, in micro-units, of a decimal written as an integer part and
/// a fraction part: the fraction counts to six places, further places are
/// truncated.
pub open spec fn spec_decimal_micro(int_part: Seq<u8>, frac_part: Seq<u8>) -> int {
    let frac6 = if frac_part.len() > 6 {
        frac_part.take(6)
    } else {
        frac_part
    };
    spec_digits_val(int_part) * 1_000_000 + spec_digits_val(frac6) * spec_pow10(
        (6 - frac6.len()) as nat,
    )
}

/// What a price string is worth in micro-units: a non-empty run of digits,
/// optionally followed by a dot and a (possibly empty) run of digits, and
/// nothing else. Anything else is no price.
pub open spec fn spec_parse_price_micro(s: Seq<u8>) -> Option<int> {
    let d = spec_digits_end(s, 0);
    if d == 0 {
        None
    } else if d == s.len() {
        Some(spec_digits_val(s.subrange(0, d)) * 1_000_000)
    } else if s[d] == 46 {
        if spec_digits_end(s, d + 1) == s.len() {
            Some(spec_decimal_micro(s.subrange(0, d), s.subrange(d + 1, s.len() as int)))
        } else {
            None
        }
    } else {
        None
    }
}

/// A digit string never writes a negative number.
proof fn lemma_digits_val_nonneg(s: Seq<u8>)
    requires
        forall|i: int| 0 <= i < s.len() ==> spec_is_digit(#[trigger] s[i]),
    ensures
        spec_digits_val(s) >= 0,
    decreases s.len(),
{
    if s.len() > 0 {
        assert(forall|i: int|
            0 <= i < s.drop_last().len() ==> spec_is_digit(#[trigger] s.drop_last()[i]));
        lemma_digits_val_nonneg(s.drop_last());
        assert(spec_digits_val(s.drop_last()) * 10 >= 0) by (nonlinear_arith)
            requires
                spec_digits_val(s.drop_last()) >= 0,
        ;
    }
}

/// Ten to a power of at most six stays at or below one million.
proof fn lemma_pow10_le6(n: nat)
    requires
        n <= 6,
    ensures
        1 <= spec_pow10(n) <= 1_000_000,
{
    reveal_with_fuel(spec_pow10, 8);
}

/// Reading one more digit multiplies the value by ten and adds the digit.
proof fn lemma_digits_val_snoc(s: Seq<u8>, from: int, i: int)
    requires
        0 <= from <= i < s.len(),
    ensures
        spec_digits_val(s.subrange(from, i + 1)) == spec_digits_val(s.subrange(from, i)) * 10 + (
        s[i] - 48),
{
    let longer = s.subrange(from, i + 1);
    assert(longer.drop_last() =~= s.subrange(from, i));
    assert(longer.last() == s[i]);
}

/// The run of digits from `from` ends exactly where a non-digit (or the
/// end of the string) first stands.
proof fn lemma_digits_end_at(s: Seq<u8>, from: int, end: int)
    requires
        0 <= from <= end <= s.len(),
        forall|j: int| from <= j < end ==> spec_is_digit(#[trigger] s[j]),
        end == s.len() || !spec_is_digit(s[end]),
    ensures
        spec_digits_end(s, from) == end,
    decreases s.len() - from,
{
    if from < end {
        lemma_digits_end_at(s, from + 1, end);
    }
}

/// Ten to a power of at most six, as a machine value.
fn pow10_u128(n: usize) -> (r: u128)
    requires
        n <= 6,
    ensures
        r == spec_pow10(n as nat),
{
    proof {
        reveal_with_fuel(spec_pow10, 8);
    }
    if n == 0 {
        1
    } else if n == 1 {
        10
    } else if n == 2 {
        100
    } else if n == 3 {
        1_000
    } else if n == 4 {
        10_000
    } else if n == 5 {
        100_000
    } else {
        1_000_000
    }
}

/// Parse a decimal price string into micro-units: digits, optionally a dot
/// and more digits. The fraction counts to six places; further places are
/// truncated. Returns nothing for malformed text and for values beyond the
/// machine range.
pub fn parse_price_micro(s: &[u8]) -> (r: Option<u64>)
    ensures
        match spec_parse_price_micro(s@) {
            Some(v) => if v <= u64::MAX {
                r == Some(v as u64)
            } else {
                r is None
            },
            None => r is None,
        },
{
    let len = s.len();
    let ghost sq = s@;

    // Integer part: a non-empty run of digits, accumulated with an
    // explicit overflow flag.
    let mut i: usize = 0;
    let mut int_val: u128 = 0;
    let mut int_overflow: bool = false;
    loop
        invariant
            0 <= i <= len,
            len == sq.len(),
            sq == s@,
            forall|j: int| 0 <= j < i ==> spec_is_digit(#[trigger] sq[j]),
            !int_overflow ==> int_val == spec_digits_val(sq.subrange(0, i as int)),
            int_overflow ==> spec_digits_val(sq.subrange(0, i as int)) > u64::MAX,
            int_val <= u64::MAX,
        ensures
            0 <= i <= len,
            forall|j: int| 0 <= j < i ==> spec_is_digit(#[trigger] sq[j]),
            i == len || !spec_is_digit(sq[i as int]),
            !int_overflow ==> int_val == spec_digits_val(sq.subrange(0, i as int)),
            int_overflow ==> spec_digits_val(sq.subrange(0, i as int)) > u64::MAX,
            int_val <= u64::MAX,
        decreases len - i,
    {
        if i >= len {
            break;
        }
        let b = s[i];
        if b < 48 || b > 57 {
            break;
        }
        proof {
            lemma_digits_val_snoc(sq, 0, i as int);
            lemma_digits_val_nonneg(sq.subrange(0, i as int));
            if int_overflow {
                assert(spec_digits_val(sq.subrange(0, i as int)) * 10 + (sq[i as int] - 48)
                    > u64::MAX) by (nonlinear_arith)
                    requires
                        spec_digits_val(sq.subrange(0, i as int)) > u64::MAX,
                        sq[i as int] >= 48,
                ;
            }
        }
        let digit: u128 = (b - 48) as u128;
        if !int_overflow {
            let grown: u128 = int_val * 10 + digit;
            if grown > u64::MAX as u128 {
                int_overflow = true;
                int_val = 0;
            } else {
                int_val = grown;
            }
        }
        i = i + 1;
    }
    proof {
        lemma_digits_end_at(sq, 0, i as int);
    }

    // An empty integer part is no price.
    if i == 0 {
        return None;
    }

    // Just digits: a whole number of quote units.
    if i == len {
        if int_overflow {
            proof {
                let v = spec_digits_val(sq.subrange(0, i as int));
                assert(v * 1_000_000 > u64::MAX) by (nonlinear_arith)
                    requires
                        v > u64::MAX,
                ;
            }
            return None;
        }
        let wide: u128 = int_val * 1_000_000;
        if wide > u64::MAX as u128 {
            return None;
        }
        return Some(wide as u64);
    }

    // Otherwise a dot must follow, then only digits to the end.
    if s[i] != 46 {
        return None;
    }
    let frac_start = i + 1;

    // Fraction: accumulate up to six places.
    let mut j: usize = frac_start;
    let mut frac_val: u128 = 0;
    loop
        invariant
            frac_start <= j <= len,
            frac_start == i + 1,
            i < len,
            len == sq.len(),
            sq == s@,
            j - frac_start <= 6,
            forall|k: int| frac_start <= k < j ==> spec_is_digit(#[trigger] sq[k]),
            frac_val == spec_digits_val(sq.subrange(frac_start as int, j as int)),
            frac_val < spec_pow10((j - frac_start) as nat),
        ensures
            frac_start <= j <= len,
            j - frac_start <= 6,
            j == len || j - frac_start == 6 || !spec_is_digit(sq[j as int]),
            forall|k: int| frac_start <= k < j ==> spec_is_digit(#[trigger] sq[k]),
            frac_val == spec_digits_val(sq.subrange(frac_start as int, j as int)),
            frac_val < spec_pow10((j - frac_start) as nat),
        decreases len - j,
    {
        if j >= len || j - frac_start >= 6 {
            break;
        }
        let b = s[j];
        if b < 48 || b > 57 {
            break;
        }
        proof {
            lemma_digits_val_snoc(sq, frac_start as int, j as int);
            assert(spec_pow10((j + 1 - frac_start) as nat) == 10 * spec_pow10(
                (j - frac_start) as nat,
            ));
            assert(frac_val * 10 + (sq[j as int] - 48) < 10 * spec_pow10((j - frac_start) as nat))
                by (nonlinear_arith)
                requires
                    frac_val < spec_pow10((j - frac_start) as nat),
                    48 <= sq[j as int] <= 57,
            ;
            lemma_pow10_le6((j - frac_start) as nat);
        }
        frac_val = frac_val * 10 + ((b - 48) as u128);
        j = j + 1;
    }

    // Every remaining character must still be a digit.
    let mut k: usize = j;
    loop
        invariant
            j <= k <= len,
            frac_start <= j,
            frac_start == i + 1,
            0 < i < len,
            len == sq.len(),
            sq == s@,
            spec_digits_end(sq, 0) == i,
            sq[i as int] == 46,
            forall|m: int| frac_start <= m < j ==> spec_is_digit(#[trigger] sq[m]),
            forall|m: int| j <= m < k ==> spec_is_digit(#[trigger] sq[m]),
        ensures
            j <= k <= len,
            forall|m: int| j <= m < k ==> spec_is_digit(#[trigger] sq[m]),
            k == len,
        decreases len - k,
    {
        if k >= len {
            break;
        }
        let b = s[k];
        if b < 48 || b > 57 {
            proof {
                assert(forall|m: int| frac_start <= m < k ==> spec_is_digit(#[trigger] sq[m]));
                lemma_digits_end_at(sq, frac_start as int, k as int);
            }
            return None;
        }
        k = k + 1;
    }
    proof {
        lemma_digits_end_at(sq, frac_start as int, len as int);
    }

    let ghost frac = sq.subrange(frac_start as int, len as int);
    let ghost frac6 = if frac.len() > 6 {
        frac.take(6)
    } else {
        frac
    };
    proof {
        assert(frac6 =~= sq.subrange(frac_start as int, j as int));
        lemma_pow10_le6((j - frac_start) as nat);
        lemma_pow10_le6((6 - (j - frac_start)) as nat);
        lemma_digits_val_nonneg(sq.subrange(frac_start as int, j as int));
    }

    if int_overflow {
        proof {
            let v = spec_digits_val(sq.subrange(0, i as int));
            let f = spec_digits_val(frac6);
            let p = spec_pow10((6 - frac6.len()) as nat);
            assert(v * 1_000_000 > u64::MAX) by (nonlinear_arith)
                requires
                    v > u64::MAX,
            ;
            assert(f * p >= 0) by (nonlinear_arith)
                requires
                    f >= 0,
                    p >= 0,
            ;
        }
        return None;
    }

    // Scale the fraction out to six places.
    let missing: usize = 6 - (j - frac_start);
    let scale: u128 = pow10_u128(missing);
    proof {
        assert(frac_val * scale <= 1_000_000 * 1_000_000) by (nonlinear_arith)
            requires
                0 <= frac_val <= 1_000_000,
                0 <= scale <= 1_000_000,
        ;
    }
    let frac_scaled: u128 = frac_val * scale;

    let wide: u128 = int_val * 1_000_000 + frac_scaled;
    if wide > u64::MAX as u128 {
        return None;
    }
    Some(wide as u64)
}

} // verus!
