use vstd::prelude::*;

verus! {

/// An ASCII decimal digit.
pub open spec fn is_digit(b: u8) -> bool {
    48 <= b <= 57
}

pub open spec fn all_digits(s: Seq<u8>) -> bool {
    forall|i: int| 0 <= i < s.len() ==> is_digit(#[trigger] s[i])
}

/// The value of a run of decimal digits.
pub open spec fn digits_value(s: Seq<u8>) -> int
    decreases s.len(),
{
    if s.len() == 0 {
        0
    } else {
        digits_value(s.drop_last()) * 10 + (s.last() - 48)
    }
}

/// The integer that the text writes: one or more decimal digits, with an
/// optional leading sign.
pub open spec fn integer_value(s: Seq<u8>) -> Option<int> {
    if s.len() > 1 && s[0] == 45 && all_digits(s.drop_first()) {
        Some(-digits_value(s.drop_first()))
    } else if s.len() > 1 && s[0] == 43 && all_digits(s.drop_first()) {
        Some(digits_value(s.drop_first()))
    } else if s.len() > 0 && all_digits(s) {
        Some(digits_value(s))
    } else {
        None
    }
}

/// The identifier that the text writes, where it is an integer that fits
/// in an `i64`.
pub open spec fn id_of(s: Seq<u8>) -> Option<i64> {
    match integer_value(s) {
        Some(v) => if i64::MIN <= v <= i64::MAX {
            Some(v as i64)
        } else {
            None
        },
        None => None,
    }
}

proof fn lemma_digits_nonneg(s: Seq<u8>)
    requires
        all_digits(s),
    ensures
        digits_value(s) >= 0,
    decreases s.len(),
{
    if s.len() > 0 {
        lemma_digits_nonneg(s.drop_last());
    }
}

proof fn lemma_digits_monotone(s: Seq<u8>, k: int)
    requires
        all_digits(s),
        0 <= k <= s.len(),
    ensures
        digits_value(s.subrange(0, k)) <= digits_value(s),
    decreases s.len(),
{
    if k < s.len() {
        let t = s.drop_last();
        lemma_digits_monotone(t, k);
        lemma_digits_nonneg(t);
        assert(t.subrange(0, k) =~= s.subrange(0, k));
    } else {
        assert(s.subrange(0, k) =~= s);
    }
}

/// Reads the identifier written in `s[from..]`.
pub(crate) fn parse_id_from(s: &[u8], from: usize) -> (r: Option<i64>)
    requires
        from <= s@.len(),
    ensures
        r == id_of(s@.subrange(from as int, s@.len() as int)),
{
    let ghost t = s@.subrange(from as int, s@.len() as int);
    let n = s.len();
    if from >= n {
        return None;
    }
    let mut negative = false;
    let mut start = from;
    if s[from] == 45 || s[from] == 43 {
        negative = s[from] == 45;
        start = from + 1;
        if start >= n {
            return None;
        }
    }
    let ghost digits = s@.subrange(start as int, n as int);
    proof {
        if start > from {
            assert(digits =~= t.drop_first());
            assert(!is_digit(t[0]));
        } else {
            assert(digits =~= t);
        }
    }
    let mut acc: u64 = 0;
    let mut i: usize = start;
    while i < n
        invariant
            from <= start <= i <= n,
            start <= from + 1,
            n == s@.len(),
            t == s@.subrange(from as int, n as int),
            start > from ==> digits == t.drop_first() && !is_digit(t[0]) && t.len() > 1,
            start > from ==> (negative <==> t[0] == 45) && (!negative ==> t[0] == 43),
            start == from ==> digits == t && !negative && t.len() > 0 && t[0] != 45 && t[0]
                != 43,
            digits == s@.subrange(start as int, n as int),
            all_digits(s@.subrange(start as int, i as int)),
            acc as int == digits_value(s@.subrange(start as int, i as int)),
            acc <= 9223372036854775808u64,
        decreases n - i,
    {
        let b = s[i];
        if b < 48 || b > 57 {
            assert(!is_digit(digits[i - start]));
            assert(!all_digits(digits));
            assert(!all_digits(t)) by {
                if start == from {
                    assert(!is_digit(t[i - start]));
                } else {
                    assert(!is_digit(t[0]));
                }
            }
            return None;
        }
        let ghost prev = s@.subrange(start as int, i as int);
        let ghost next = s@.subrange(start as int, i + 1);
        assert(next.drop_last() =~= prev);
        if acc > 922337203685477580u64 || (acc == 922337203685477580u64 && b > 56) {
            proof {
                if all_digits(digits) {
                    lemma_digits_monotone(digits, i + 1 - start);
                    assert(digits.subrange(0, i + 1 - start) =~= next);
                }
            }
            return None;
        }
        acc = acc * 10 + (b - 48) as u64;
        i = i + 1;
    }
    assert(s@.subrange(start as int, i as int) =~= digits);
    if negative {
        if acc == 9223372036854775808u64 {
            Some(i64::MIN)
        } else {
            Some(-(acc as i64))
        }
    } else if acc == 9223372036854775808u64 {
        None
    } else {
        Some(acc as i64)
    }
}

/// Reads an identifier written in decimal, with an optional sign; `None`
/// where the text is no integer or does not fit in an `i64`.
pub fn parse_id(s: &[u8]) -> (r: Option<i64>)
    ensures
        r == id_of(s@),
{
    assert(s@.subrange(0, s@.len() as int) =~= s@);
    parse_id_from(s, 0)
}

} // verus!
