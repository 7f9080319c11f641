//! Decimal numeric tokens.
//!
//! Numbers inside `rgb()` / `rgba()` calls, percentages, alpha values,
//! `darken()` / `lighten()` percentages and angles are decimals with an
//! optional sign, an optional fraction, and no exponent. A parsed number is
//! held in hundred-thousandths (`NUM_UNIT` per unit): fractional digits
//! beyond the fifth are ignored, and the magnitude saturates at
//! [`NUM_BOUND`] (a billion units), far outside any range that changes a
//! clamped colour channel.

use vstd::prelude::*;

verus! {

/// Fixed-point units per unit of a parsed number: `10^5`.
pub const NUM_UNIT: i64 = 100_000;

/// Magnitude bound of a parsed number: `10^9` units.
pub const NUM_BOUND: i64 = 100_000_000_000_000;

/// Saturation cap of the integer part, in whole units.
pub const INT_CAP: i64 = 1_000_000_000;

/// Whether `b` is an ASCII digit.
pub open spec fn spec_is_digit(b: u8) -> bool {
    48 <= b <= 57
}

/// Whether every byte of `s` is an ASCII digit.
pub open spec fn spec_all_digits(s: Seq<u8>) -> bool {
    forall|i: int| 0 <= i < s.len() ==> spec_is_digit(#[trigger] s[i])
}

/// The value of a digit string, most significant first.
pub open spec fn spec_digits_val(s: Seq<u8>) -> int
    decreases s.len(),
{
    if s.len() == 0 {
        0
    } else {
        spec_digits_val(s.drop_last()) * 10 + (s.last() - 48)
    }
}

/// `10^n`.
pub open spec fn spec_pow10(n: nat) -> int
    decreases n,
{
    if n == 0 {
        1
    } else {
        10 * spec_pow10((n - 1) as nat)
    }
}

/// A digit string's value is nonnegative and below `10^len`.
pub proof fn lemma_digits_val_bound(s: Seq<u8>)
    requires
        spec_all_digits(s),
    ensures
        0 <= spec_digits_val(s) < spec_pow10(s.len()),
    decreases s.len(),
{
    if s.len() == 0 {
    } else {
        assert(spec_all_digits(s.drop_last()));
        lemma_digits_val_bound(s.drop_last());
        let v = spec_digits_val(s.drop_last());
        let p = spec_pow10((s.len() - 1) as nat);
        assert(v * 10 <= (p - 1) * 10) by (nonlinear_arith)
            requires
                v <= p - 1,
        ;
        assert(spec_is_digit(s.last()));
    }
}

/// The first position of `b` in `s` at or after `i`, if any.
pub open spec fn spec_find_byte_from(s: Seq<u8>, b: u8, i: int) -> Option<int>
    decreases s.len() - i,
{
    if i < 0 || i >= s.len() {
        None
    } else if s[i] == b {
        Some(i)
    } else {
        spec_find_byte_from(s, b, i + 1)
    }
}

/// The fraction digits' value in hundred-thousandths: the first five
/// digits, right-padded with zeros to five places.
pub open spec fn spec_frac5(s: Seq<u8>) -> int {
    if s.len() >= 5 {
        spec_digits_val(s.subrange(0, 5))
    } else {
        spec_digits_val(s) * spec_pow10((5 - s.len()) as nat)
    }
}

/// What [`parse_number`] returns on the byte string `s`: `None` unless `s`
/// is an optional sign, then digits with at most one point among them and
/// at least one digit; otherwise the signed value in hundred-thousandths,
/// fraction digits beyond the fifth ignored and the magnitude saturated at
/// [`NUM_BOUND`].
pub open spec fn spec_parse_number(s: Seq<u8>) -> Option<int> {
    if s.len() == 0 {
        None
    } else {
        let negative = s[0] == 45;
        let body = if s[0] == 45 || s[0] == 43 {
            s.subrange(1, s.len() as int)
        } else {
            s
        };
        let ip = match spec_find_byte_from(body, 46, 0) {
            Some(d) => body.subrange(0, d),
            None => body,
        };
        let fp = match spec_find_byte_from(body, 46, 0) {
            Some(d) => body.subrange(d + 1, body.len() as int),
            None => Seq::<u8>::empty(),
        };
        if !spec_all_digits(ip) || !spec_all_digits(fp) || (ip.len() == 0 && fp.len() == 0) {
            None
        } else {
            let mag = spec_digits_val(ip) * NUM_UNIT + spec_frac5(fp);
            let capped = if mag > NUM_BOUND {
                NUM_BOUND as int
            } else {
                mag
            };
            if negative {
                Some(-capped)
            } else {
                Some(capped)
            }
        }
    }
}

/// Finds the first position of `b` in `s` at or after `i`.
pub fn find_byte_from(s: &[u8], b: u8, i: usize) -> (r: Option<usize>)
    requires
        i <= s@.len(),
    ensures
        match r {
            Some(j) => Some(j as int) == spec_find_byte_from(s@, b, i as int),
            None => spec_find_byte_from(s@, b, i as int) is None,
        },
        r is Some ==> i <= r->Some_0 < s@.len(),
    decreases s@.len() - i,
{
    if i >= s.len() {
        None
    } else if s[i] == b {
        Some(i)
    } else {
        find_byte_from(s, b, i + 1)
    }
}

/// Whether every byte of `s[from..to]` is an ASCII digit.
fn all_digits_range(s: &[u8], from: usize, to: usize) -> (r: bool)
    requires
        from <= to <= s@.len(),
    ensures
        r == spec_all_digits(s@.subrange(from as int, to as int)),
    decreases to - from,
{
    if from >= to {
        assert(s@.subrange(from as int, to as int) =~= Seq::<u8>::empty());
        true
    } else {
        let d = s[from];
        if d < 48 || d > 57 {
            assert(!spec_is_digit(s@.subrange(from as int, to as int)[0]));
            false
        } else {
            let rest = all_digits_range(s, from + 1, to);
            proof {
                let whole = s@.subrange(from as int, to as int);
                let tail = s@.subrange(from as int + 1, to as int);
                assert(tail =~= whole.subrange(1, whole.len() as int));
                if rest {
                    assert forall|i: int| 0 <= i < whole.len() implies spec_is_digit(
                        #[trigger] whole[i],
                    ) by {
                        if i > 0 {
                            assert(whole[i] == tail[i - 1]);
                        }
                    }
                } else {
                    let j = choose|j: int| 0 <= j < tail.len() && !spec_is_digit(#[trigger] tail[j]);
                    assert(whole[j + 1] == tail[j]);
                }
            }
            rest
        }
    }
}

/// The value of the digit range `s[from..to]`, saturated at `cap`.
fn digits_val_capped(s: &[u8], from: usize, to: usize, cap: i64) -> (r: i64)
    requires
        from <= to <= s@.len(),
        spec_all_digits(s@.subrange(from as int, to as int)),
        0 < cap <= 1_000_000_000_000,
    ensures
        ({
            let v = spec_digits_val(s@.subrange(from as int, to as int));
            r == if v > cap {
                cap as int
            } else {
                v
            }
        }),
        0 <= r <= cap,
    decreases to - from,
{
    if from >= to {
        assert(s@.subrange(from as int, to as int) =~= Seq::<u8>::empty());
        0
    } else {
        let prefix = digits_val_capped(s, from, to - 1, cap);
        let d = s[to - 1];
        proof {
            let whole = s@.subrange(from as int, to as int);
            assert(whole.drop_last() =~= s@.subrange(from as int, to as int - 1));
            assert(spec_all_digits(whole.drop_last()));
            assert(whole.last() == s@[to - 1]);
            assert(spec_is_digit(s@[to - 1]));
            let v = spec_digits_val(whole.drop_last());
            lemma_digits_val_bound(whole.drop_last());
            if v > cap {
                assert(v * 10 >= cap * 10) by (nonlinear_arith)
                    requires
                        v > cap && cap > 0,
                ;
            } else {
                assert(prefix == v);
            }
        }
        let raw = prefix * 10 + (d - 48) as i64;
        if raw > cap {
            cap
        } else {
            raw
        }
    }
}

/// Parses a decimal numeric token into hundred-thousandths of a unit.
#[verifier::rlimit(100)]
pub fn parse_number(s: &[u8]) -> (r: Option<i64>)
    ensures
        match r {
            Some(v) => Some(v as int) == spec_parse_number(s@) && -NUM_BOUND <= v <= NUM_BOUND,
            None => spec_parse_number(s@) is None,
        },
{
    if s.len() == 0 {
        return None;
    }
    let first = s[0];
    let negative = first == 45;
    let start: usize = if first == 45 || first == 43 {
        1
    } else {
        0
    };
    let ghost body = if s@[0] == 45 || s@[0] == 43 {
        s@.subrange(1, s@.len() as int)
    } else {
        s@
    };
    proof {
        assert(body =~= s@.subrange(start as int, s@.len() as int));
    }
    let dot = find_byte_from(s, 46, start);
    let (ip_end, fp_start): (usize, usize) = match dot {
        Some(d) => (d, d + 1),
        None => (s.len(), s.len()),
    };
    proof {
        let bd = spec_find_byte_from(body, 46, 0);
        lemma_find_byte_shift(s@, 46, start as int);
        match dot {
            Some(d) => {
                assert(bd == Some(d - start as int));
                assert(body.subrange(0, d - start as int) =~= s@.subrange(start as int, d as int));
                assert(body.subrange(d - start as int + 1, body.len() as int) =~= s@.subrange(
                    d as int + 1,
                    s@.len() as int,
                ));
            },
            None => {
                assert(bd is None);
                assert(body.subrange(0, body.len() as int) =~= s@.subrange(
                    start as int,
                    s@.len() as int,
                ));
            },
        }
    }
    if !all_digits_range(s, start, ip_end) {
        return None;
    }
    if !all_digits_range(s, fp_start, s.len()) {
        return None;
    }
    if start == ip_end && fp_start == s.len() {
        return None;
    }
    let iv = digits_val_capped(s, start, ip_end, INT_CAP);
    let flen = s.len() - fp_start;
    let fp_end: usize = if flen >= 5 {
        fp_start + 5
    } else {
        s.len()
    };
    proof {
        let whole_frac = s@.subrange(fp_start as int, s@.len() as int);
        let used_frac = s@.subrange(fp_start as int, fp_end as int);
        assert(spec_all_digits(used_frac)) by {
            assert forall|i: int| 0 <= i < used_frac.len() implies spec_is_digit(
                #[trigger] used_frac[i],
            ) by {
                assert(used_frac[i] == whole_frac[i]);
            }
        }
        if flen >= 5 {
            assert(used_frac =~= whole_frac.subrange(0, 5));
        }
        lemma_digits_val_bound(used_frac);
        reveal_with_fuel(spec_pow10, 7);
        assert(spec_pow10(5) == 100000);
    }
    let fv = digits_val_capped(s, fp_start, fp_end, 100_000);
    let pad: i64 = if flen == 0 {
        100_000
    } else if flen == 1 {
        10_000
    } else if flen == 2 {
        1_000
    } else if flen == 3 {
        100
    } else if flen == 4 {
        10
    } else {
        1
    };
    proof {
        let used_frac = s@.subrange(fp_start as int, fp_end as int);
        reveal_with_fuel(spec_pow10, 7);
        if flen < 5 {
            assert(spec_pow10((5 - used_frac.len()) as nat) == pad);
        }
        lemma_digits_val_bound(used_frac);
    }
    proof {
        assert(0 <= (fv as int) * pad <= 10_000_000_000) by (nonlinear_arith)
            requires
                0 <= fv <= 100_000 && 1 <= pad <= 100_000,
        ;
    }
    let mag = iv * NUM_UNIT + fv * pad;
    let capped = if mag > NUM_BOUND {
        NUM_BOUND
    } else {
        mag
    };
    if negative {
        Some(-capped)
    } else {
        Some(capped)
    }
}

/// Finding a byte in a suffix is finding it in the whole, shifted.
proof fn lemma_find_byte_shift(s: Seq<u8>, b: u8, start: int)
    requires
        0 <= start <= s.len(),
    ensures
        ({
            let body = s.subrange(start, s.len() as int);
            match spec_find_byte_from(s, b, start) {
                Some(d) => spec_find_byte_from(body, b, 0) == Some(d - start),
                None => spec_find_byte_from(body, b, 0) is None,
            }
        }),
{
    lemma_find_byte_align_one(s, s.subrange(start, s.len() as int), b, start, 0);
}

/// The alignment of a search with the search in a suffix, by induction on
/// the remaining length.
proof fn lemma_find_byte_align_one(s: Seq<u8>, tail: Seq<u8>, b: u8, off: int, i: int)
    requires
        0 <= off <= s.len(),
        tail =~= s.subrange(off, s.len() as int),
        0 <= i <= tail.len(),
    ensures
        spec_find_byte_from(tail, b, i) == (match spec_find_byte_from(s, b, i + off) {
            Some(d) => Some(d - off),
            None => None::<int>,
        }),
    decreases tail.len() - i,
{
    if i >= tail.len() {
    } else if tail[i] == b {
    } else {
        lemma_find_byte_align_one(s, tail, b, off, i + 1);
    }
}

} // verus!
