//! Decimal rendering and parsing of token amounts under a mint's
//! precision.

use vstd::prelude::*;

use crate::codec::push_bytes;
use crate::program_error::ProgramError;

verus! {

/// The decimal digits of `x`, most significant first, as ASCII bytes.
pub open spec fn spec_digits(x: int) -> Seq<u8>
    decreases x,
{
    if x < 0 {
        Seq::empty()
    } else if x < 10 {
        seq![(48 + x) as u8]
    } else {
        spec_digits(x / 10).push((48 + x % 10) as u8)
    }
}

/// Appends the decimal digits of `x`.
pub fn push_digits(out: &mut Vec<u8>, x: u64)
    ensures
        final(out)@ == old(out)@ + spec_digits(x as int),
    decreases x,
{
    if x < 10 {
        out.push(48 + x as u8);
        proof {
            assert(out@ =~= old(out)@ + spec_digits(x as int));
        }
    } else {
        push_digits(out, x / 10);
        out.push(48 + (x % 10) as u8);
        proof {
            assert(out@ =~= old(out)@ + spec_digits(x as int));
        }
    }
}

/// `s` with every trailing ASCII `0` removed.
pub open spec fn spec_trim_trailing_zeros(s: Seq<u8>) -> Seq<u8>
    decreases s.len(),
{
    if s.len() > 0 && s.last() == 48 {
        spec_trim_trailing_zeros(s.drop_last())
    } else {
        s
    }
}

/// A prefix that ends at the last nonzero digit is the trimmed sequence.
proof fn lemma_trim_is_take(s: Seq<u8>, end: int)
    requires
        0 <= end <= s.len(),
        forall|k: int| end <= k < s.len() ==> s[k] == 48,
        end > 0 ==> s[end - 1] != 48,
    ensures
        spec_trim_trailing_zeros(s) == s.take(end),
    decreases s.len(),
{
    if s.len() == end {
        assert(s.take(end) =~= s);
    } else {
        assert(s.last() == 48);
        lemma_trim_is_take(s.drop_last(), end);
        assert(s.drop_last().take(end) =~= s.take(end));
    }
}

/// The decimal rendering of `amount` under `decimals` fractional digits,
/// with trailing fractional zeros (and a bare decimal point) removed.
pub open spec fn spec_ui_amount_bytes(amount: u64, decimals: u8) -> Seq<u8> {
    let digits = spec_digits(amount as int);
    if decimals == 0 {
        digits
    } else {
        let width = decimals + 1;
        let padded = if digits.len() >= width {
            digits
        } else {
            Seq::new((width - digits.len()) as nat, |k: int| 48u8) + digits
        };
        let split = padded.len() - decimals;
        let whole = padded.take(split as int);
        let frac = padded.skip(split as int);
        let frac_trimmed = spec_trim_trailing_zeros(frac);
        if frac_trimmed.len() == 0 {
            whole
        } else {
            whole + seq![46u8] + frac_trimmed
        }
    }
}

/// Appends ASCII zero digits.
fn push_zero_digits(out: &mut Vec<u8>, count: usize)
    ensures
        final(out)@ == old(out)@ + Seq::new(count as nat, |k: int| 48u8),
{
    let mut i: usize = 0;
    while i < count
        invariant
            0 <= i <= count,
            out@ == old(out)@ + Seq::new(i as nat, |k: int| 48u8),
        decreases count - i,
    {
        out.push(48u8);
        proof {
            assert(out@ =~= old(out)@ + Seq::new((i + 1) as nat, |k: int| 48u8));
        }
        i += 1;
    }
}

/// Renders `amount` as a trimmed decimal string under `decimals`
/// fractional digits.
pub fn amount_to_ui_amount_bytes(amount: u64, decimals: u8) -> (r: Vec<u8>)
    ensures
        r@ == spec_ui_amount_bytes(amount, decimals),
{
    let mut digits: Vec<u8> = Vec::new();
    push_digits(&mut digits, amount);
    if decimals == 0 {
        return digits;
    }
    let width = decimals as usize + 1;
    let mut padded: Vec<u8> = Vec::new();
    if digits.len() < width {
        push_zero_digits(&mut padded, width - digits.len());
    }
    push_bytes(&mut padded, digits.as_slice());
    proof {
        let sd = spec_digits(amount as int);
        if sd.len() < decimals + 1 {
            assert(padded@ =~= Seq::new((decimals + 1 - sd.len()) as nat, |k: int| 48u8) + sd);
        } else {
            assert(padded@ =~= sd);
        }
    }
    let split = padded.len() - decimals as usize;

    // locate the end of the fractional part once trailing zeros go
    let mut end = padded.len();
    while end > split && padded[end - 1] == 48
        invariant
            split <= end <= padded@.len(),
            forall|k: int| end <= k < padded@.len() ==> padded@[k] == 48,
        decreases end,
    {
        end -= 1;
    }
    proof {
        lemma_trim_is_take(padded@.skip(split as int), end - split);
    }

    let mut out: Vec<u8> = Vec::new();
    push_bytes(&mut out, vstd::slice::slice_subrange(padded.as_slice(), 0, split));
    if end > split {
        out.push(46u8);
        push_bytes(&mut out, vstd::slice::slice_subrange(padded.as_slice(), split, end));
    }
    proof {
        let frac = padded@.skip(split as int);
        assert(frac.take(end - split) =~= padded@.subrange(split as int, end as int));
        if end > split {
            assert(out@ =~= padded@.take(split as int) + seq![46u8] + spec_trim_trailing_zeros(
                frac,
            ));
        } else {
            assert(out@ =~= padded@.take(split as int));
        }
    }
    out
}

/// Left-to-right decimal accumulation: `None` once the value leaves the
/// 64-bit range or a byte is not a digit.
pub open spec fn spec_parse_acc(s: Seq<u8>, acc: int) -> Option<int>
    decreases s.len(),
{
    if acc > u64::MAX {
        None
    } else if s.len() == 0 {
        Some(acc)
    } else if !(48 <= s[0] <= 57) {
        None
    } else {
        spec_parse_acc(s.skip(1), acc * 10 + (s[0] - 48))
    }
}

/// The value of a nonempty all-digit string that fits in 64 bits.
pub open spec fn spec_parse_u64(s: Seq<u8>) -> Option<int> {
    if s.len() == 0 {
        None
    } else {
        spec_parse_acc(s, 0)
    }
}

/// Parses a nonempty decimal byte string into a 64-bit value.
pub fn parse_u64_bytes(s: &[u8]) -> (r: Option<u64>)
    ensures
        match spec_parse_u64(s@) {
            Some(v) => r == Some(v as u64) && 0 <= v <= u64::MAX,
            None => r is None,
        },
{
    let n = s.len();
    if n == 0 {
        return None;
    }
    let mut acc: u128 = 0;
    let mut i: usize = 0;
    proof {
        assert(s@.skip(0) =~= s@);
    }
    while i < n
        invariant
            n == s@.len(),
            0 <= i <= n,
            acc <= u64::MAX,
            spec_parse_u64(s@) == spec_parse_acc(s@.skip(i as int), acc as int),
        decreases n - i,
    {
        let b = s[i];
        proof {
            assert(s@.skip(i as int)[0] == s@[i as int]);
            assert(s@.skip(i as int).skip(1) =~= s@.skip(i + 1));
        }
        if b < 48 || b > 57 {
            return None;
        }
        acc = acc * 10 + (b - 48) as u128;
        i += 1;
        if acc > u64::MAX as u128 {
            return None;
        }
    }
    Some(acc as u64)
}

/// The index of the first ASCII dot at or after `i`, or the length when
/// there is none.
pub open spec fn spec_find_dot(s: Seq<u8>, i: int) -> int
    decreases s.len() - i,
{
    if i < 0 || i >= s.len() {
        s.len() as int
    } else if s[i] == 46 {
        i
    } else {
        spec_find_dot(s, i + 1)
    }
}

/// Finds the first ASCII dot, or the length when there is none.
fn find_dot(s: &[u8]) -> (r: usize)
    ensures
        r == spec_find_dot(s@, 0),
        r <= s@.len(),
{
    let n = s.len();
    let mut i: usize = 0;
    while i < n
        invariant
            n == s@.len(),
            0 <= i <= n,
            spec_find_dot(s@, 0) == spec_find_dot(s@, i as int),
        decreases n - i,
    {
        if s[i] == 46 {
            return i;
        }
        i += 1;
    }
    n
}

/// Parsing of a decimal string under `decimals` fractional digits: at most
/// one dot, no more fractional digits (after trimming zeros) than the
/// precision allows, and a value that fits in 64 bits.
pub open spec fn spec_try_ui_amount(s: Seq<u8>, decimals: u8) -> Result<u64, ProgramError> {
    let dot = spec_find_dot(s, 0);
    let whole = s.take(dot);
    if dot < s.len() && spec_find_dot(s.skip(dot + 1), 0) < s.len() - dot - 1 {
        Err(ProgramError::InvalidArgument)
    } else {
        let after = if dot == s.len() {
            Seq::<u8>::empty()
        } else {
            s.skip(dot + 1)
        };
        let after_trimmed = spec_trim_trailing_zeros(after);
        if after_trimmed.len() > decimals {
            Err(ProgramError::InvalidArgument)
        } else {
            let combined = whole + after_trimmed + Seq::new(
                (decimals - after_trimmed.len()) as nat,
                |k: int| 48u8,
            );
            match spec_parse_u64(combined) {
                None => Err(ProgramError::InvalidArgument),
                Some(v) => Ok(v as u64),
            }
        }
    }
}

/// Parses a decimal byte string into a raw amount under `decimals`
/// fractional digits.
pub fn try_ui_amount_into_amount(ui_amount: &[u8], decimals: u8) -> (r: Result<u64, ProgramError>)
    ensures
        r == spec_try_ui_amount(ui_amount@, decimals),
{
    let n = ui_amount.len();
    let dot = find_dot(ui_amount);
    if dot < n {
        let rest = vstd::slice::slice_subrange(ui_amount, dot + 1, n);
        proof {
            assert(rest@ =~= ui_amount@.skip(dot + 1));
        }
        let second = find_dot(rest);
        if second < rest.len() {
            return Err(ProgramError::InvalidArgument);
        }
    }

    // trim trailing zeros from the fractional part
    let frac_start: usize = if dot < n {
        dot + 1
    } else {
        n
    };
    let mut end = n;
    while end > frac_start && ui_amount[end - 1] == 48
        invariant
            frac_start <= end <= ui_amount@.len(),
            forall|k: int| end <= k < ui_amount@.len() ==> ui_amount@[k] == 48,
        decreases end,
    {
        end -= 1;
    }
    proof {
        if dot < n {
            lemma_trim_is_take(ui_amount@.skip(dot + 1), end - frac_start);
            assert(ui_amount@.skip(dot + 1).take(end - frac_start) =~= ui_amount@.subrange(
                frac_start as int,
                end as int,
            ));
        } else {
            lemma_trim_is_take(Seq::<u8>::empty(), 0);
            assert(Seq::<u8>::empty().take(0) =~= ui_amount@.subrange(
                frac_start as int,
                end as int,
            ));
        }
    }
    let trimmed_len = end - frac_start;
    if trimmed_len > decimals as usize {
        return Err(ProgramError::InvalidArgument);
    }

    let mut combined: Vec<u8> = Vec::new();
    push_bytes(&mut combined, vstd::slice::slice_subrange(ui_amount, 0, dot));
    push_bytes(&mut combined, vstd::slice::slice_subrange(ui_amount, frac_start, end));
    push_zero_digits(&mut combined, decimals as usize - trimmed_len);
    proof {
        let s = ui_amount@;
        let after = if dot == s.len() {
            Seq::<u8>::empty()
        } else {
            s.skip(dot + 1)
        };
        assert(combined@ =~= s.take(dot as int) + spec_trim_trailing_zeros(after) + Seq::new(
            (decimals - spec_trim_trailing_zeros(after).len()) as nat,
            |k: int| 48u8,
        ));
    }
    match parse_u64_bytes(combined.as_slice()) {
        Some(v) => Ok(v),
        None => Err(ProgramError::InvalidArgument),
    }
}

} // verus!
