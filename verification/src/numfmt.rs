//! Decimal rendering of the integer fields that the wire payload carries.

use vstd::prelude::*;

verus! {

/// The ASCII byte of a single decimal digit.
pub open spec fn digit_byte(d: int) -> u8 {
    (0x30 + d) as u8
}

/// Decimal encoding of a natural number, most significant digit first.
pub open spec fn dec_nat(n: nat) -> Seq<u8>
    decreases n,
{
    if n < 10 {
        seq![digit_byte(n as int)]
    } else {
        dec_nat(n / 10) + seq![digit_byte((n % 10) as int)]
    }
}

/// Decimal encoding of an integer: a leading minus sign when negative.
pub open spec fn dec_int(n: int) -> Seq<u8> {
    if n < 0 {
        seq![0x2du8] + dec_nat((-n) as nat)
    } else {
        dec_nat(n as nat)
    }
}

/// Appends the decimal digits of `n` to `out`.
pub fn push_dec_u64(out: &mut Vec<u8>, n: u64)
    ensures
        final(out)@ == old(out)@ + dec_nat(n as nat),
{
    let mut digits: Vec<u8> = Vec::new();
    let mut m: u64 = n;
    loop
        invariant_except_break
            dec_nat(n as nat) == dec_nat(m as nat) + digits@.reverse(),
        ensures
            dec_nat(n as nat) == digits@.reverse(),
        decreases m,
    {
        let d: u8 = (m % 10) as u8;
        let ghost pre = digits@;
        digits.push(d + 0x30);
        proof {
            assert(pre.push((d + 0x30) as u8).reverse() =~= seq![digit_byte((m % 10) as int)] + pre.reverse());
        }
        let m2 = m / 10;
        if m2 == 0 {
            proof {
                assert(m < 10);
                assert(dec_nat(m as nat) == seq![digit_byte(m as int)]);
                assert(dec_nat(n as nat) =~= digits@.reverse());
            }
            break;
        }
        proof {
            assert(m >= 10);
            assert(dec_nat(m as nat) == dec_nat((m as nat) / 10) + seq![digit_byte(((m as nat) % 10) as int)]);
            assert(m2 as nat == (m as nat) / 10);
            assert(dec_nat(n as nat) =~= dec_nat(m2 as nat) + digits@.reverse());
        }
        m = m2;
    }
    let ghost base = out@;
    let len = digits.len();
    let mut i: usize = 0;
    while i < len
        invariant
            i <= len,
            len == digits@.len(),
            dec_nat(n as nat) == digits@.reverse(),
            out@ == base + digits@.reverse().take(i as int),
        decreases len - i,
    {
        let b = digits[len - 1 - i];
        let ghost pre = out@;
        out.push(b);
        proof {
            assert(digits@.reverse()[i as int] == digits@[len - 1 - i as int]);
            assert(pre.push(b) =~= base + digits@.reverse().take(i as int + 1));
        }
        i = i + 1;
    }
    proof {
        assert(digits@.reverse().take(len as int) =~= digits@.reverse());
        assert(out@ =~= base + dec_nat(n as nat));
    }
}

/// Appends the decimal rendering of a signed value to `out`.
pub fn push_dec_i64(out: &mut Vec<u8>, n: i64)
    ensures
        final(out)@ == old(out)@ + dec_int(n as int),
{
    if n < 0 {
        let ghost base = out@;
        out.push(0x2d);
        let mag: u64 = ((-(n + 1)) as u64) + 1;
        proof {
            assert(mag as int == -(n as int));
        }
        push_dec_u64(out, mag);
        proof {
            assert(out@ =~= base + dec_int(n as int));
        }
    } else {
        push_dec_u64(out, n as u64);
    }
}

/// Decimal encoding of a count of hundredths: the whole part, a dot,
/// then exactly two fraction digits.
pub open spec fn dec_hundredths(d: nat) -> Seq<u8> {
    dec_nat(d / 100) + seq![0x2eu8, digit_byte((d % 100) as int / 10), digit_byte((d % 100) as int % 10)]
}

/// Appends a value counted in hundredths as a decimal with two
/// fraction digits.
pub fn push_dec_hundredths(out: &mut Vec<u8>, d: u64)
    ensures
        final(out)@ == old(out)@ + dec_hundredths(d as nat),
{
    let ghost base = out@;
    push_dec_u64(out, d / 100);
    out.push(0x2e);
    let frac: u64 = d % 100;
    out.push((frac / 10) as u8 + 0x30);
    out.push((frac % 10) as u8 + 0x30);
    proof {
        assert(out@ =~= base + dec_hundredths(d as nat));
    }
}

} // verus!
