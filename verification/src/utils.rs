//! Padding arithmetic and the timestamp-resolution helper.

use vstd::arithmetic::div_mod::{lemma_add_mod_noop, lemma_div_multiples_vanish,
    lemma_fundamental_div_mod};
use vstd::arithmetic::power2::{lemma2_to64, lemma_pow2_adds, lemma_pow2_pos,
    lemma_pow2_strictly_increases, lemma_pow2_unfold, pow2};
use vstd::prelude::*;

verus! {

/// The number of zero bytes that brings a field of `n` bytes to the next
/// 32-bit boundary.
pub open spec fn pad_len(n: int) -> int {
    (4 - n % 4) % 4
}

/// Padding never exceeds three bytes and always completes `n` to a multiple
/// of four.
pub proof fn lemma_pad_len(n: int)
    requires
        n >= 0,
    ensures
        0 <= pad_len(n) <= 3,
        (n + pad_len(n)) % 4 == 0,
{
    lemma_add_mod_noop(n, pad_len(n), 4);
}

/// Returns the number of zero bytes that brings a field of `len` bytes to
/// the next 32-bit boundary.
pub fn pad_to_32(len: usize) -> (r: usize)
    ensures
        r as int == pad_len(len as int),
{
    (4 - len % 4) % 4
}

/// `10^e`.
pub open spec fn pow10(e: nat) -> int
    decreases e,
{
    if e == 0 {
        1
    } else {
        10 * pow10((e - 1) as nat)
    }
}

/// Returns `10^e` for the small exponents used by timestamp resolutions.
fn pow10_u128(e: u8) -> (r: u128)
    requires
        e <= 9,
    ensures
        r as int == pow10(e as nat),
{
    proof {
        reveal_with_fuel(pow10, 11);
    }
    match e {
        0 => 1,
        1 => 10,
        2 => 100,
        3 => 1_000,
        4 => 10_000,
        5 => 100_000,
        6 => 1_000_000,
        7 => 10_000_000,
        8 => 100_000_000,
        _ => 1_000_000_000,
    }
}

/// Returns `2^e`.
fn pow2_u128(e: u8) -> (r: u128)
    requires
        e <= 127,
    ensures
        r as int == pow2(e as nat),
{
    proof {
        lemma2_to64();
    }
    let mut r: u128 = 1;
    let mut i: u8 = 0;
    while i < e
        invariant
            i <= e,
            e <= 127,
            r as int == pow2(i as nat),
        decreases e - i,
    {
        proof {
            lemma_pow2_unfold((i + 1) as nat);
            lemma_pow2_strictly_increases((i + 1) as nat, 128);
            lemma2_to64();
            lemma_pow2_adds(64, 64);
        }
        r = r * 2;
        i = i + 1;
    }
    r
}

/// A timestamp resolution: fractional seconds expressed as a negative power
/// of ten or a negative power of two.
#[derive(Clone, Copy, Debug, PartialEq, Eq, Structural)]
pub enum TimestampResolution {
    PowerOfTen(u8),
    PowerOfTwo(u8),
}

impl TimestampResolution {
    /// The single-byte resolution code of the if_tsresol option: the power
    /// with bit 7 cleared for a power of ten, set for a power of two.
    pub open spec fn spec_tsresol(self) -> u8 {
        match self {
            TimestampResolution::PowerOfTwo(power) => (1u8 << 7) | power,
            TimestampResolution::PowerOfTen(power) => power & !(1u8 << 7),
        }
    }

    /// The count of resolution units since the epoch that a nanosecond count
    /// converts to.  A power of ten divides the nanoseconds by `10^(9-p)`;
    /// a power of two first truncates to whole seconds, then scales by `2^p`.
    pub open spec fn ts_units(self, nanos: u128) -> int {
        match self {
            TimestampResolution::PowerOfTen(power) => nanos as int / pow10((9 - power) as nat),
            TimestampResolution::PowerOfTwo(power) => (nanos as int / 1_000_000_000) * pow2(
                power as nat,
            ),
        }
    }

    /// The unit count stays within the machine limits of the conversion:
    /// a power of ten is at most nine, and a power of two keeps the scaled
    /// count inside 128 bits.
    pub open spec fn ts_in_range(self, nanos: u128) -> bool {
        match self {
            TimestampResolution::PowerOfTen(power) => power <= 9,
            TimestampResolution::PowerOfTwo(power) => power < 128 && (nanos as int
                / 1_000_000_000) * pow2(power as nat) <= u128::MAX,
        }
    }

    /// The Timestamp (High) field: the upper 32-bit half of the unit count,
    /// truncated to 64 bits.
    pub open spec fn spec_ts_high(self, nanos: u128) -> u32 {
        ((self.ts_units(nanos) / 0x1_0000_0000) % 0x1_0000_0000) as u32
    }

    /// The Timestamp (Low) field: the lower 32-bit half of the unit count.
    pub open spec fn spec_ts_low(self, nanos: u128) -> u32 {
        (self.ts_units(nanos) % 0x1_0000_0000) as u32
    }

    /// Returns the value used in the `if_tsresol` option of the Interface
    /// Description Block.
    pub fn to_tsresol(&self) -> (r: u8)
        ensures
            r == self.spec_tsresol(),
    {
        match *self {
            Self::PowerOfTwo(power) => 1u8 << 7 | power,
            Self::PowerOfTen(power) => power & !(1u8 << 7),
        }
    }

    /// Returns the pair used in the "Timestamp (High)" and "Timestamp (Low)"
    /// fields of the Enhanced Packet Block.
    pub fn ts_from_nanoseconds(&self, nanos: u128) -> (r: (u32, u32))
        requires
            self.ts_in_range(nanos),
        ensures
            r.0 == self.spec_ts_high(nanos),
            r.1 == self.spec_ts_low(nanos),
    {
        let t: u128 = match *self {
            Self::PowerOfTen(power) => {
                let divisor = pow10_u128(9 - power);
                proof {
                    reveal_with_fuel(pow10, 11);
                }
                nanos / divisor
            },
            Self::PowerOfTwo(power) => {
                let scale = pow2_u128(power);
                proof {
                    lemma_pow2_pos(power as nat);
                }
                (nanos / 1_000_000_000) * scale
            },
        };
        let high: u32 = ((t / 0x1_0000_0000) % 0x1_0000_0000) as u32;
        let low: u32 = (t % 0x1_0000_0000) as u32;
        (high, low)
    }
}

/// The two halves produced for a unit count below `2^64` reassemble to that
/// unit count.
proof fn lemma_ts_halves_reassemble(res: TimestampResolution, nanos: u128)
    requires
        0 <= res.ts_units(nanos) < 0x1_0000_0000_0000_0000,
    ensures
        ((res.spec_ts_high(nanos) as u64) << 32 | (res.spec_ts_low(nanos) as u64)) as int
            == res.ts_units(nanos),
{
    let t = res.ts_units(nanos);
    assert(t / 0x1_0000_0000 < 0x1_0000_0000) by (nonlinear_arith)
        requires
            0 <= t < 0x1_0000_0000_0000_0000,
    ;
    lemma_fundamental_div_mod(t, 0x1_0000_0000);
    let h = res.spec_ts_high(nanos) as u64;
    let l = res.spec_ts_low(nanos) as u64;
    assert(h << 32 | l == h * 0x1_0000_0000 + l) by (bit_vector)
        requires
            h < 0x1_0000_0000 && l < 0x1_0000_0000,
    ;
}

/// With power-of-ten resolution 6, the two timestamp halves reassemble to
/// `nanos / 1000`, the nanosecond count truncated to microseconds.
pub proof fn lemma_ts_power_of_ten_micro(nanos: u128)
    requires
        nanos as int / 1000 < 0x1_0000_0000_0000_0000,
    ensures
        ({
            let res = TimestampResolution::PowerOfTen(6);
            ((res.spec_ts_high(nanos) as u64) << 32 | (res.spec_ts_low(nanos) as u64)) as int
                == nanos as int / 1000
        }),
{
    let res = TimestampResolution::PowerOfTen(6);
    assert(pow10(3) == 1000) by {
        reveal_with_fuel(pow10, 4);
    }
    lemma_ts_halves_reassemble(res, nanos);
}

/// With power-of-ten resolution 9, the two timestamp halves reassemble to
/// `nanos` itself.
pub proof fn lemma_ts_power_of_ten_nano(nanos: u128)
    requires
        nanos < 0x1_0000_0000_0000_0000,
    ensures
        ({
            let res = TimestampResolution::PowerOfTen(9);
            ((res.spec_ts_high(nanos) as u64) << 32 | (res.spec_ts_low(nanos) as u64)) as int
                == nanos as int
        }),
{
    let res = TimestampResolution::PowerOfTen(9);
    assert(pow10(0) == 1) by {
        reveal_with_fuel(pow10, 1);
    }
    lemma_ts_halves_reassemble(res, nanos);
}

/// With power-of-two resolution `p`, the reassembled timestamp divided by
/// `2^p` recovers the whole-second count `nanos / 1_000_000_000`.
pub proof fn lemma_ts_power_of_two(nanos: u128, power: u8)
    requires
        power < 128,
        (nanos as int / 1_000_000_000) * pow2(power as nat) < 0x1_0000_0000_0000_0000,
    ensures
        ({
            let res = TimestampResolution::PowerOfTwo(power);
            ((res.spec_ts_high(nanos) as u64) << 32 | (res.spec_ts_low(nanos) as u64)) as int
                / pow2(power as nat) as int == nanos as int / 1_000_000_000
        }),
{
    let res = TimestampResolution::PowerOfTwo(power);
    let seconds = nanos as int / 1_000_000_000;
    lemma_pow2_pos(power as nat);
    assert(seconds * pow2(power as nat) >= 0) by (nonlinear_arith)
        requires
            seconds >= 0 && pow2(power as nat) > 0,
    ;
    lemma_ts_halves_reassemble(res, nanos);
    lemma_div_multiples_vanish(seconds, pow2(power as nat) as int);
    assert(pow2(power as nat) * seconds == seconds * pow2(power as nat)) by (nonlinear_arith);
    assert(res.ts_units(nanos) / pow2(power as nat) as int == seconds);
}

} // verus!
