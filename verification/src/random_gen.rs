//! Pseudo-random number generators used for seeding the noise modules.
//!
//! Several interchangeable algorithms by George Marsaglia sit behind one
//! trait: a linear-congruential generator, a xorshift generator, two
//! multiply-with-carry generators and the combined KISS generator. The
//! larger generators are seeded from a fresh linear-congruential
//! generator, so every state is an exact function of the seed.

use vstd::prelude::*;
use vstd::arithmetic::div_mod::{
    lemma_div_is_ordered,
    lemma_div_multiples_vanish,
    lemma_multiply_divide_lt,
};
use vstd::arithmetic::power2::lemma2_to64;
use vstd::bits::lemma_u64_shr_is_div;
use vstd::arithmetic::mul::lemma_mul_inequality;

verus! {

/// One step of the linear-congruential generator: `69069 * s + 362437`,
/// taken modulo 2^32.
pub open spec fn lcg_next(s: u32) -> u32 {
    ((69069 * s + 362437) % 0x1_0000_0000) as u32
}

/// The state of the linear-congruential generator after `n` steps from
/// the state `s`.
pub open spec fn lcg_nth(s: u32, n: nat) -> u32
    decreases n,
{
    if n == 0 {
        s
    } else {
        lcg_next(lcg_nth(s, (n - 1) as nat))
    }
}

/// A pseudo-random number generator: a stream of 32-bit words, restarted
/// by a seed.
pub trait PRNG {
    fn get(&mut self) -> u32;

    fn set_seed(&mut self, seed: u32);
}

/// The linear-congruential generator. Its whole state is one 32-bit word.
pub struct LCG {
    pub m_state: u32,
}

impl LCG {
    /// A generator seeded with the default seed 10000.
    pub fn new() -> (r: LCG)
        ensures
            r.m_state == 10000u32,
    {
        let mut lcg = LCG { m_state: 0 };
        lcg.set_seed(10000);
        lcg
    }

    /// The current state, which is also the last word handed out.
    pub fn state(&self) -> (r: u32)
        ensures
            r == self.m_state,
    {
        self.m_state
    }
}

impl PRNG for LCG {
    fn get(&mut self) -> (r: u32)
        ensures
            final(self).m_state == lcg_next(old(self).m_state),
            r == lcg_next(old(self).m_state),
    {
        let next: u64 = (69069u64 * (self.m_state as u64) + 362437u64) % 0x1_0000_0000u64;
        self.m_state = next as u32;
        self.m_state
    }

    fn set_seed(&mut self, seed: u32)
        ensures
            final(self).m_state == seed,
    {
        self.m_state = seed;
    }
}

/// Two distinct states step to two distinct states: the
/// linear-congruential transition is a bijection on 32-bit words, so
/// generators started from different seeds never hand out the same
/// first word.
pub proof fn lemma_lcg_next_injective(a: u32, b: u32)
    requires
        a != b,
    ensures
        lcg_next(a) != lcg_next(b),
{
    assert((69069 * a + 362437) % 0x1_0000_0000 != (69069 * b + 362437) % 0x1_0000_0000)
        by (bit_vector)
        requires
            a != b,
    ;
}

/// The word that a draw `g` scales to when a target bound `t` is given:
/// `g` is taken as the fraction `g / (2^32 - 1)` of `t`.
pub open spec fn target_of(g: u32, t: u32) -> int {
    (g * t) / 0xFFFF_FFFF
}

/// Scales the raw draw `g` to the range `[0, t]`, as taking the
/// fraction `g / (2^32 - 1)` of `t` does.
pub fn scale_to_target(g: u32, t: u32) -> (r: u32)
    ensures
        r == target_of(g, t),
        r <= t,
{
    proof {
        assert(g as int * t as int <= 0xFFFF_FFFFint * 0xFFFF_FFFF) by (nonlinear_arith)
            requires
                g <= 0xFFFF_FFFFu32,
                t <= 0xFFFF_FFFFu32,
        ;
    }
    let p: u64 = (g as u64) * (t as u64);
    let q: u64 = p / 0xFFFF_FFFFu64;
    proof {
        lemma_mul_inequality(g as int, 0xFFFF_FFFF, t as int);
        lemma_div_is_ordered(g as int * t as int, 0xFFFF_FFFF * (t as int), 0xFFFF_FFFF);
        lemma_div_multiples_vanish(t as int, 0xFFFF_FFFF);
    }
    q as u32
}

/// A pseudo-random value in `[0, t]`: one draw from the generator,
/// scaled to the target bound.
pub fn get_target<P: PRNG>(prng: &mut P, t: u32) -> (r: u32)
    ensures
        r <= t,
{
    let g = prng.get();
    scale_to_target(g, t)
}

/// The word that a draw `g` scales to within the range `low..=high`
/// (the bounds swapped first if given in reverse). The scaled value is
/// `lo + (g / (2^32 - 1)) * (hi - lo + 1)`, which reaches `hi + 1` for
/// the largest draw, capped at the largest 32-bit word.
pub open spec fn range_of(g: u32, low: u32, high: u32) -> int {
    let lo = if high < low { high as int } else { low as int };
    let hi = if high < low { low as int } else { high as int };
    let v = lo + (g * (hi - lo + 1)) / 0xFFFF_FFFF;
    if v > u32::MAX { u32::MAX as int } else { v }
}

/// Scales the raw draw `g` into the range `low..=high`; for the
/// largest draw the result overshoots the upper bound by one.
pub fn scale_to_range(g: u32, low: u32, high: u32) -> (r: u32)
    ensures
        r == range_of(g, low, high),
        (if low <= high { low } else { high }) <= r,
        r as int <= (if low <= high { high as int } else { low as int }) + 1,
{
    let (lo, hi) = if high < low { (high, low) } else { (low, high) };
    let rg: u64 = (hi - lo) as u64 + 1;
    proof {
        assert(g as int * rg as int <= 0xFFFF_FFFFint * 0x1_0000_0000) by (nonlinear_arith)
            requires
                g <= 0xFFFF_FFFFu32,
                rg <= 0x1_0000_0000u64,
        ;
    }
    let add: u64 = ((g as u64) * rg) / 0xFFFF_FFFFu64;
    proof {
        lemma_mul_inequality(g as int, 0xFFFF_FFFF, rg as int);
        lemma_div_is_ordered(g as int * rg as int, 0xFFFF_FFFF * (rg as int), 0xFFFF_FFFF);
        lemma_div_multiples_vanish(rg as int, 0xFFFF_FFFF);
    }
    let v: u64 = lo as u64 + add;
    if v > 0xFFFF_FFFFu64 {
        u32::MAX
    } else {
        v as u32
    }
}

/// A pseudo-random value in `[low, high]` (the bounds swapped first if
/// given in reverse), except that the largest draw overshoots the upper
/// bound by one.
pub fn get_range<P: PRNG>(prng: &mut P, low: u32, high: u32) -> (r: u32)
    ensures
        (if low <= high { low } else { high }) <= r,
        r as int <= (if low <= high { high as int } else { low as int }) + 1,
{
    let g = prng.get();
    scale_to_range(g, low, high)
}

/// Relies on time::precise_time_ns: a clock reading in nanoseconds,
/// about which nothing is promised.
#[verifier::external_body]
fn clock_ns() -> u64 {
    time::precise_time_ns()
}

/// Seeds the generator from the clock: the microsecond count folded
/// into a 32-bit word.
pub fn set_seed_time<P: PRNG>(prng: &mut P) {
    let ns = clock_ns();
    let seed = ((ns / 1000) % 0x1_0000_0000u64) as u32;
    prng.set_seed(seed);
}

/// The scrambled word that the xorshift generator feeds back into its
/// last register: the old first and last registers, mixed by shifted
/// exclusive-ors.
pub open spec fn xorshift_mix(x: u32, v: u32) -> u32 {
    (v ^ (v << 6u32)) ^ ((x ^ (x >> 7u32)) ^ ((x ^ (x >> 7u32)) << 13u32))
}

/// The word the xorshift generator hands out, built from its new
/// second and last registers: `(2y + 1) * v`, taken modulo 2^32.
pub open spec fn xorshift_out(y: u32, v: u32) -> u32 {
    vstd::wrapping::u32_specs::wrapping_mul(
        vstd::wrapping::u32_specs::wrapping_add(
            vstd::wrapping::u32_specs::wrapping_add(y, y),
            1,
        ),
        v,
    )
}

/// The xorshift generator: five 32-bit registers shifted along at each
/// step, the last one refilled with a shifted-exclusive-or mix.
pub struct Xorshift {
    pub m_x: u32,
    pub m_y: u32,
    pub m_z: u32,
    pub m_w: u32,
    pub m_v: u32,
}

impl Xorshift {
    /// A generator seeded with the default seed 10000.
    pub fn new() -> (r: Xorshift)
        ensures
            r.m_x == lcg_nth(10000, 1),
            r.m_y == lcg_nth(10000, 2),
            r.m_z == lcg_nth(10000, 3),
            r.m_w == lcg_nth(10000, 4),
            r.m_v == lcg_nth(10000, 5),
    {
        let mut x = Xorshift { m_x: 0, m_y: 0, m_z: 0, m_w: 0, m_v: 0 };
        x.set_seed(10000);
        x
    }
}

impl PRNG for Xorshift {
    fn get(&mut self) -> (r: u32)
        ensures
            final(self).m_x == old(self).m_y,
            final(self).m_y == old(self).m_z,
            final(self).m_z == old(self).m_w,
            final(self).m_w == old(self).m_v,
            final(self).m_v == xorshift_mix(old(self).m_x, old(self).m_v),
            r == xorshift_out(old(self).m_z, xorshift_mix(old(self).m_x, old(self).m_v)),
    {
        let t = self.m_x ^ (self.m_x >> 7u32);
        self.m_x = self.m_y;
        self.m_y = self.m_z;
        self.m_z = self.m_w;
        self.m_w = self.m_v;
        self.m_v = (self.m_v ^ (self.m_v << 6u32)) ^ (t ^ (t << 13u32));
        self.m_y.wrapping_add(self.m_y).wrapping_add(1).wrapping_mul(self.m_v)
    }

    /// The five registers are filled from a fresh linear-congruential
    /// generator started at `seed`.
    fn set_seed(&mut self, seed: u32)
        ensures
            final(self).m_x == lcg_nth(seed, 1),
            final(self).m_y == lcg_nth(seed, 2),
            final(self).m_z == lcg_nth(seed, 3),
            final(self).m_w == lcg_nth(seed, 4),
            final(self).m_v == lcg_nth(seed, 5),
    {
        let mut lcg = LCG::new();
        lcg.set_seed(seed);
        self.m_x = lcg.get();
        self.m_y = lcg.get();
        self.m_z = lcg.get();
        self.m_w = lcg.get();
        self.m_v = lcg.get();
        proof {
            assert(lcg_nth(seed, 0) == seed);
            assert(lcg_nth(seed, 1) == lcg_next(lcg_nth(seed, 0)));
            assert(lcg_nth(seed, 2) == lcg_next(lcg_nth(seed, 1)));
            assert(lcg_nth(seed, 3) == lcg_next(lcg_nth(seed, 2)));
            assert(lcg_nth(seed, 4) == lcg_next(lcg_nth(seed, 3)));
            assert(lcg_nth(seed, 5) == lcg_next(lcg_nth(seed, 4)));
        }
    }
}

/// The new first register of the KISS generator: a multiply-with-carry
/// step on the low and high halves of the old one.
pub open spec fn kiss_z_next(z: u32) -> u32 {
    (36969 * (z & 0xFFFFu32) + (z >> 16u32)) as u32
}

/// The new second register of the KISS generator: a multiply-with-carry
/// step on the low and high halves of the old one.
pub open spec fn kiss_w_next(w: u32) -> u32 {
    (18000 * (w & 0xFFFFu32) + (w >> 16u32)) as u32
}

/// The new congruential register of the KISS generator:
/// `69069 * jcong + 1234567`, taken modulo 2^32.
pub open spec fn kiss_jcong_next(jcong: u32) -> u32 {
    vstd::wrapping::u32_specs::wrapping_add(
        vstd::wrapping::u32_specs::wrapping_mul(69069, jcong),
        1234567,
    )
}

/// The new shift register of the KISS generator: three shifted
/// exclusive-ors folded into the old one.
pub open spec fn kiss_jsr_next(jsr: u32) -> u32 {
    let a = jsr ^ (jsr << 17u32);
    let b = a ^ (a >> 13u32);
    b ^ (b << 5u32)
}

/// The word the KISS generator hands out, built from its new
/// registers: the two multiply-with-carry halves recombined, folded
/// with the congruential register, plus the shift register, modulo 2^32.
pub open spec fn kiss_out(z: u32, w: u32, jsr: u32, jcong: u32) -> u32 {
    vstd::wrapping::u32_specs::wrapping_add(
        vstd::wrapping::u32_specs::wrapping_add(z << 16u32, w) ^ jcong,
        jsr,
    )
}

/// The KISS generator: a multiply-with-carry pair, a congruential
/// register and a shift register, stepped together and folded into one
/// word.
pub struct KISS {
    pub z: u32,
    pub w: u32,
    pub jsr: u32,
    pub jcong: u32,
}

impl KISS {
    /// A generator seeded with the default seed 10000.
    pub fn new() -> (r: KISS)
        ensures
            r.z == lcg_nth(10000, 1),
            r.w == lcg_nth(10000, 2),
            r.jsr == lcg_nth(10000, 3),
            r.jcong == lcg_nth(10000, 4),
    {
        let mut k = KISS { z: 0, w: 0, jsr: 0, jcong: 0 };
        k.set_seed(10000);
        k
    }
}

impl PRNG for KISS {
    fn get(&mut self) -> (r: u32)
        ensures
            final(self).z == kiss_z_next(old(self).z),
            final(self).w == kiss_w_next(old(self).w),
            final(self).jsr == kiss_jsr_next(old(self).jsr),
            final(self).jcong == kiss_jcong_next(old(self).jcong),
            r == kiss_out(final(self).z, final(self).w, final(self).jsr, final(self).jcong),
    {
        proof {
            assert(forall|a: u32| a & 0xFFFFu32 <= 0xFFFF && a >> 16u32 <= 0xFFFF)
                by (bit_vector);
        }
        self.z = 36969 * (self.z & 0xFFFF) + (self.z >> 16u32);
        self.w = 18000 * (self.w & 0xFFFF) + (self.w >> 16u32);
        let mwc = (self.z << 16u32).wrapping_add(self.w);
        self.jcong = 69069u32.wrapping_mul(self.jcong).wrapping_add(1234567);
        self.jsr = self.jsr ^ (self.jsr << 17u32);
        self.jsr = self.jsr ^ (self.jsr >> 13u32);
        self.jsr = self.jsr ^ (self.jsr << 5u32);
        (mwc ^ self.jcong).wrapping_add(self.jsr)
    }

    /// The four registers are filled from a fresh linear-congruential
    /// generator started at `seed`.
    fn set_seed(&mut self, seed: u32)
        ensures
            final(self).z == lcg_nth(seed, 1),
            final(self).w == lcg_nth(seed, 2),
            final(self).jsr == lcg_nth(seed, 3),
            final(self).jcong == lcg_nth(seed, 4),
    {
        let mut lcg = LCG::new();
        lcg.set_seed(seed);
        self.z = lcg.get();
        self.w = lcg.get();
        self.jsr = lcg.get();
        self.jcong = lcg.get();
        proof {
            assert(lcg_nth(seed, 0) == seed);
            assert(lcg_nth(seed, 1) == lcg_next(lcg_nth(seed, 0)));
            assert(lcg_nth(seed, 2) == lcg_next(lcg_nth(seed, 1)));
            assert(lcg_nth(seed, 3) == lcg_next(lcg_nth(seed, 2)));
            assert(lcg_nth(seed, 4) == lcg_next(lcg_nth(seed, 3)));
        }
    }
}

/// The word that one multiply-with-carry step with multiplier
/// 809430660 stores and hands out: the low half of `809430660 * q + c`.
pub open spec fn mwc_word(q: u32, c: u32) -> u32 {
    ((809430660 * q + c) % 0x1_0000_0000) as u32
}

/// The carry that one multiply-with-carry step with multiplier
/// 809430660 keeps: the high half of `809430660 * q + c`.
pub open spec fn mwc_carry(q: u32, c: u32) -> u32 {
    ((809430660 * q + c) / 0x1_0000_0000) as u32
}

/// A multiply-with-carry generator over a table of 256 lagged words and
/// a carry. The walking index starts at 255, so the first step works on
/// the last table entry and stores into the first.
pub struct MWC256 {
    pub m_q: [u32; 256],
    pub c: u32,
    pub i: u8,
}

impl MWC256 {
    /// A generator seeded with the default seed 10000.
    pub fn new() -> (r: MWC256)
        ensures
            r.i == 255u8,
            forall|k: int| 0 <= k < 256 ==> r.m_q@[k] == lcg_nth(10000, (k + 1) as nat),
            r.c == target_of(lcg_nth(10000, 257), 809430660),
    {
        let mut m = MWC256 { m_q: [0u32; 256], c: 0, i: 255 };
        m.set_seed(10000);
        m
    }
}

impl PRNG for MWC256 {
    fn get(&mut self) -> (r: u32)
        ensures
            final(self).i == vstd::wrapping::u8_specs::wrapping_add(old(self).i, 1),
            final(self).c == mwc_carry(old(self).m_q@[old(self).i as int], old(self).c),
            final(self).m_q@ == old(self).m_q@.update(
                final(self).i as int,
                mwc_word(old(self).m_q@[old(self).i as int], old(self).c),
            ),
            r == mwc_word(old(self).m_q@[old(self).i as int], old(self).c),
    {
        let q = self.m_q[self.i as usize];
        let t: u64 = 809430660u64 * (q as u64) + (self.c as u64);
        self.i = self.i.wrapping_add(1);
        proof {
            lemma_u64_shr_is_div(t, 32);
            lemma2_to64();
            lemma_multiply_divide_lt(t as int, 0x1_0000_0000, 0x1_0000_0000);
        }
        self.c = (t >> 32u64) as u32;
        let w = (t % 0x1_0000_0000u64) as u32;
        self.m_q[self.i as usize] = w;
        w
    }

    /// The table is filled from a fresh linear-congruential generator
    /// started at `seed`, and the carry scaled from one further draw;
    /// the walking index is left where it stood.
    fn set_seed(&mut self, seed: u32)
        ensures
            forall|k: int| 0 <= k < 256 ==> final(self).m_q@[k] == lcg_nth(seed, (k + 1) as nat),
            final(self).c == target_of(lcg_nth(seed, 257), 809430660),
            final(self).i == old(self).i,
    {
        let mut lcg = LCG::new();
        lcg.set_seed(seed);
        let mut j: usize = 0;
        while j < 256
            invariant
                j <= 256,
                lcg.m_state == lcg_nth(seed, j as nat),
                forall|k: int| 0 <= k < j ==> self.m_q@[k] == lcg_nth(seed, (k + 1) as nat),
                self.i == old(self).i,
            decreases 256 - j,
        {
            let v = lcg.get();
            proof {
                assert(lcg_nth(seed, (j + 1) as nat) == lcg_next(lcg_nth(seed, j as nat)));
            }
            self.m_q[j] = v;
            j += 1;
        }
        let g = lcg.get();
        proof {
            assert(lcg_nth(seed, 257) == lcg_next(lcg_nth(seed, 256)));
        }
        self.c = scale_to_target(g, 809430660);
    }
}

/// The table index that one step of the complementary
/// multiply-with-carry generator works on: the old index moved one
/// place around the table of 4096 entries.
pub open spec fn cmwc_index(i: u16) -> int {
    (i + 1) % 4096
}

/// The raw sum that one complementary multiply-with-carry step forms:
/// the low half of `18782 * q + c`, plus its high half as new carry.
pub open spec fn cmwc_t2(q: u32, c: u32) -> int {
    let t = 18782 * q + c;
    t % 0x1_0000_0000 + t / 0x1_0000_0000
}

/// The carry that one complementary multiply-with-carry step keeps:
/// the high half of `18782 * q + c`, stepped up once when the raw sum
/// spills over the modulus.
pub open spec fn cmwc_new_c(q: u32, c: u32) -> u32 {
    let t = 18782 * q + c;
    if cmwc_t2(q, c) > 0xFFFF_FFFE {
        (t / 0x1_0000_0000 + 1) as u32
    } else {
        (t / 0x1_0000_0000) as u32
    }
}

/// The word that one complementary multiply-with-carry step stores and
/// hands out: the complement of the raw sum with respect to 2^32 - 2.
pub open spec fn cmwc_new_q(q: u32, c: u32) -> u32 {
    let t2 = cmwc_t2(q, c);
    if t2 > 0xFFFF_FFFE {
        (0xFFFF_FFFE - (t2 - 0xFFFF_FFFF)) as u32
    } else {
        (0xFFFF_FFFE - t2) as u32
    }
}

/// A complementary multiply-with-carry generator over a table of 4096
/// lagged words and a carry. The walking index starts at 2095.
pub struct CMWC4096 {
    pub m_q: [u32; 4096],
    pub c: u32,
    pub i: u16,
}

impl CMWC4096 {
    /// A generator seeded with the default seed 10000.
    pub fn new() -> (r: CMWC4096)
        ensures
            r.i == 2095u16,
            forall|k: int| 0 <= k < 4096 ==> r.m_q@[k] == lcg_nth(10000, (k + 1) as nat),
            r.c == target_of(lcg_nth(10000, 4097), 18781),
    {
        let mut m = CMWC4096 { m_q: [0u32; 4096], c: 0, i: 2095 };
        m.set_seed(10000);
        m
    }
}

impl PRNG for CMWC4096 {
    fn get(&mut self) -> (r: u32)
        ensures
            final(self).i == cmwc_index(old(self).i),
            final(self).c == cmwc_new_c(old(self).m_q@[cmwc_index(old(self).i)], old(self).c),
            final(self).m_q@ == old(self).m_q@.update(
                cmwc_index(old(self).i),
                cmwc_new_q(old(self).m_q@[cmwc_index(old(self).i)], old(self).c),
            ),
            r == cmwc_new_q(old(self).m_q@[cmwc_index(old(self).i)], old(self).c),
    {
        let idx: usize = (self.i as usize + 1) % 4096;
        let q = self.m_q[idx];
        let t: u64 = 18782u64 * (q as u64) + (self.c as u64);
        proof {
            lemma_u64_shr_is_div(t, 32);
            lemma2_to64();
            lemma_multiply_divide_lt(t as int, 0x1_0000_0000, 18783);
        }
        let carry = (t >> 32u64) as u32;
        let mut t2: u64 = (t % 0x1_0000_0000u64) + (carry as u64);
        if t2 > 0xFFFF_FFFEu64 {
            self.c = carry + 1;
            t2 = t2 - 0xFFFF_FFFFu64;
        } else {
            self.c = carry;
        }
        let w = (0xFFFF_FFFEu64 - t2) as u32;
        self.m_q[idx] = w;
        self.i = idx as u16;
        w
    }

    /// The table is filled from a fresh linear-congruential generator
    /// started at `seed`, and the carry scaled from one further draw;
    /// the walking index is left where it stood.
    fn set_seed(&mut self, seed: u32)
        ensures
            forall|k: int| 0 <= k < 4096 ==> final(self).m_q@[k] == lcg_nth(seed, (k + 1) as nat),
            final(self).c == target_of(lcg_nth(seed, 4097), 18781),
            final(self).i == old(self).i,
    {
        let mut lcg = LCG::new();
        lcg.set_seed(seed);
        let mut j: usize = 0;
        while j < 4096
            invariant
                j <= 4096,
                lcg.m_state == lcg_nth(seed, j as nat),
                forall|k: int| 0 <= k < j ==> self.m_q@[k] == lcg_nth(seed, (k + 1) as nat),
                self.i == old(self).i,
            decreases 4096 - j,
        {
            let v = lcg.get();
            proof {
                assert(lcg_nth(seed, (j + 1) as nat) == lcg_next(lcg_nth(seed, j as nat)));
            }
            self.m_q[j] = v;
            j += 1;
        }
        let g = lcg.get();
        proof {
            assert(lcg_nth(seed, 4097) == lcg_next(lcg_nth(seed, 4096)));
        }
        self.c = scale_to_target(g, 18781);
    }
}

} // verus!
