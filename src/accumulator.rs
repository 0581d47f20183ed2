use vstd::prelude::*;
use vstd::arithmetic::div_mod::{
    lemma_add_mod_noop, lemma_mod_add_multiples_vanish, lemma_mod_mod, lemma_mod_multiples_vanish,
    lemma_mod_sub_multiples_vanish, lemma_small_mod,
};
use vstd::wrapping::i64_specs;

verus! {

/// Two to the power of sixty-four: the number of values of a 64-bit integer.
pub open spec fn modulus_64() -> int {
    0x1_0000_0000_0000_0000int
}

/// Two to the power of thirty-two: the number of values of a 32-bit integer.
pub open spec fn modulus_32() -> int {
    0x1_0000_0000int
}

/// The 64-bit two's-complement integer congruent to `x`.
pub open spec fn wrap_i64(x: int) -> int {
    (x + modulus_64() / 2) % modulus_64() - modulus_64() / 2
}

/// The 32-bit two's-complement integer congruent to `x`.
pub open spec fn wrap_i32(x: int) -> int {
    (x + modulus_32() / 2) % modulus_32() - modulus_32() / 2
}

/// The accumulator: one signed 64-bit cell that wraps on overflow. Callers
/// that share it serialise their calls (a lock around it), so each add is one step.
pub struct Accumulator {
    value: i64,
}

impl View for Accumulator {
    type V = int;

    closed spec fn view(&self) -> int {
        self.value as int
    }
}

impl Accumulator {
    /// A fresh accumulator holding zero.
    pub fn new() -> (r: Accumulator)
        ensures
            r@ == 0,
    {
        Accumulator { value: 0 }
    }

    /// The current value as a 32-bit integer (the low 32 bits, two's complement).
    pub fn read(&self) -> (r: i32)
        ensures
            r == wrap_i32(self@),
            i32::MIN <= self@ <= i32::MAX ==> r == self@,
    {
        proof {
            if i32::MIN <= self@ <= i32::MAX {
                lemma_small_mod((self@ + modulus_32() / 2) as nat, modulus_32() as nat);
            }
        }
        low_i32(self.value)
    }

    /// Adds `by` to the stored value, wrapping on overflow, and returns the
    /// new value as a 32-bit integer.
    pub fn add(&mut self, by: i32) -> (r: i32)
        ensures
            final(self)@ == wrap_i64(old(self)@ + by),
            r == wrap_i32(final(self)@),
            r == wrap_i32(old(self)@ + by),
            by == 0 ==> final(self)@ == old(self)@ && r == wrap_i32(old(self)@),
    {
        proof {
            lemma_wrapping_add_i64(self.value, by as i64);
            lemma_wrap_i32_of_wrap_i64(self@ + by);
            lemma_wrap_i64_in_range(self@);
        }
        self.value = self.value.wrapping_add(by as i64);
        low_i32(self.value)
    }
}

/// The low 32 bits of `v`, read as a two's-complement integer.
fn low_i32(v: i64) -> (r: i32)
    ensures
        r == wrap_i32(v as int),
{
    let t: u128 = (v as i128 + 0x8000_0000_8000_0000i128) as u128;
    let w: u128 = t % 0x1_0000_0000u128;
    proof {
        assert(t == (v + modulus_32() / 2) + modulus_32() * 0x8000_0000);
        lemma_mod_multiples_vanish(0x8000_0000, v + modulus_32() / 2, modulus_32());
    }
    (w as i64 - 0x8000_0000i64) as i32
}

/// A value already in the 64-bit range is its own wrap.
pub proof fn lemma_wrap_i64_in_range(x: int)
    requires
        i64::MIN <= x <= i64::MAX,
    ensures
        wrap_i64(x) == x,
{
    lemma_small_mod((x + modulus_64() / 2) as nat, modulus_64() as nat);
}

/// `wrapping_add` on `i64` is the wrap of the exact sum.
proof fn lemma_wrapping_add_i64(x: i64, y: i64)
    ensures
        i64_specs::wrapping_add(x, y) == wrap_i64(x + y),
{
    let s = x + y;
    let m = modulus_64();
    if s > i64::MAX {
        lemma_small_mod((s - m + m / 2) as nat, m as nat);
        lemma_mod_add_multiples_vanish(s - m + m / 2, m);
    } else if s < i64::MIN {
        lemma_small_mod((s + m + m / 2) as nat, m as nat);
        lemma_mod_sub_multiples_vanish(s + m + m / 2, m);
    } else {
        lemma_small_mod((s + m / 2) as nat, m as nat);
    }
}

/// Taking the low 32 bits after the low 64 bits is taking the low 32 bits.
pub proof fn lemma_wrap_i32_of_wrap_i64(x: int)
    ensures
        wrap_i32(wrap_i64(x)) == wrap_i32(x),
{
    let m64 = modulus_64();
    let m32 = modulus_32();
    let a = x + m64 / 2;
    assert(m64 == m32 * m32);
    lemma_mod_mod(a, m32, m32);
    // wrap_i64(x) + m32 / 2 == a % m64 - m64 / 2 + m32 / 2
    let b = a % m64 - m64 / 2 + m32 / 2;
    assert(b == a % m64 + m32 * (-0x8000_0000) + m32 / 2);
    lemma_mod_multiples_vanish(-0x8000_0000, a % m64 + m32 / 2, m32);
    lemma_add_mod_noop(a % m64, m32 / 2, m32);
    lemma_add_mod_noop(a, m32 / 2, m32);
    assert(a == x + m32 / 2 + m32 * 0x8000_0000 - m32 / 2);
    lemma_mod_multiples_vanish(0x8000_0000, x + m32 / 2 - m32 / 2 + m32 / 2, m32);
}

/// The sum of `deltas`.
pub open spec fn sum_of(deltas: Seq<i32>) -> int
    decreases deltas.len(),
{
    if deltas.len() == 0 {
        0
    } else {
        sum_of(deltas.drop_last()) + deltas.last()
    }
}

/// The value held after `add` has been applied with each of `deltas`, in
/// that order, to an accumulator holding `start`.
pub open spec fn after_adds(start: int, deltas: Seq<i32>) -> int
    decreases deltas.len(),
{
    if deltas.len() == 0 {
        start
    } else {
        wrap_i64(after_adds(start, deltas.drop_last()) + deltas.last())
    }
}

/// The value after a run of adds is the start plus the sum of the deltas,
/// wrapped; what a read then reports is that sum's low 32 bits, and the sum
/// itself whenever it fits in 32 bits.
pub proof fn lemma_adds_sum(start: int, deltas: Seq<i32>)
    requires
        i64::MIN <= start <= i64::MAX,
    ensures
        after_adds(start, deltas) == wrap_i64(start + sum_of(deltas)),
        wrap_i32(after_adds(start, deltas)) == wrap_i32(start + sum_of(deltas)),
        start == 0 && i32::MIN <= sum_of(deltas) <= i32::MAX ==> wrap_i32(after_adds(0, deltas))
            == sum_of(deltas),
    decreases deltas.len(),
{
    let m = modulus_64();
    if deltas.len() == 0 {
        lemma_wrap_i64_in_range(start);
    } else {
        let rest = deltas.drop_last();
        let d = deltas.last() as int;
        lemma_adds_sum(start, rest);
        // wrap_i64(wrap_i64(start + sum(rest)) + d) == wrap_i64(start + sum(rest) + d)
        let a = start + sum_of(rest) + m / 2;
        lemma_add_mod_noop(a, d, m);
        lemma_add_mod_noop(a % m, d, m);
        lemma_mod_twice(a, m);
        assert(wrap_i64(start + sum_of(rest)) + d + m / 2 == a % m + d);
    }
    lemma_wrap_i32_of_wrap_i64(start + sum_of(deltas));
    if start == 0 && i32::MIN <= sum_of(deltas) <= i32::MAX {
        lemma_small_mod((sum_of(deltas) + modulus_32() / 2) as nat, modulus_32() as nat);
    }
}

proof fn lemma_mod_twice(a: int, m: int)
    requires
        0 < m,
    ensures
        (a % m) % m == a % m,
{
    lemma_small_mod((a % m) as nat, m as nat);
}

proof fn lemma_sum_remove(deltas: Seq<i32>, i: int)
    requires
        0 <= i < deltas.len(),
    ensures
        sum_of(deltas) == sum_of(deltas.remove(i)) + deltas[i],
    decreases deltas.len(),
{
    if i == deltas.len() - 1 {
        assert(deltas.remove(i) =~= deltas.drop_last());
    } else {
        lemma_sum_remove(deltas.drop_last(), i);
        assert(deltas.remove(i).drop_last() =~= deltas.drop_last().remove(i));
    }
}

/// Reordering the deltas does not change the sum.
pub proof fn lemma_sum_permutation(a: Seq<i32>, b: Seq<i32>)
    requires
        a.to_multiset() =~= b.to_multiset(),
    ensures
        sum_of(a) == sum_of(b),
    decreases a.len(),
{
    broadcast use vstd::seq_lib::group_to_multiset_ensures;

    if a.len() == 0 {
        assert(a.to_multiset().len() == 0);
        assert(b.to_multiset().len() == b.len());
        assert(b =~= Seq::<i32>::empty());
    } else {
        let x = a.last();
        let rest = a.drop_last();
        assert(a =~= rest.push(x));
        assert(a.to_multiset().count(x) > 0);
        assert(b.contains(x));
        let i = choose|i: int| 0 <= i < b.len() && b[i] == x;
        assert(b.remove(i).to_multiset() =~= rest.to_multiset());
        lemma_sum_permutation(rest, b.remove(i));
        lemma_sum_remove(b, i);
    }
}

/// Adds applied in any order leave the same value: however concurrent adds
/// are serialised, the final value is the same.
pub proof fn lemma_adds_order_independent(start: int, a: Seq<i32>, b: Seq<i32>)
    requires
        i64::MIN <= start <= i64::MAX,
        a.to_multiset() =~= b.to_multiset(),
    ensures
        after_adds(start, a) == after_adds(start, b),
        after_adds(start, a) == wrap_i64(start + sum_of(b)),
{
    lemma_sum_permutation(a, b);
    lemma_adds_sum(start, a);
    lemma_adds_sum(start, b);
}

} // verus!
