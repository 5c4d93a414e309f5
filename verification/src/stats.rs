use vstd::prelude::*;
use vstd::arithmetic::div_mod::lemma_fundamental_div_mod;
use vstd::arithmetic::div_mod::lemma_mod_bound;
use vstd::arithmetic::div_mod::lemma_mod_multiples_vanish;
use vstd::arithmetic::div_mod::lemma_small_mod;
use vstd::arithmetic::mul::lemma_mul_is_distributive_add;
use vstd::arithmetic::mul::lemma_mul_is_distributive_add_other_way;

verus! {

/// The sum of a sequence of nanosecond samples.
pub open spec fn sum_nanos(s: Seq<u64>) -> int
    decreases s.len(),
{
    if s.len() == 0 {
        0
    } else {
        sum_nanos(s.drop_last()) + s.last()
    }
}

/// A sum of samples is non-negative and at most `len` times the largest
/// possible sample.
pub proof fn lemma_sum_nanos_bounds(s: Seq<u64>)
    ensures
        0 <= sum_nanos(s) <= s.len() * (u64::MAX as int),
    decreases s.len(),
{
    if s.len() == 0 {
    } else {
        lemma_sum_nanos_bounds(s.drop_last());
        lemma_mul_is_distributive_add_other_way(u64::MAX as int, s.len() - 1, 1);
    }
}

/// Summing distributes over concatenation.
pub proof fn lemma_sum_nanos_append(a: Seq<u64>, b: Seq<u64>)
    ensures
        sum_nanos(a + b) == sum_nanos(a) + sum_nanos(b),
    decreases b.len(),
{
    if b.len() == 0 {
        assert(a + b =~= a);
    } else {
        lemma_sum_nanos_append(a, b.drop_last());
        assert((a + b).drop_last() =~= a + b.drop_last());
    }
}

/// Extending a prefix sum by one element adds exactly that element.
pub proof fn lemma_sum_nanos_take_step(s: Seq<u64>, i: int)
    requires
        0 <= i < s.len(),
    ensures
        sum_nanos(s.take(i + 1)) == sum_nanos(s.take(i)) + s[i],
{
    assert(s.take(i + 1).drop_last() =~= s.take(i));
}

/// The value that slot `j` of a circular buffer of capacity `len` holds after
/// the samples `h` have been written into it round-robin: the latest sample
/// whose position in `h` is congruent to `j`, or zero while no sample has
/// reached that slot yet.
pub open spec fn slot_value(h: Seq<u64>, len: int, j: int) -> u64 {
    let n = h.len() as int;
    if n < len {
        if j < n {
            h[j]
        } else {
            0u64
        }
    } else {
        let r = n % len;
        if j < r {
            h[n - r + j]
        } else {
            h[n - len + (j - r)]
        }
    }
}

/// `buf` holds exactly what a circular buffer holds after the samples `h`
/// have been written into it round-robin.
pub open spec fn buffer_matches(h: Seq<u64>, buf: Seq<u64>) -> bool {
    forall|j: int| 0 <= j < buf.len() ==> buf[j] == slot_value(h, buf.len() as int, j)
}

/// The most recent `len` samples of `h`.
pub open spec fn recent_window(h: Seq<u64>, len: int) -> Seq<u64> {
    h.subrange(h.len() - len, h.len() as int)
}

/// How a remainder steps when the dividend grows by one.
pub proof fn lemma_mod_step(n: int, len: int)
    requires
        0 <= n,
        1 <= len,
    ensures
        (n + 1) % len == if n % len == len - 1 {
            0int
        } else {
            n % len + 1
        },
{
    lemma_mod_bound(n, len);
    lemma_fundamental_div_mod(n, len);
    if n % len == len - 1 {
        assert(n + 1 == len * (n / len + 1) + 0) by {
            lemma_mul_is_distributive_add(len, n / len, 1);
        }
        lemma_mod_multiples_vanish(n / len + 1, 0, len);
        lemma_small_mod(0nat, len as nat);
    } else {
        lemma_mod_multiples_vanish(n / len, n % len + 1, len);
        lemma_small_mod((n % len + 1) as nat, len as nat);
    }
}

/// Writing the next sample `d` into the circular buffer keeps the buffer in
/// step with the sample history: the write lands on the slot that the oldest
/// retained sample occupied, and every other slot is untouched.
pub proof fn lemma_buffer_matches_push(h: Seq<u64>, buf: Seq<u64>, d: u64)
    requires
        1 <= buf.len(),
        buffer_matches(h, buf),
    ensures
        buffer_matches(
            h.push(d),
            buf.update((h.len() as int) % (buf.len() as int), d),
        ),
{
    let len = buf.len() as int;
    let n = h.len() as int;
    let r = n % len;
    lemma_mod_bound(n, len);
    lemma_mod_step(n, len);
    let h2 = h.push(d);
    let buf2 = buf.update(r, d);
    if n < len {
        lemma_small_mod(n as nat, len as nat);
    }
    assert forall|j: int| 0 <= j < len implies buf2[j] == slot_value(h2, len, j) by {
        if n + 1 < len {
            // still filling: slot n takes d, slots above stay zero
            assert(r == n);
        } else if n < len {
            // the write that completes the first pass: n == len - 1
            assert(r == n);
            assert((n + 1) % len == 0);
        } else {
            // steady state: the remainder walks forward by one, or wraps
            if j != r {
                assert(buf2[j] == slot_value(h, len, j));
            }
        }
    }
}

/// Once the buffer has completed a pass, its contents are a rotation of the
/// most recent `len` samples, so both sum to the same total: the rolling
/// window retains exactly the newest samples and evicts the oldest.
pub proof fn lemma_buffer_sums_recent(h: Seq<u64>, buf: Seq<u64>)
    requires
        1 <= buf.len() <= h.len(),
        buffer_matches(h, buf),
    ensures
        sum_nanos(buf) == sum_nanos(recent_window(h, buf.len() as int)),
{
    let len = buf.len() as int;
    let n = h.len() as int;
    let r = n % len;
    lemma_mod_bound(n, len);
    let s = recent_window(h, len);
    let newest = s.subrange(len - r, len);
    let older = s.subrange(0, len - r);
    assert forall|j: int| 0 <= j < len implies buf[j] == (newest + older)[j] by {
        if j < r {
            assert(buf[j] == slot_value(h, len, j));
            assert((newest + older)[j] == s[len - r + j]);
        } else {
            assert(buf[j] == slot_value(h, len, j));
            assert((newest + older)[j] == s[j - r]);
        }
    }
    assert(buf =~= newest + older);
    assert(s =~= older + newest);
    lemma_sum_nanos_append(newest, older);
    lemma_sum_nanos_append(older, newest);
}

} // verus!
