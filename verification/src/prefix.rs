use vstd::prelude::*;
use vstd::arithmetic::power2::{pow2, lemma_pow2_adds, lemma_pow2_pos, lemma_pow2_strictly_increases, lemma2_to64};
use vstd::arithmetic::div_mod::{lemma_fundamental_div_mod, lemma_mod_multiples_basic, lemma_breakdown};
use crate::errors::ErrorKind;

verus! {

/// One allocation out of the delegated pool: a sub-prefix `addr/len`
/// owned by workload `id`.
#[derive(Clone, Copy, Debug, PartialEq, Eq, Structural)]
pub struct PrefixEntry {
    pub id: u128,
    pub addr: u128,
    pub len: u8,
}

/// Sub-allocates fixed-length IPv6 prefixes out of a delegated pool.
/// Addresses are held as 128-bit integers in network bit order.
pub struct PrefixAllocator {
    pub base: u128,
    pub prefix_len: u8,
    pub allocated: Vec<PrefixEntry>,
}

/// Number of addresses covered by a prefix of the given length.
pub open spec fn prefix_size(len: u8) -> nat {
    pow2((128 - len) as nat)
}

/// Whether `addr` is aligned to a prefix boundary of the given length.
pub open spec fn prefix_aligned(addr: u128, len: u8) -> bool {
    addr as nat % prefix_size(len) == 0
}

/// Whether the two prefixes `a/la` and `b/lb` share any address.
/// For aligned prefixes this is exactly "one contains the other".
pub open spec fn prefixes_overlap(a: u128, la: u8, b: u128, lb: u8) -> bool {
    a < b + prefix_size(lb) && b < a + prefix_size(la)
}

/// Whether `a/len` is a well-placed sub-prefix of `base/plen`:
/// aligned to its own length and contained in the delegated prefix.
pub open spec fn is_sub_prefix_of(base: u128, plen: u8, a: u128, len: u8) -> bool {
    &&& plen <= len <= 128
    &&& prefix_aligned(a, len)
    &&& base <= a
    &&& a + prefix_size(len) <= base + prefix_size(plen)
}

/// Every entry of `s` is a well-placed sub-prefix of `base/plen`.
pub open spec fn entries_placed(base: u128, plen: u8, s: Seq<PrefixEntry>) -> bool {
    forall|i: int|
        0 <= i < s.len() ==> is_sub_prefix_of(base, plen, (#[trigger] s[i]).addr, s[i].len)
}

/// No two entries of `s` carry the same workload id.
pub open spec fn ids_unique(s: Seq<PrefixEntry>) -> bool {
    forall|i: int, j: int|
        0 <= i < s.len() && 0 <= j < s.len() && i != j ==> (#[trigger] s[i]).id != (
        #[trigger] s[j]).id
}

/// No two entries of `s` share an address.
pub open spec fn pairwise_disjoint(s: Seq<PrefixEntry>) -> bool {
    forall|i: int, j: int|
        0 <= i < s.len() && 0 <= j < s.len() && i != j ==> !prefixes_overlap(
            (#[trigger] s[i]).addr,
            s[i].len,
            (#[trigger] s[j]).addr,
            s[j].len,
        )
}

/// Some entry of `s` owns workload `id`.
pub open spec fn seq_has_id(s: Seq<PrefixEntry>, id: u128) -> bool {
    exists|i: int| 0 <= i < s.len() && (#[trigger] s[i]).id == id
}

/// The prefix `a/len` collides with some entry of `s`.
pub open spec fn seq_conflicts(s: Seq<PrefixEntry>, a: u128, len: u8) -> bool {
    exists|i: int|
        0 <= i < s.len() && prefixes_overlap(a, len, (#[trigger] s[i]).addr, s[i].len)
}

/// Pool invariant over the abstract state.
pub open spec fn pool_wf(base: u128, plen: u8, s: Seq<PrefixEntry>) -> bool {
    &&& 1 <= plen <= 128
    &&& prefix_aligned(base, plen)
    &&& entries_placed(base, plen, s)
    &&& ids_unique(s)
    &&& pairwise_disjoint(s)
}

impl PrefixAllocator {
    /// Pool invariant: the delegated prefix is well-formed, every entry is a
    /// sub-prefix of it, ids are unique, and entries are pairwise disjoint.
    pub open spec fn wf(self) -> bool {
        pool_wf(self.base, self.prefix_len, self.allocated@)
    }

    /// Whether some entry owns workload `id`.
    pub open spec fn has_id(self, id: u128) -> bool {
        seq_has_id(self.allocated@, id)
    }

    /// Whether `a/len` collides with an existing allocation.
    pub open spec fn conflicts(self, a: u128, len: u8) -> bool {
        seq_conflicts(self.allocated@, a, len)
    }

    /// Whether `a/len` is a well-placed sub-prefix of the delegated pool.
    pub open spec fn is_sub_prefix(self, a: u128, len: u8) -> bool {
        is_sub_prefix_of(self.base, self.prefix_len, a, len)
    }

    /// A fresh, empty allocator over the delegated prefix `base/prefix_len`.
    pub fn new(base: u128, prefix_len: u8) -> (r: PrefixAllocator)
        requires
            1 <= prefix_len <= 128,
            prefix_aligned(base, prefix_len),
        ensures
            r.wf(),
            r.base == base,
            r.prefix_len == prefix_len,
            r.allocated@ =~= Seq::<PrefixEntry>::empty(),
    {
        PrefixAllocator { base, prefix_len, allocated: Vec::new() }
    }

    /// How many entries are currently allocated.
    pub fn len(&self) -> (r: usize)
        ensures
            r == self.allocated.len(),
    {
        self.allocated.len()
    }

    /// Hands out the lowest free sub-prefix of length `sub_len`, or returns
    /// the existing allocation when `id` already holds one (idempotent).
    /// Returns `PoolExhausted` exactly when every well-placed sub-prefix of
    /// that length collides with an existing allocation.
    pub fn allocate(&mut self, id: u128, sub_len: u8) -> (r: Result<u128, ErrorKind>)
        requires
            old(self).wf(),
            old(self).prefix_len <= sub_len <= 128,
        ensures
            final(self).wf(),
            final(self).base == old(self).base,
            final(self).prefix_len == old(self).prefix_len,
            old(self).has_id(id) ==> final(self).allocated@ == old(self).allocated@
                && exists|i: int|
                0 <= i < old(self).allocated.len() && (#[trigger] old(self).allocated[i]).id == id
                    && r == Ok::<u128, ErrorKind>(old(self).allocated[i].addr),
            !old(self).has_id(id) ==> match r {
                Ok(a) => {
                    &&& old(self).is_sub_prefix(a, sub_len)
                    &&& !old(self).conflicts(a, sub_len)
                    &&& forall|a2: u128|
                        #[trigger] old(self).is_sub_prefix(a2, sub_len) && a2 < a ==> old(
                            self,
                        ).conflicts(a2, sub_len)
                    &&& final(self).allocated@ == old(self).allocated@.push(
                        PrefixEntry { id, addr: a, len: sub_len },
                    )
                },
                Err(k) => {
                    &&& k == ErrorKind::PoolExhausted
                    &&& final(self).allocated@ == old(self).allocated@
                    &&& forall|a2: u128|
                        #[trigger] old(self).is_sub_prefix(a2, sub_len) ==> old(self).conflicts(
                            a2,
                            sub_len,
                        )
                },
            },
    {
        let base = self.base;
        let plen = self.prefix_len;
        let n = self.allocated.len();
        let mut k: usize = 0;
        while k < n
            invariant
                old(self).wf(),
                n == self.allocated.len(),
                self.base == old(self).base,
                self.prefix_len == old(self).prefix_len,
                self.allocated@ == old(self).allocated@,
                forall|j: int| 0 <= j < k ==> (#[trigger] self.allocated@[j]).id != id,
            decreases n - k,
        {
            if self.allocated[k].id == id {
                proof {
                    assert(old(self).allocated@[k as int].id == id);
                }
                return Ok(self.allocated[k].addr);
            }
            k = k + 1;
        }
        assert(!seq_has_id(old(self).allocated@, id));

        let stride = pow2_u128(128 - sub_len);
        let cap = pow2_u128(sub_len - plen);
        proof {
            lemma_pow2_adds((sub_len - plen) as nat, (128 - sub_len) as nat);
            assert(cap * stride == prefix_size(plen));
            lemma_pow2_pos((128 - sub_len) as nat);
            lemma_pow2_pos((sub_len - plen) as nat);
            lemma_pow2_pos((128 - plen) as nat);
            lemma_stride_divides(base as nat, cap as nat, stride as nat);
            lemma_pow2_u128_bound();
            lemma_pow2_adds(plen as nat, (128 - plen) as nat);
            lemma_mul_mod_zero(pow2(plen as nat), prefix_size(plen));
            lemma_base_headroom(base as nat, prefix_size(plen), pow2(128));
        }
        let mut i: u128 = 0;
        while i < cap
            invariant
                self.base == old(self).base,
                self.prefix_len == old(self).prefix_len,
                self.allocated@ == old(self).allocated@,
                base == self.base,
                plen == self.prefix_len,
                n == self.allocated.len(),
                pool_wf(base, plen, old(self).allocated@),
                !seq_has_id(old(self).allocated@, id),
                plen <= sub_len <= 128,
                stride == prefix_size(sub_len),
                cap == pow2((sub_len - plen) as nat),
                cap * stride == prefix_size(plen),
                base as nat % stride as nat == 0,
                base + cap * stride <= pow2(128),
                pow2(128) == 0x100000000000000000000000000000000,
                stride >= 1,
                i <= cap,
                forall|a2: u128|
                    #[trigger] is_sub_prefix_of(base, plen, a2, sub_len) && a2 < base + i * stride
                        ==> seq_conflicts(old(self).allocated@, a2, sub_len),
            decreases cap - i,
        {
            proof {
                lemma_mul_le(i as nat, (cap - 1) as nat, stride as nat);
                assert((cap - 1) as nat * (stride as nat) + stride as nat == (cap as nat) * (
                stride as nat)) by (nonlinear_arith)
                    requires
                        cap >= 1,
                ;
                assert(i as nat * (stride as nat) + stride as nat <= cap as nat * (stride as nat));
            }
            let cand = base + i * stride;
            assert(cand as nat % stride as nat == 0) by {
                lemma_mul_mod_zero(i as nat, stride as nat);
                lemma_add_mod_zero(base as nat, (i * stride) as nat, stride as nat);
            };
            let mut c: usize = 0;
            let mut hit = false;
            while c < n
                invariant
                    self.allocated@ == old(self).allocated@,
                    n == self.allocated.len(),
                    pool_wf(base, plen, old(self).allocated@),
                    plen <= sub_len <= 128,
                    stride == prefix_size(sub_len),
                    stride >= 1,
                    !hit ==> forall|j: int|
                        0 <= j < c ==> !prefixes_overlap(
                            cand,
                            sub_len,
                            (#[trigger] self.allocated@[j]).addr,
                            self.allocated@[j].len,
                        ),
                    hit ==> seq_conflicts(old(self).allocated@, cand, sub_len),
                decreases n - c,
            {
                let e = self.allocated[c];
                proof {
                    assert(is_sub_prefix_of(
                        base,
                        plen,
                        old(self).allocated@[c as int].addr,
                        old(self).allocated@[c as int].len,
                    ));
                    lemma_pow2_pos((128 - e.len) as nat);
                }
                let esize = pow2_u128(128 - e.len);
                let over = if cand >= e.addr {
                    cand - e.addr < esize
                } else {
                    e.addr - cand < stride
                };
                if over {
                    hit = true;
                    assert(prefixes_overlap(cand, sub_len, e.addr, e.len));
                    assert(seq_conflicts(old(self).allocated@, cand, sub_len));
                } else {
                    assert(!prefixes_overlap(cand, sub_len, e.addr, e.len));
                }
                c = c + 1;
            }
            if !hit {
                let entry = PrefixEntry { id, addr: cand, len: sub_len };
                proof {
                    lemma_mul_lt(i as nat, cap as nat, stride as nat);
                    assert(is_sub_prefix_of(base, plen, cand, sub_len));
                    assert(!seq_conflicts(old(self).allocated@, cand, sub_len));
                }
                self.allocated.push(entry);
                proof {
                    lemma_wf_after_push(base, plen, old(self).allocated@, entry);
                }
                return Ok(cand);
            }
            proof {
                assert((i + 1) as nat * (stride as nat) == i as nat * (stride as nat)
                    + stride as nat) by (nonlinear_arith);
                assert forall|a2: u128|
                    #[trigger] is_sub_prefix_of(base, plen, a2, sub_len) && a2 < base + (i + 1)
                        * stride implies seq_conflicts(old(self).allocated@, a2, sub_len) by {
                    if a2 >= base + i * stride {
                        lemma_aligned_unique(a2 as nat, cand as nat, stride as nat);
                        assert(a2 == cand);
                    }
                }
            }
            i = i + 1;
        }
        proof {
            assert forall|a2: u128| #[trigger] is_sub_prefix_of(base, plen, a2, sub_len)
                implies seq_conflicts(old(self).allocated@, a2, sub_len) by {
                assert(a2 + prefix_size(sub_len) <= base + cap * stride);
                assert(a2 < base + cap * stride);
            }
        }
        Err(ErrorKind::PoolExhausted)
    }

    /// Removes the allocation of `id`, if any; idempotent. Afterwards no
    /// entry owns `id`, and every other allocation is untouched.
    pub fn release(&mut self, id: u128)
        requires
            old(self).wf(),
        ensures
            final(self).wf(),
            final(self).base == old(self).base,
            final(self).prefix_len == old(self).prefix_len,
            !final(self).has_id(id),
            !old(self).has_id(id) ==> final(self).allocated@ == old(self).allocated@,
            old(self).has_id(id) ==> exists|i: int|
                0 <= i < old(self).allocated.len() && (#[trigger] old(self).allocated[i]).id == id
                    && final(self).allocated@ == old(self).allocated@.remove(i),
    {
        let n = self.allocated.len();
        let mut k: usize = 0;
        while k < n
            invariant
                old(self).wf(),
                n == self.allocated.len(),
                self.base == old(self).base,
                self.prefix_len == old(self).prefix_len,
                self.allocated@ == old(self).allocated@,
                forall|j: int| 0 <= j < k ==> (#[trigger] self.allocated@[j]).id != id,
            decreases n - k,
        {
            if self.allocated[k].id == id {
                proof {
                    assert(old(self).allocated@[k as int].id == id);
                }
                self.allocated.remove(k);
                proof {
                    lemma_wf_after_remove(
                        old(self).base,
                        old(self).prefix_len,
                        old(self).allocated@,
                        k as int,
                    );
                    assert forall|j: int|
                        0 <= j < self.allocated@.len() implies (#[trigger] self.allocated@[j]).id
                        != id by {
                        if j < k {
                            assert(self.allocated@[j] == old(self).allocated@[j]);
                        } else {
                            assert(self.allocated@[j] == old(self).allocated@[j + 1]);
                            assert(old(self).allocated@[j + 1].id != old(
                                self,
                            ).allocated@[k as int].id);
                        }
                    }
                }
                return ;
            }
            k = k + 1;
        }
    }
}

/// The pairwise-disjointness law of the pool: two allocations held by
/// different entries of a well-formed allocator never share an address.
pub proof fn lemma_allocations_disjoint(p: PrefixAllocator, i: int, j: int)
    requires
        p.wf(),
        0 <= i < p.allocated.len(),
        0 <= j < p.allocated.len(),
        i != j,
    ensures
        !prefixes_overlap(
            p.allocated[i].addr,
            p.allocated[i].len,
            p.allocated[j].addr,
            p.allocated[j].len,
        ),
{
}

proof fn lemma_wf_after_push(base: u128, plen: u8, s: Seq<PrefixEntry>, e: PrefixEntry)
    requires
        pool_wf(base, plen, s),
        is_sub_prefix_of(base, plen, e.addr, e.len),
        !seq_conflicts(s, e.addr, e.len),
        !seq_has_id(s, e.id),
    ensures
        pool_wf(base, plen, s.push(e)),
{
    let q = s.push(e);
    let m = s.len() as int;
    assert forall|i: int, j: int|
        0 <= i < q.len() && 0 <= j < q.len() && i != j implies (#[trigger] q[i]).id != (
    #[trigger] q[j]).id by {
        if i < m && j < m {
            assert(s[i].id != s[j].id);
        } else if i == m {
            assert(q[j] == s[j]);
            assert(!seq_has_id(s, e.id));
        } else {
            assert(q[i] == s[i]);
            assert(!seq_has_id(s, e.id));
        }
    }
    assert forall|i: int, j: int|
        0 <= i < q.len() && 0 <= j < q.len() && i != j implies !prefixes_overlap(
        (#[trigger] q[i]).addr,
        q[i].len,
        (#[trigger] q[j]).addr,
        q[j].len,
    ) by {
        if i < m && j < m {
            assert(!prefixes_overlap(s[i].addr, s[i].len, s[j].addr, s[j].len));
        } else if i == m {
            assert(q[j] == s[j]);
            assert(!prefixes_overlap(e.addr, e.len, s[j].addr, s[j].len));
        } else {
            assert(q[i] == s[i]);
            assert(!prefixes_overlap(e.addr, e.len, s[i].addr, s[i].len));
        }
    }
    assert forall|i: int|
        0 <= i < q.len() implies is_sub_prefix_of(base, plen, (#[trigger] q[i]).addr, q[i].len) by {
        if i < m {
            assert(q[i] == s[i]);
            assert(is_sub_prefix_of(base, plen, s[i].addr, s[i].len));
        }
    }
}

proof fn lemma_wf_after_remove(base: u128, plen: u8, s: Seq<PrefixEntry>, at: int)
    requires
        pool_wf(base, plen, s),
        0 <= at < s.len(),
    ensures
        pool_wf(base, plen, s.remove(at)),
{
    let q = s.remove(at);
    assert forall|i: int|
        0 <= i < q.len() implies is_sub_prefix_of(base, plen, (#[trigger] q[i]).addr, q[i].len) by {
        if i < at {
            assert(q[i] == s[i]);
            assert(is_sub_prefix_of(base, plen, s[i].addr, s[i].len));
        } else {
            assert(q[i] == s[i + 1]);
            assert(is_sub_prefix_of(base, plen, s[i + 1].addr, s[i + 1].len));
        }
    }
    assert forall|i: int, j: int|
        0 <= i < q.len() && 0 <= j < q.len() && i != j implies (#[trigger] q[i]).id != (
    #[trigger] q[j]).id by {
        let i0 = if i < at { i } else { i + 1 };
        let j0 = if j < at { j } else { j + 1 };
        assert(q[i] == s[i0]);
        assert(q[j] == s[j0]);
        assert(s[i0].id != s[j0].id);
    }
    assert forall|i: int, j: int|
        0 <= i < q.len() && 0 <= j < q.len() && i != j implies !prefixes_overlap(
        (#[trigger] q[i]).addr,
        q[i].len,
        (#[trigger] q[j]).addr,
        q[j].len,
    ) by {
        let i0 = if i < at { i } else { i + 1 };
        let j0 = if j < at { j } else { j + 1 };
        assert(q[i] == s[i0]);
        assert(q[j] == s[j0]);
        assert(!prefixes_overlap(s[i0].addr, s[i0].len, s[j0].addr, s[j0].len));
    }
}

/// Multiplication preserves `<=` on naturals.
proof fn lemma_mul_le(a: nat, b: nat, c: nat)
    requires
        a <= b,
    ensures
        a * c <= b * c,
{
    assert(a * c <= b * c) by (nonlinear_arith)
        requires
            a <= b,
    ;
}

/// A candidate strictly below the pool top stays inside the pool.
proof fn lemma_mul_lt(a: nat, b: nat, c: nat)
    requires
        a < b,
        c >= 1,
    ensures
        a * c + c <= b * c,
{
    assert(a * c + c <= b * c) by (nonlinear_arith)
        requires
            a < b,
            c >= 1,
    ;
}

/// A multiple of `m` is zero modulo `m`.
proof fn lemma_mul_mod_zero(a: nat, m: nat)
    requires
        m > 0,
    ensures
        (a * m) % m == 0,
{
    lemma_mod_multiples_basic(a as int, m as int);
}

/// Adding two multiples of `m` stays a multiple of `m`.
proof fn lemma_add_mod_zero(a: nat, b: nat, m: nat)
    requires
        m > 0,
        a % m == 0,
        b % m == 0,
    ensures
        (a + b) % m == 0,
{
    lemma_fundamental_div_mod(a as int, m as int);
    lemma_fundamental_div_mod(b as int, m as int);
    let qa = a as int / m as int;
    let qb = b as int / m as int;
    assert(a + b == (qa + qb) * m) by (nonlinear_arith)
        requires
            a as int == m as int * qa + 0,
            b as int == m as int * qb + 0,
    ;
    lemma_mod_multiples_basic(qa + qb, m as int);
}

/// If `base` is aligned to `cap * stride`, it is aligned to `stride`.
proof fn lemma_stride_divides(base: nat, cap: nat, stride: nat)
    requires
        stride > 0,
        cap > 0,
        base % (cap * stride) == 0,
    ensures
        base % stride == 0,
{
    assert(cap * stride == stride * cap) by (nonlinear_arith);
    lemma_breakdown(base as int, stride as int, cap as int);
    assert(0 <= (base as int / stride as int) % cap as int) by {
        lemma_div_mod_nonneg(base as int, stride as int, cap as int);
    }
    assert(stride as int * ((base as int / stride as int) % cap as int) >= 0) by (nonlinear_arith)
        requires
            stride as int > 0,
            (base as int / stride as int) % cap as int >= 0,
    ;
    lemma_fundamental_div_mod(base as int, stride as int);
}

/// Quotients and remainders of non-negative values are non-negative.
proof fn lemma_div_mod_nonneg(x: int, d: int, m: int)
    requires
        x >= 0,
        d > 0,
        m > 0,
    ensures
        (x / d) % m >= 0,
        x / d >= 0,
{
    lemma_fundamental_div_mod(x, d);
    assert(x / d >= 0) by (nonlinear_arith)
        requires
            x >= 0,
            d > 0,
            x == d * (x / d) + x % d,
            0 <= x % d < d,
    ;
    lemma_fundamental_div_mod(x / d, m);
}

/// An aligned address below `total` (a multiple of the block) leaves room
/// for one whole block.
proof fn lemma_base_headroom(base: nat, block: nat, total: nat)
    requires
        block > 0,
        base % block == 0,
        base < total,
        total % block == 0,
    ensures
        base + block <= total,
{
    lemma_fundamental_div_mod(base as int, block as int);
    lemma_fundamental_div_mod(total as int, block as int);
    let qb = base as int / block as int;
    let qt = total as int / block as int;
    assert(qb < qt) by (nonlinear_arith)
        requires
            block > 0,
            base as int == block as int * qb,
            total as int == block as int * qt,
            base < total,
    ;
    assert(block as int * qb + block as int <= block as int * qt) by (nonlinear_arith)
        requires
            qb < qt,
            block > 0,
    ;
}

/// Two addresses aligned to `stride` within one block of each other are equal.
proof fn lemma_aligned_unique(a2: nat, cand: nat, stride: nat)
    requires
        stride > 0,
        a2 % stride == 0,
        cand % stride == 0,
        cand <= a2,
        a2 < cand + stride,
    ensures
        a2 == cand,
{
    lemma_fundamental_div_mod(a2 as int, stride as int);
    lemma_fundamental_div_mod(cand as int, stride as int);
    let q1 = a2 as int / stride as int;
    let q2 = cand as int / stride as int;
    assert(q1 == q2) by (nonlinear_arith)
        requires
            stride > 0,
            a2 as int == stride as int * q1,
            cand as int == stride as int * q2,
            cand <= a2,
            a2 < cand + stride,
    ;
}

/// Computes `2^n` for `n <= 127`.
pub fn pow2_u128(n: u8) -> (r: u128)
    requires
        n <= 127,
    ensures
        r == pow2(n as nat),
{
    proof {
        lemma2_to64();
    }
    let mut r: u128 = 1;
    let mut j: u8 = 0;
    while j < n
        invariant
            j <= n <= 127,
            r == pow2(j as nat),
        decreases n - j,
    {
        proof {
            lemma_pow2_adds(j as nat, 1);
            lemma2_to64();
            if ((j + 1) as nat) < 128 {
                lemma_pow2_strictly_increases((j + 1) as nat, 128);
            }
            lemma_pow2_u128_bound();
        }
        r = r * 2;
        j = j + 1;
    }
    r
}

/// `2^128` written out, for overflow bounds on `u128` arithmetic.
proof fn lemma_pow2_u128_bound()
    ensures
        pow2(128) == 0x100000000000000000000000000000000,
{
    lemma_pow2_adds(64, 64);
    lemma2_to64();
}

} // verus!
