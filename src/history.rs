//! Fixed-capacity sample history of one channel.
use vstd::prelude::*;
use crate::error::RtopError;

verus! {

/// Samples of one channel, oldest first. The length is fixed when the
/// history is made; each push drops the oldest sample.
///
/// The samples are kept in a ring: `samples[head]` is the oldest.
pub struct MetricHistory {
    samples: Vec<i64>,
    head: usize,
}

impl View for MetricHistory {
    type V = Seq<i64>;

    closed spec fn view(&self) -> Seq<i64> {
        Seq::new(
            self.samples@.len(),
            |i: int| self.samples@[(self.head + i) % (self.samples@.len() as int)],
        )
    }
}

/// The samples after pushing each of `values` in turn, first to last.
pub open spec fn after_pushes(samples: Seq<i64>, values: Seq<i64>) -> Seq<i64>
    decreases values.len(),
{
    if values.len() == 0 {
        samples
    } else {
        after_pushes(samples.drop_first().push(values[0]), values.drop_first())
    }
}

/// Pushing never changes how many samples a history holds.
pub proof fn lemma_ring_length(samples: Seq<i64>, values: Seq<i64>)
    requires
        samples.len() >= 1,
    ensures
        after_pushes(samples, values).len() == samples.len(),
    decreases values.len(),
{
    if values.len() > 0 {
        lemma_ring_length(samples.drop_first().push(values[0]), values.drop_first());
    }
}

/// After pushing at most as many values as the history holds, the pushed
/// values are the newest samples, in order, and the rest are the oldest
/// samples that were there before, unmoved in order.
pub proof fn lemma_fifo(samples: Seq<i64>, values: Seq<i64>)
    requires
        values.len() <= samples.len(),
    ensures
        after_pushes(samples, values) == samples.subrange(values.len() as int, samples.len() as int)
            + values,
    decreases values.len(),
{
    if values.len() > 0 {
        let next = samples.drop_first().push(values[0]);
        lemma_fifo(next, values.drop_first());
        assert(next.subrange(values.len() - 1, next.len() as int) + values.drop_first()
            =~= samples.subrange(values.len() as int, samples.len() as int) + values);
    } else {
        assert(samples.subrange(0, samples.len() as int) + values =~= samples);
    }
}

/// A history made with `fill` and then given at most its capacity of
/// values holds `fill` in its oldest slots and the values, in order, after.
pub proof fn lemma_fifo_from_fill(capacity: nat, fill: i64, values: Seq<i64>)
    requires
        values.len() <= capacity,
    ensures
        after_pushes(Seq::new(capacity, |_i: int| fill), values) == Seq::new(
            (capacity - values.len()) as nat,
            |_i: int| fill,
        ) + values,
{
    let start = Seq::new(capacity, |_i: int| fill);
    lemma_fifo(start, values);
    assert(start.subrange(values.len() as int, capacity as int) =~= Seq::new(
        (capacity - values.len()) as nat,
        |_i: int| fill,
    ));
}

impl MetricHistory {
    /// The ring is non-empty and `head` points into it.
    pub closed spec fn wf(&self) -> bool {
        &&& self.samples@.len() > 0
        &&& self.head < self.samples@.len()
    }

    /// A history of `capacity` samples, each `fill_value`; an error when
    /// `capacity` is zero.
    pub fn new(capacity: usize, fill_value: i64) -> (r: Result<Self, RtopError>)
        ensures
            capacity == 0 <==> r is Err,
            r matches Ok(h) ==> h.wf() && h@ == Seq::new(capacity as nat, |_i: int| fill_value),
            r matches Err(e) ==> e is InvalidInput,
    {
        if capacity == 0 {
            return Err(RtopError::InvalidInput(String::from_str("history capacity must be positive")));
        }
        Ok(MetricHistory::filled(capacity, fill_value))
    }

    /// A history of `capacity` samples, each `fill_value`.
    pub(crate) fn filled(capacity: usize, fill_value: i64) -> (r: Self)
        requires
            capacity > 0,
        ensures
            r.wf(),
            r@ == Seq::new(capacity as nat, |_i: int| fill_value),
    {
        let samples = vec![fill_value; capacity];
        let h = MetricHistory { samples, head: 0 };
        assert(h@ =~= Seq::new(capacity as nat, |_i: int| fill_value));
        h
    }

    /// Number of samples held, fixed for the history's lifetime.
    pub fn capacity(&self) -> (r: usize)
        requires
            self.wf(),
        ensures
            r == self@.len(),
            r > 0,
    {
        self.samples.len()
    }

    /// Drops the oldest sample and appends `value` as the newest.
    pub fn push(&mut self, value: i64)
        requires
            old(self).wf(),
        ensures
            final(self).wf(),
            final(self)@ == old(self)@.drop_first().push(value),
    {
        let ghost before = self@;
        let len = self.samples.len();
        let h = self.head;
        self.samples.set(h, value);
        self.head = if h + 1 == len { 0 } else { h + 1 };
        let ghost n = len as int;
        assert forall|i: int| 0 <= i < n implies #[trigger] self@[i] == before.drop_first().push(value)[i] by {
            if i == n - 1 {
                assert((self.head + i) % n == h) by {
                    vstd::arithmetic::div_mod::lemma_mod_add_multiples_vanish(h as int, n);
                    if h + 1 == n {
                        vstd::arithmetic::div_mod::lemma_small_mod((n - 1) as nat, n as nat);
                    } else {
                        vstd::arithmetic::div_mod::lemma_mod_add_multiples_vanish(h as int, n);
                        assert(self.head + i == h + n);
                        vstd::arithmetic::div_mod::lemma_small_mod(h as nat, n as nat);
                    }
                }
            } else {
                assert((self.head + i) % n == (h + i + 1) % n) by {
                    if h + 1 == n {
                        assert(self.head + i + n == h + i + 1);
                        vstd::arithmetic::div_mod::lemma_mod_add_multiples_vanish(self.head + i, n);
                    }
                }
                assert((h + i + 1) % n != h) by {
                    vstd::arithmetic::div_mod::lemma_small_mod(h as nat, n as nat);
                    if h + i + 1 < n {
                        vstd::arithmetic::div_mod::lemma_small_mod((h + i + 1) as nat, n as nat);
                    } else {
                        vstd::arithmetic::div_mod::lemma_mod_sub_multiples_vanish(h + i + 1, n);
                        vstd::arithmetic::div_mod::lemma_small_mod((h + i + 1 - n) as nat, n as nat);
                    }
                }
            }
        }
        assert(self@ =~= before.drop_first().push(value));
    }

    /// The samples, oldest first.
    pub fn snapshot(&self) -> (r: Vec<i64>)
        requires
            self.wf(),
        ensures
            r@ == self@,
    {
        let len = self.samples.len();
        let mut out: Vec<i64> = Vec::with_capacity(len);
        let mut i: usize = 0;
        let mut k: usize = self.head;
        proof {
            vstd::arithmetic::div_mod::lemma_small_mod(self.head as nat, len as nat);
        }
        while i < len
            invariant
                self.wf(),
                len == self.samples@.len(),
                i <= len,
                k < len,
                k as int == (self.head + i) % (len as int),
                out@ =~= self@.subrange(0, i as int),
            decreases len - i,
        {
            out.push(self.samples[k]);
            proof {
                let n = len as int;
                let q = (self.head + i) / n;
                vstd::arithmetic::div_mod::lemma_fundamental_div_mod(self.head + i, n);
                assert(self.head + i + 1 == n * q + (k + 1));
                vstd::arithmetic::div_mod::lemma_mod_multiples_vanish(q, k + 1, n);
                if k + 1 < len {
                    vstd::arithmetic::div_mod::lemma_small_mod((k + 1) as nat, len as nat);
                } else {
                    vstd::arithmetic::div_mod::lemma_mod_self_0(n);
                }
            }
            k = if k + 1 == len { 0 } else { k + 1 };
            i = i + 1;
        }
        out
    }
}

} // verus!
