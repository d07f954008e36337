//! The CPU-side authoritative list of instances.
//!
//! An `InstanceStore` is an ordered, append-only sequence of instances;
//! insertion order is draw order is shader-visible instance index.  It
//! produces the packed GPU byte layout on demand, either whole (`pack`) or
//! for a tail of newly appended instances (`pack_tail`).

use vstd::prelude::*;

use crate::instance::{lemma_raw_of_len, raw_bytes, raw_of, Instance};

verus! {

/// The packed encoding of the instances of `s` at indices `[from, to)`:
/// their 64-byte encodings, concatenated in order.
pub open spec fn packed(s: Seq<Instance>, from: int, to: int) -> Seq<u8>
    decreases to - from,
{
    if from >= to {
        Seq::empty()
    } else {
        packed(s, from, to - 1) + raw_of(s[to - 1])
    }
}

pub proof fn lemma_packed_len(s: Seq<Instance>, from: int, to: int)
    requires
        from <= to,
    ensures
        packed(s, from, to).len() == 64 * (to - from),
    decreases to - from,
{
    if from < to {
        lemma_packed_len(s, from, to - 1);
        lemma_raw_of_len(s[to - 1]);
    }
}

/// The packed encoding of `[a, c)` splits at any `b` between.
pub proof fn lemma_packed_split(s: Seq<Instance>, a: int, b: int, c: int)
    requires
        a <= b <= c,
    ensures
        packed(s, a, c) == packed(s, a, b) + packed(s, b, c),
    decreases c - b,
{
    if b == c {
        assert(packed(s, a, c) =~= packed(s, a, b) + packed(s, b, c));
    } else {
        lemma_packed_split(s, a, b, c - 1);
        assert(packed(s, a, c) =~= packed(s, a, b) + packed(s, b, c));
    }
}

/// The packed encoding of a range depends only on the instances in it:
/// two stores that agree on `[from, to)` pack those instances alike.
pub proof fn lemma_packed_agree(s1: Seq<Instance>, s2: Seq<Instance>, from: int, to: int)
    requires
        0 <= from <= to,
        forall|j: int| from <= j < to ==> s1[j] == s2[j],
    ensures
        packed(s1, from, to) == packed(s2, from, to),
    decreases to - from,
{
    if from < to {
        lemma_packed_agree(s1, s2, from, to - 1);
    }
}

/// Each instance occupies its own 64-byte slot of the packed encoding:
/// bytes `[64 i, 64 i + 64)` are exactly the encoding of instance `i`.
pub proof fn lemma_packed_instance_slot(s: Seq<Instance>, i: int)
    requires
        0 <= i < s.len(),
    ensures
        packed(s, 0, s.len() as int).subrange(64 * i, 64 * i + 64) == raw_of(s[i]),
{
    let n = s.len() as int;
    lemma_packed_split(s, 0, i, n);
    lemma_packed_split(s, i, i + 1, n);
    lemma_packed_len(s, 0, i);
    lemma_packed_len(s, i, i + 1);
    lemma_packed_len(s, i + 1, n);
    lemma_raw_of_len(s[i]);
    assert(packed(s, i, i + 1) =~= raw_of(s[i]));
    assert(packed(s, 0, n).subrange(64 * i, 64 * i + 64) =~= raw_of(s[i]));
}

/// The tail encoding from index `k` equals the corresponding suffix of the
/// full encoding: `pack_tail(k)` is `pack()[64 k .. 64 n]`.
pub proof fn lemma_pack_tail_is_suffix(s: Seq<Instance>, k: int)
    requires
        0 <= k <= s.len(),
    ensures
        packed(s, k, s.len() as int) == packed(s, 0, s.len() as int).subrange(
            64 * k,
            64 * s.len() as int,
        ),
{
    let n = s.len() as int;
    lemma_packed_split(s, 0, k, n);
    lemma_packed_len(s, 0, k);
    lemma_packed_len(s, k, n);
    assert(packed(s, k, n) =~= packed(s, 0, n).subrange(64 * k, 64 * n));
}

/// The error a store can report: `pack_tail` was asked to start past the
/// end of the list.
#[derive(Clone, Copy, Debug, PartialEq, Eq, Structural)]
pub enum PackError {
    IndexOutOfRange,
}

/// The ordered, append-only list of instances.
pub struct InstanceStore {
    items: Vec<Instance>,
}

impl View for InstanceStore {
    type V = Seq<Instance>;

    closed spec fn view(&self) -> Seq<Instance> {
        self.items@
    }
}

impl InstanceStore {
    /// A store holding the given initial instances, in order.
    pub fn create(initial: Vec<Instance>) -> (r: InstanceStore)
        ensures
            r@ == initial@,
    {
        InstanceStore { items: initial }
    }

    /// The current instance count.
    pub fn len(&self) -> (r: usize)
        ensures
            r == self@.len(),
    {
        self.items.len()
    }

    /// Adds an instance at the end; the indices of the others are unchanged.
    pub fn append(&mut self, inst: Instance)
        ensures
            final(self)@ == old(self)@.push(inst),
    {
        self.items.push(inst);
    }

    /// The packed encoding of the instances at indices `[from, len)`.
    pub(crate) fn pack_range(&self, from: usize) -> (r: Vec<u8>)
        requires
            from <= self@.len(),
        ensures
            r@ == packed(self@, from as int, self@.len() as int),
            r@.len() == 64 * (self@.len() - from),
    {
        let mut out: Vec<u8> = Vec::new();
        let mut i: usize = from;
        while i < self.items.len()
            invariant
                from <= i <= self@.len(),
                out@ == packed(self@, from as int, i as int),
            decreases self@.len() - i,
        {
            let mut b = raw_bytes(&self.items[i]);
            out.append(&mut b);
            i = i + 1;
        }
        proof {
            lemma_packed_len(self@, from as int, self@.len() as int);
        }
        out
    }

    /// The full packed encoding: 64 bytes per instance, in order.  A pure
    /// function of the current state.
    pub fn pack(&self) -> (r: Vec<u8>)
        ensures
            r@ == packed(self@, 0, self@.len() as int),
            r@.len() == 64 * self@.len(),
    {
        self.pack_range(0)
    }

    /// The packed encoding of the instances at indices `from_index` and up,
    /// for incremental upload.  Returns `IndexOutOfRange` if and only if
    /// `from_index` lies past the end of the list.
    pub fn pack_tail(&self, from_index: usize) -> (r: Result<Vec<u8>, PackError>)
        ensures
            from_index <= self@.len() ==> (r matches Ok(b) && b@ == packed(
                self@,
                from_index as int,
                self@.len() as int,
            )),
            from_index > self@.len() ==> r == Err::<Vec<u8>, PackError>(PackError::IndexOutOfRange),
    {
        if from_index <= self.items.len() {
            Ok(self.pack_range(from_index))
        } else {
            Err(PackError::IndexOutOfRange)
        }
    }
}

} // verus!
