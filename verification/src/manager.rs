//! GPU instance-buffer lifecycle: the reconciliation state machine.
//!
//! The manager tracks the buffer's capacity (in instances), the length of
//! the store prefix already uploaded, and the handle of the live buffer.
//! Per frame it decides between a full reallocation-and-upload, an
//! in-place write of the newly appended tail, and doing nothing, and it
//! hands that decision to the caller as a [`BufferOp`]; the caller performs
//! the operation against the real device.  The growth policy is
//! deterministic: a new buffer is sized for the larger of the instances
//! present and twice the old capacity, so a store that grows one instance
//! at a time reallocates only logarithmically often.

use vstd::prelude::*;

use crate::instance::Instance;
use crate::store::{
    lemma_packed_agree, lemma_packed_len, lemma_packed_split, packed, InstanceStore,
};

verus! {

/// The ghost state of a manager: capacity and synced length in instances,
/// and the generation number that serves as the live buffer's handle.
pub ghost struct ManagerModel {
    /// Buffer capacity in instances; zero while no buffer exists.
    pub capacity: nat,
    /// How many leading instances of the store the buffer already holds.
    pub synced: nat,
    /// Handle of the live buffer; bumped on every reallocation.
    pub generation: nat,
}

impl ManagerModel {
    /// The synced prefix always fits in the buffer; in particular, nothing
    /// is synced while no buffer exists.
    pub open spec fn wf(self) -> bool {
        self.synced <= self.capacity
    }
}

/// What a reconciliation decides to do.
#[derive(Clone, Copy, Debug, PartialEq, Eq, Structural)]
pub enum ReconcileAction {
    /// Allocate a fresh buffer and upload everything.
    Grow,
    /// Write only the newly appended instances into the existing buffer.
    WriteTail,
    /// Nothing to do: the buffer already matches the store.
    Skip,
}

/// The decision reconciliation takes against a store of length `n`.
pub open spec fn action_of(m: ManagerModel, n: nat) -> ReconcileAction {
    if m.synced == n {
        ReconcileAction::Skip
    } else if n > m.capacity {
        ReconcileAction::Grow
    } else {
        ReconcileAction::WriteTail
    }
}

/// The capacity of a freshly allocated buffer: the larger of the required
/// instance count and twice the capacity it replaces.
pub open spec fn grow_capacity(old_capacity: nat, n: nat) -> nat {
    if n >= 2 * old_capacity {
        n
    } else {
        2 * old_capacity
    }
}

/// The manager state after reconciling against a store of length `n`.
pub open spec fn step(m: ManagerModel, n: nat) -> ManagerModel {
    match action_of(m, n) {
        ReconcileAction::Skip => m,
        ReconcileAction::Grow => ManagerModel {
            capacity: grow_capacity(m.capacity, n),
            synced: n,
            generation: m.generation + 1,
        },
        ReconcileAction::WriteTail => ManagerModel {
            capacity: m.capacity,
            synced: n,
            generation: m.generation,
        },
    }
}

/// A buffer operation the frame must perform against the device.
#[derive(Clone, Debug)]
pub enum BufferOp {
    /// Create a buffer sized for `capacity` instances, upload `data` at
    /// offset zero, and release the buffer it replaces, if any.
    Allocate { capacity: usize, data: Vec<u8> },
    /// Write `data` into the existing buffer at byte offset `offset`.
    WriteTail { offset: usize, data: Vec<u8> },
}

/// What `reconcile` returns for a manager in state `m` against a store
/// holding `s`: no operation exactly when nothing changed; a full upload of
/// `packed(s)` into a buffer of `grow_capacity` instances when the store
/// outgrew the buffer; otherwise a write of the unsynced tail at the byte
/// offset where it belongs.
pub open spec fn reconcile_post(m: ManagerModel, s: Seq<Instance>, r: Option<BufferOp>) -> bool {
    &&& (r is None <==> action_of(m, s.len()) is Skip)
    &&& (action_of(m, s.len()) is Grow ==> (r matches Some(op) && op matches BufferOp::Allocate {
        capacity,
        data,
    } && capacity == grow_capacity(m.capacity, s.len()) && data@ == packed(
        s,
        0,
        s.len() as int,
    )))
    &&& (action_of(m, s.len()) is WriteTail ==> (r matches Some(op)
        && op matches BufferOp::WriteTail { offset, data } && offset == 64 * m.synced
        && data@ == packed(s, m.synced as int, s.len() as int)))
}

/// Draw parameters for the rendering submission step.
#[derive(Clone, Copy, Debug, PartialEq, Eq)]
pub struct DrawParams {
    /// Handle of the buffer to bind, if one exists.
    pub buffer: Option<u64>,
    /// How many instances to draw.
    pub instance_count: usize,
}

/// One instanced draw call: bind the instance buffer, draw
/// `vertex_count` vertices for `instance_count` instances.
#[derive(Clone, Copy, Debug, PartialEq, Eq)]
pub struct DrawCall {
    /// Handle of the instance buffer to bind.
    pub instance_buffer: u64,
    /// Vertices per instance: the mesh's vertex count.
    pub vertex_count: usize,
    /// Instances to draw: the synced store length.
    pub instance_count: usize,
}

/// Owns the GPU buffer lifecycle for one `InstanceStore`.
pub struct InstanceBufferManager {
    capacity: usize,
    synced: usize,
    generation: u64,
}

impl View for InstanceBufferManager {
    type V = ManagerModel;

    closed spec fn view(&self) -> ManagerModel {
        ManagerModel {
            capacity: self.capacity as nat,
            synced: self.synced as nat,
            generation: self.generation as nat,
        }
    }
}

impl InstanceBufferManager {
    /// A manager with no buffer allocated yet.
    pub fn new() -> (r: InstanceBufferManager)
        ensures
            r@ == (ManagerModel { capacity: 0 as nat, synced: 0 as nat, generation: 0 as nat }),
            r@.wf(),
    {
        InstanceBufferManager { capacity: 0, synced: 0, generation: 0 }
    }

    /// Brings the buffer back in sync with `store`, following `step` and
    /// `action_of`, and returns the device operation that realizes the
    /// transition.  Capacity never shrinks; a buffer is reallocated (under
    /// a fresh handle) only when the store outgrew it.
    pub fn reconcile(&mut self, store: &InstanceStore) -> (r: Option<BufferOp>)
        requires
            old(self)@.wf(),
            old(self)@.synced <= store@.len(),
            64 * store@.len() <= usize::MAX,
            store@.len() > old(self)@.capacity ==> old(self)@.generation < u64::MAX,
        ensures
            final(self)@ == step(old(self)@, store@.len()),
            final(self)@.wf(),
            final(self)@.capacity >= old(self)@.capacity,
            final(self)@.synced == store@.len(),
            reconcile_post(old(self)@, store@, r),
    {
        let n = store.len();
        if n == self.synced {
            None
        } else if n > self.capacity {
            let doubled = 2 * self.capacity;
            let new_capacity = if n >= doubled {
                n
            } else {
                doubled
            };
            let data = store.pack();
            self.capacity = new_capacity;
            self.synced = n;
            self.generation = self.generation + 1;
            Some(BufferOp::Allocate { capacity: new_capacity, data })
        } else {
            let offset = 64 * self.synced;
            let data = store.pack_range(self.synced);
            self.synced = n;
            Some(BufferOp::WriteTail { offset, data })
        }
    }

    /// The buffer's current capacity, in instances; zero while no buffer
    /// exists.
    pub fn capacity(&self) -> (r: usize)
        ensures
            r == self@.capacity,
    {
        self.capacity
    }

    /// The most recently reconciled draw parameters: the live buffer's
    /// handle (none while no buffer exists) and the synced instance count.
    pub fn draw_params(&self) -> (r: DrawParams)
        ensures
            r.instance_count == self@.synced,
            r.buffer is Some <==> self@.capacity > 0,
            self@.capacity > 0 ==> (r.buffer matches Some(h) && h as nat == self@.generation),
    {
        if self.capacity > 0 {
            DrawParams { buffer: Some(self.generation), instance_count: self.synced }
        } else {
            DrawParams { buffer: None, instance_count: self.synced }
        }
    }

    /// The draw call the submission step must issue, or nothing when the
    /// store is empty: a zero-instance frame skips the draw entirely.
    pub fn draw_call(&self, vertex_count: usize) -> (r: Option<DrawCall>)
        requires
            self@.wf(),
        ensures
            r is None <==> self@.synced == 0,
            self@.synced > 0 ==> (r matches Some(c) && c.instance_buffer as nat == self@.generation
                && c.vertex_count == vertex_count && c.instance_count == self@.synced),
    {
        if self.synced == 0 {
            None
        } else {
            Some(
                DrawCall {
                    instance_buffer: self.generation,
                    vertex_count,
                    instance_count: self.synced,
                },
            )
        }
    }
}

/// The store after an optional append.
pub open spec fn appended(s: Seq<Instance>, new_instance: Option<Instance>) -> Seq<Instance> {
    match new_instance {
        Some(i) => s.push(i),
        None => s,
    }
}

/// Per-frame entry point: appends the instance requested this frame, if
/// any, then reconciles the buffer against the store.  Returns the device
/// operation the frame must perform, if any.
pub fn process_frame(
    store: &mut InstanceStore,
    manager: &mut InstanceBufferManager,
    new_instance: Option<Instance>,
) -> (r: Option<BufferOp>)
    requires
        old(manager)@.wf(),
        old(manager)@.synced <= old(store)@.len(),
        64 * (old(store)@.len() + 1) <= usize::MAX,
        old(manager)@.generation < u64::MAX,
    ensures
        final(store)@ == appended(old(store)@, new_instance),
        final(manager)@ == step(old(manager)@, final(store)@.len()),
        final(manager)@.wf(),
        reconcile_post(old(manager)@, final(store)@, r),
{
    match new_instance {
        Some(i) => store.append(i),
        None => (),
    }
    manager.reconcile(store)
}

/// Reconciliation is idempotent: a second reconcile against a store of the
/// same length changes nothing and calls for no buffer operation.
pub proof fn lemma_reconcile_idempotent(m: ManagerModel, n: nat)
    ensures
        step(step(m, n), n) == step(m, n),
        action_of(step(m, n), n) is Skip,
{
}

/// Capacity never shrinks: each reconciliation leaves it equal or larger.
pub proof fn lemma_capacity_monotonic(m: ManagerModel, n: nat)
    ensures
        step(m, n).capacity >= m.capacity,
{
}

/// When the store still fits (no growth needed), reconciliation keeps the
/// buffer: same handle, same capacity, only the tail is written.
pub proof fn lemma_no_growth_keeps_buffer(m: ManagerModel, n: nat)
    requires
        m.synced < n,
        n <= m.capacity,
    ensures
        action_of(m, n) is WriteTail,
        step(m, n).capacity == m.capacity,
        step(m, n).generation == m.generation,
{
}

/// Modeled device memory after performing a buffer operation: allocation
/// replaces the contents with the uploaded data in a zero-filled buffer of
/// the new capacity, a tail write splices its data in place.
pub open spec fn apply_op(buf: Seq<u8>, r: Option<BufferOp>) -> Seq<u8> {
    match r {
        None => buf,
        Some(BufferOp::Allocate { capacity, data }) => data@ + Seq::new(
            (64 * (capacity as int) - data@.len()) as nat,
            |i: int| 0u8,
        ),
        Some(BufferOp::WriteTail { offset, data }) => buf.take(offset as int) + data@ + buf.skip(
            offset + data@.len(),
        ),
    }
}

/// The per-frame device invariant: the buffer is at least as large as the
/// manager's capacity says, and its synced prefix holds the packed
/// encoding of the store's first `synced` instances.
pub open spec fn device_holds(m: ManagerModel, s: Seq<Instance>, buf: Seq<u8>) -> bool {
    &&& buf.len() >= 64 * m.capacity
    &&& buf.take(64 * m.synced as int) == packed(s, 0, m.synced as int)
}

/// Appending does not disturb the device invariant: the synced prefix of
/// the store is unchanged, so the buffer still matches it.
pub proof fn lemma_append_preserves_device(
    m: ManagerModel,
    s: Seq<Instance>,
    inst: Instance,
    buf: Seq<u8>,
)
    requires
        m.synced <= s.len(),
        device_holds(m, s, buf),
    ensures
        device_holds(m, s.push(inst), buf),
{
    lemma_packed_agree(s, s.push(inst), 0, m.synced as int);
}

/// Reconciliation restores the device invariant: if the buffer held the
/// packed encoding of the synced prefix, then after performing the returned
/// operation its first 64 n bytes hold the packed encoding of the whole
/// store, and the invariant holds again for the new manager state.
pub proof fn lemma_reconcile_syncs_device(
    m: ManagerModel,
    s: Seq<Instance>,
    r: Option<BufferOp>,
    buf: Seq<u8>,
)
    requires
        m.wf(),
        m.synced <= s.len(),
        reconcile_post(m, s, r),
        device_holds(m, s, buf),
    ensures
        apply_op(buf, r).take(64 * s.len() as int) == packed(s, 0, s.len() as int),
        device_holds(step(m, s.len()), s, apply_op(buf, r)),
{
    let n = s.len() as int;
    let l = m.synced as int;
    lemma_packed_len(s, 0, n);
    lemma_packed_len(s, 0, l);
    lemma_packed_len(s, l, n);
    lemma_packed_split(s, 0, l, n);
    match action_of(m, s.len()) {
        ReconcileAction::Skip => {
            assert(apply_op(buf, r).take(64 * n) =~= packed(s, 0, n));
        },
        ReconcileAction::Grow => {
            assert(apply_op(buf, r).take(64 * n) =~= packed(s, 0, n));
        },
        ReconcileAction::WriteTail => {
            assert(apply_op(buf, r).take(64 * n) =~= packed(s, 0, n));
        },
    }
}

} // verus!
