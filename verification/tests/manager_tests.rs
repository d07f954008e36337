use renderizer::{BufferOp, Instance, InstanceBufferManager, InstanceStore};

fn at(x: f32, y: f32, z: f32) -> Instance {
    Instance::at_position(x.to_bits(), y.to_bits(), z.to_bits())
}

fn initial_store() -> InstanceStore {
    InstanceStore::create(vec![
        at(-0.5, -0.5, 0.0),
        at(0.5, -0.5, 0.0),
        at(0.0, 0.5, 0.0),
        at(0.5, 0.5, 0.0),
    ])
}

#[test]
fn first_reconcile_allocates_and_uploads_everything() {
    let store = initial_store();
    let mut manager = InstanceBufferManager::new();
    assert_eq!(manager.capacity(), 0);
    match manager.reconcile(&store) {
        Some(BufferOp::Allocate { capacity, data }) => {
            assert_eq!(capacity, 4);
            assert_eq!(data.len(), 256);
            assert_eq!(data, store.pack());
        }
        other => panic!("expected a full allocation, got {:?}", other),
    }
    let params = manager.draw_params();
    assert!(params.buffer.is_some());
    assert_eq!(params.instance_count, 4);
}

#[test]
fn scenario_append_forces_regrowth_under_fresh_handle() {
    let mut store = initial_store();
    let mut manager = InstanceBufferManager::new();
    manager.reconcile(&store);
    let first = manager.draw_params();
    assert_eq!(first.instance_count, 4);

    store.append(at(0.3, 0.1, 0.0));
    match manager.reconcile(&store) {
        Some(BufferOp::Allocate { capacity, data }) => {
            assert!(capacity >= 5);
            assert_eq!(data.len(), 320);
            assert_eq!(data, store.pack());
        }
        other => panic!("expected a reallocation, got {:?}", other),
    }
    let second = manager.draw_params();
    assert_eq!(second.instance_count, 5);
    assert_ne!(first.buffer, second.buffer);
}

#[test]
fn reconcile_is_idempotent() {
    let store = initial_store();
    let mut manager = InstanceBufferManager::new();
    assert!(manager.reconcile(&store).is_some());
    let params = manager.draw_params();
    assert!(manager.reconcile(&store).is_none());
    assert_eq!(manager.draw_params(), params);
    assert!(manager.reconcile(&store).is_none());
    assert_eq!(manager.draw_params(), params);
}

#[test]
fn tail_write_when_capacity_suffices() {
    let mut store = initial_store();
    let mut manager = InstanceBufferManager::new();
    manager.reconcile(&store);
    store.append(at(0.3, 0.1, 0.0));
    manager.reconcile(&store);
    let grown = manager.draw_params();
    let capacity_before = manager.capacity();
    assert!(capacity_before >= 6);

    store.append(at(-0.25, 0.75, 0.0));
    match manager.reconcile(&store) {
        Some(BufferOp::WriteTail { offset, data }) => {
            assert_eq!(offset, 64 * 5);
            assert_eq!(data.len(), 64);
            assert_eq!(data, store.pack_tail(5).unwrap());
        }
        other => panic!("expected a tail write, got {:?}", other),
    }
    assert_eq!(manager.capacity(), capacity_before);
    let params = manager.draw_params();
    assert_eq!(params.buffer, grown.buffer);
    assert_eq!(params.instance_count, 6);
}

#[test]
fn capacity_never_shrinks() {
    let mut store = InstanceStore::create(Vec::new());
    let mut manager = InstanceBufferManager::new();
    let mut last_capacity = manager.capacity();
    for i in 0..20 {
        store.append(at(i as f32, 0.0, 0.0));
        manager.reconcile(&store);
        let capacity = manager.capacity();
        assert!(capacity >= last_capacity);
        assert!(capacity >= store.len());
        last_capacity = capacity;
    }
}

#[test]
fn zero_instances_skip_the_draw() {
    let store = InstanceStore::create(Vec::new());
    let mut manager = InstanceBufferManager::new();
    assert!(manager.reconcile(&store).is_none());
    let params = manager.draw_params();
    assert_eq!(params.instance_count, 0);
    assert_eq!(params.buffer, None);
    assert_eq!(manager.capacity(), 0);
    assert!(manager.draw_call(3).is_none());
}

#[test]
fn draw_call_carries_mesh_and_instance_counts() {
    let store = initial_store();
    let mut manager = InstanceBufferManager::new();
    manager.reconcile(&store);
    let call = manager.draw_call(3).unwrap();
    assert_eq!(call.vertex_count, 3);
    assert_eq!(call.instance_count, 4);
    assert_eq!(Some(call.instance_buffer), manager.draw_params().buffer);
}
