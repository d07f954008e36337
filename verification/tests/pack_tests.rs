use renderizer::{Instance, InstanceStore, PackError};

/// An instance at the given position with the identity rotation.
fn at(x: f32, y: f32, z: f32) -> Instance {
    Instance::at_position(x.to_bits(), y.to_bits(), z.to_bits())
}

/// An instance with an arbitrary pose, components given as floats.
fn posed(p: [f32; 3], r: [f32; 4]) -> Instance {
    Instance {
        px: p[0].to_bits(),
        py: p[1].to_bits(),
        pz: p[2].to_bits(),
        rx: r[0].to_bits(),
        ry: r[1].to_bits(),
        rz: r[2].to_bits(),
        rw: r[3].to_bits(),
    }
}

/// The 64-byte encoding computed independently: glam's column-major pose
/// matrix, each entry as little-endian bytes.
fn expected_raw(i: &Instance) -> Vec<u8> {
    let rotation = glam::Quat::from_xyzw(
        f32::from_bits(i.rx),
        f32::from_bits(i.ry),
        f32::from_bits(i.rz),
        f32::from_bits(i.rw),
    );
    let translation = glam::Vec3::new(
        f32::from_bits(i.px),
        f32::from_bits(i.py),
        f32::from_bits(i.pz),
    );
    let matrix = glam::Mat4::from_rotation_translation(rotation, translation);
    let mut out = Vec::new();
    for entry in matrix.to_cols_array() {
        out.extend_from_slice(&entry.to_bits().to_le_bytes());
    }
    out
}

fn sample_instances() -> Vec<Instance> {
    vec![
        at(-0.5, -0.5, 0.0),
        at(0.5, -0.5, 0.0),
        posed([0.0, 0.5, 0.0], [0.5, 0.5, 0.5, 0.5]),
        posed([1.5, -2.25, 3.0], [0.0, 1.0, 0.0, 0.0]),
        at(0.3, 0.1, 0.0),
    ]
}

#[test]
fn pack_returns_64_bytes_per_instance() {
    let instances = sample_instances();
    let n = instances.len();
    let store = InstanceStore::create(instances);
    assert_eq!(store.len(), n);
    assert_eq!(store.pack().len(), 64 * n);
}

#[test]
fn pack_slots_hold_each_instance_encoding() {
    let instances = sample_instances();
    let store = InstanceStore::create(instances.clone());
    let bytes = store.pack();
    for (i, inst) in instances.iter().enumerate() {
        assert_eq!(&bytes[64 * i..64 * i + 64], expected_raw(inst).as_slice());
    }
}

#[test]
fn pack_identity_rotation_is_translation_only() {
    let store = InstanceStore::create(vec![at(0.25, -0.5, 2.0)]);
    let bytes = store.pack();
    let mut entries = [0.0f32; 16];
    for (k, entry) in entries.iter_mut().enumerate() {
        let word = u32::from_le_bytes(bytes[4 * k..4 * k + 4].try_into().unwrap());
        *entry = f32::from_bits(word);
    }
    // Column-major: unit diagonal, position in the last column.
    let expected = [
        1.0, 0.0, 0.0, 0.0, //
        0.0, 1.0, 0.0, 0.0, //
        0.0, 0.0, 1.0, 0.0, //
        0.25, -0.5, 2.0, 1.0,
    ];
    assert_eq!(entries, expected);
}

#[test]
fn pack_empty_store_is_empty() {
    let store = InstanceStore::create(Vec::new());
    assert_eq!(store.len(), 0);
    assert_eq!(store.pack(), Vec::<u8>::new());
}

#[test]
fn pack_tail_matches_pack_suffix() {
    let instances = sample_instances();
    let n = instances.len();
    let store = InstanceStore::create(instances);
    let full = store.pack();
    for k in 0..=n {
        let tail = store.pack_tail(k).unwrap();
        assert_eq!(tail.as_slice(), &full[64 * k..64 * n]);
    }
}

#[test]
fn pack_tail_past_end_is_rejected() {
    let store = InstanceStore::create(sample_instances());
    assert_eq!(store.pack_tail(6), Err(PackError::IndexOutOfRange));
    assert_eq!(store.pack_tail(usize::MAX), Err(PackError::IndexOutOfRange));
}

#[test]
fn append_extends_draw_order() {
    let mut store = InstanceStore::create(vec![at(1.0, 0.0, 0.0)]);
    let extra = posed([0.0, -1.0, 0.5], [0.5, 0.5, 0.5, 0.5]);
    store.append(extra);
    assert_eq!(store.len(), 2);
    let bytes = store.pack();
    assert_eq!(&bytes[64..128], expected_raw(&extra).as_slice());
}
