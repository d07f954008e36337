//! One drawable instance: a rigid-body pose (position plus rotation), and
//! its 64-byte GPU encoding.
//!
//! The verified core never computes with floating point.  Every coordinate
//! is carried as the raw bit pattern of the 32-bit value that the GPU will
//! read, so the pose travels through the library bit-for-bit.  Turning a
//! pose into its transform matrix is the one step delegated to an outside
//! linear-algebra crate; the matrix comes back as 16 bit patterns and the
//! byte layout (little-endian, column-major, 4 bytes per entry, 64 bytes
//! per instance, no padding) is produced and specified here.

use vstd::prelude::*;

verus! {

broadcast use vstd::array::group_array_axioms;

/// Bit pattern of the 32-bit value one (the scalar entry of an identity
/// rotation and the unit entry of a matrix diagonal).
pub const ONE_BITS: u32 = 0x3F80_0000;

/// A rigid-body pose: position and rotation quaternion, each component the
/// bit pattern of its 32-bit GPU representation.  Immutable once created.
#[derive(Clone, Copy, Debug, PartialEq, Eq, Structural)]
pub struct Instance {
    /// Position, x component.
    pub px: u32,
    /// Position, y component.
    pub py: u32,
    /// Position, z component.
    pub pz: u32,
    /// Rotation quaternion, x component.
    pub rx: u32,
    /// Rotation quaternion, y component.
    pub ry: u32,
    /// Rotation quaternion, z component.
    pub rz: u32,
    /// Rotation quaternion, w (scalar) component.
    pub rw: u32,
}

impl Instance {
    /// True when the rotation is the identity quaternion (0, 0, 0, 1).
    pub open spec fn has_identity_rotation(self) -> bool {
        self.rx == 0 && self.ry == 0 && self.rz == 0 && self.rw == ONE_BITS
    }

    /// An instance with the given position bits and the identity rotation.
    pub fn at_position(px: u32, py: u32, pz: u32) -> (r: Instance)
        ensures
            r == (Instance { px, py, pz, rx: 0, ry: 0, rz: 0, rw: ONE_BITS }),
            r.has_identity_rotation(),
    {
        Instance { px, py, pz, rx: 0, ry: 0, rz: 0, rw: ONE_BITS }
    }
}

/// The 16 entries of the column-major 4x4 pose matrix of an instance, each
/// as the bit pattern of its 32-bit value.
pub uninterp spec fn pose_matrix_bits(inst: Instance) -> [u32; 16];

/// The pose matrix of an identity-rotation instance: ones on the diagonal,
/// the position bits in the last column.
pub open spec fn translation_matrix_bits(px: u32, py: u32, pz: u32) -> Seq<u32> {
    seq![
        ONE_BITS, 0, 0, 0,
        0, ONE_BITS, 0, 0,
        0, 0, ONE_BITS, 0,
        px, py, pz, ONE_BITS,
    ]
}

/// Relies on glam::Mat4::from_rotation_translation and Mat4::to_cols_array
/// (the column-major transform matrix of a rotation quaternion and a
/// translation) and on bytemuck::cast (size-preserving bit casts between
/// 32-bit words and 32-bit floats): the matrix entries are a function of
/// the pose bits alone, and an identity rotation (0, 0, 0, 1) yields the
/// exact translation matrix, since every entry then comes out of sums and
/// products with zero.
#[verifier::external_body]
fn pose_matrix(inst: &Instance) -> (r: [u32; 16])
    ensures
        r == pose_matrix_bits(*inst),
        inst.has_identity_rotation() ==> r@ == translation_matrix_bits(inst.px, inst.py, inst.pz),
{
    let rotation = glam::Quat::from_array(bytemuck::cast([inst.rx, inst.ry, inst.rz, inst.rw]));
    let translation = glam::Vec3::from_array(bytemuck::cast([inst.px, inst.py, inst.pz]));
    let matrix = glam::Mat4::from_rotation_translation(rotation, translation);
    bytemuck::cast(matrix.to_cols_array())
}

/// The four bytes of a 32-bit word, least significant first.
pub open spec fn le_bytes_of_word(x: u32) -> Seq<u8> {
    seq![
        (x & 0xff) as u8,
        ((x >> 8) & 0xff) as u8,
        ((x >> 16) & 0xff) as u8,
        ((x >> 24) & 0xff) as u8,
    ]
}

/// A sequence of 32-bit words flattened to bytes, each word little-endian.
pub open spec fn words_to_le_bytes(w: Seq<u32>) -> Seq<u8>
    decreases w.len(),
{
    if w.len() == 0 {
        Seq::empty()
    } else {
        words_to_le_bytes(w.drop_last()) + le_bytes_of_word(w.last())
    }
}

/// The 64-byte GPU encoding of one instance: the 16 words of its
/// column-major pose matrix, each in little-endian byte order.
pub open spec fn raw_of(inst: Instance) -> Seq<u8> {
    words_to_le_bytes(pose_matrix_bits(inst)@)
}

pub proof fn lemma_words_to_le_bytes_len(w: Seq<u32>)
    ensures
        words_to_le_bytes(w).len() == 4 * w.len(),
    decreases w.len(),
{
    if w.len() > 0 {
        lemma_words_to_le_bytes_len(w.drop_last());
    }
}

/// Every instance encodes to exactly 64 bytes.
pub proof fn lemma_raw_of_len(inst: Instance)
    ensures
        raw_of(inst).len() == 64,
{
    lemma_words_to_le_bytes_len(pose_matrix_bits(inst)@);
}

/// The 64-byte encoding of one instance, ready for upload.  An identity
/// rotation yields the translation-only matrix: unit diagonal, position in
/// the last column.
pub fn raw_bytes(inst: &Instance) -> (r: Vec<u8>)
    ensures
        r@ == raw_of(*inst),
        r@.len() == 64,
        inst.has_identity_rotation() ==> (r@ == words_to_le_bytes(
            translation_matrix_bits(inst.px, inst.py, inst.pz),
        )),
{
    let w = pose_matrix(inst);
    let mut out: Vec<u8> = Vec::new();
    let mut i: usize = 0;
    while i < 16
        invariant
            w == pose_matrix_bits(*inst),
            i <= 16,
            out@ == words_to_le_bytes(w@.take(i as int)),
        decreases 16 - i,
    {
        let x = w[i];
        out.push((x & 0xff) as u8);
        out.push(((x >> 8) & 0xff) as u8);
        out.push(((x >> 16) & 0xff) as u8);
        out.push(((x >> 24) & 0xff) as u8);
        proof {
            let t = w@.take(i + 1);
            assert(t.drop_last() =~= w@.take(i as int));
            assert(t.last() == w@[i as int]);
            assert(out@ =~= words_to_le_bytes(w@.take(i as int)) + le_bytes_of_word(w@[i as int]));
        }
        i = i + 1;
    }
    proof {
        assert(w@.take(16) =~= w@);
        lemma_words_to_le_bytes_len(w@);
        if inst.has_identity_rotation() {
            assert(w@ =~= translation_matrix_bits(inst.px, inst.py, inst.pz));
        }
    }
    out
}

} // verus!
