//! Poses as flat homogeneous matrices, and the set of poses that one
//! evaluation of the arm yields.

use vstd::prelude::*;
use crate::error::KinematicsError;
use crate::scalar::{bits_are_finite, bits_are_one, bits_are_zero, is_finite, is_one, is_zero,
    lemma_zero_and_one_are_finite, ONE_BITS, ZERO_BITS};

verus! {

/// The number of entries of a flat 4x4 matrix.
pub const MATRIX_LEN: usize = 16;

/// The number of poses of one evaluation: one per joint frame, then the
/// end-effector frame.
pub const FRAME_COUNT: usize = 7;

/// The place of row `row`, column `col` in a row-major 4x4 matrix.
pub open spec fn flat_index(row: int, col: int) -> int {
    4 * row + col
}

/// A sequence of encodings is a well-formed pose matrix when it has sixteen
/// entries, each of them a real number, and its last row is `[0, 0, 0, 1]`.
pub open spec fn is_pose_matrix(m: Seq<u64>) -> bool {
    &&& m.len() == MATRIX_LEN
    &&& forall|i: int| 0 <= i < MATRIX_LEN ==> is_finite(#[trigger] m[i])
    &&& is_zero(m[12])
    &&& is_zero(m[13])
    &&& is_zero(m[14])
    &&& is_one(m[15])
}

/// What a flat matrix yields when it is taken as a pose: the same entries
/// where it is well formed, `InvalidTransform` otherwise.
pub open spec fn checked_pose(m: Seq<u64>) -> Result<Seq<u64>, KinematicsError> {
    if is_pose_matrix(m) {
        Ok(m)
    } else {
        Err(KinematicsError::InvalidTransform)
    }
}

/// The entries of the identity matrix, row by row.
pub open spec fn identity_entries() -> Seq<u64> {
    Seq::new(MATRIX_LEN as nat, |i: int| if i % 5 == 0 { ONE_BITS } else { ZERO_BITS })
}

/// A pose: a row-major 4x4 homogeneous matrix whose entries are binary64 bit
/// patterns. Every value of this type is a well-formed pose matrix. Whether
/// its rotation block is orthonormal is a matter of arithmetic on the
/// numbers and is not decided by this type.
#[derive(Clone, Copy, Debug)]
pub struct Frame3 {
    entries: [u64; 16],
}

impl View for Frame3 {
    type V = Seq<u64>;

    closed spec fn view(&self) -> Seq<u64> {
        self.entries@
    }
}

impl Frame3 {
    #[verifier::type_invariant]
    closed spec fn well_formed(self) -> bool {
        is_pose_matrix(self.entries@)
    }

    /// The pose that moves nothing.
    pub fn identity() -> (frame: Frame3)
        ensures
            frame@ == identity_entries(),
    {
        let o: u64 = ONE_BITS;
        let z: u64 = ZERO_BITS;
        let entries: [u64; 16] = [o, z, z, z, z, o, z, z, z, z, o, z, z, z, z, o];
        proof {
            lemma_zero_and_one_are_finite();
            assert(entries@ =~= identity_entries());
        }
        Frame3 { entries }
    }

    /// Takes a flat row-major matrix as a pose. Succeeds exactly when the
    /// matrix is well formed, and then keeps every entry in its place.
    pub fn from_flat(m: &Vec<u64>) -> (checked: Result<Frame3, KinematicsError>)
        ensures
            match checked {
                Ok(frame) => checked_pose(m@) == Ok::<Seq<u64>, KinematicsError>(frame@),
                Err(e) => checked_pose(m@) == Err::<Seq<u64>, KinematicsError>(e),
            },
    {
        if m.len() != MATRIX_LEN {
            return Err(KinematicsError::InvalidTransform);
        }
        let mut entries: [u64; 16] = [0; 16];
        let mut i: usize = 0;
        while i < MATRIX_LEN
            invariant
                i <= MATRIX_LEN,
                m.len() == MATRIX_LEN,
                forall|k: int| 0 <= k < i ==> entries@[k] == m@[k] && is_finite(#[trigger] m@[k]),
            decreases MATRIX_LEN - i,
        {
            if !bits_are_finite(m[i]) {
                return Err(KinematicsError::InvalidTransform);
            }
            entries[i] = m[i];
            i += 1;
        }
        if !(bits_are_zero(m[12]) && bits_are_zero(m[13]) && bits_are_zero(m[14]) && bits_are_one(
            m[15],
        )) {
            return Err(KinematicsError::InvalidTransform);
        }
        assert(entries@ =~= m@);
        Ok(Frame3 { entries })
    }

    /// The sixteen entries, row by row. They form a well-formed pose matrix,
    /// so reading them back with `from_flat` succeeds and gives this pose
    /// again, entry for entry.
    pub fn to_flat(&self) -> (m: Vec<u64>)
        ensures
            m@ == self@,
            is_pose_matrix(m@),
            checked_pose(m@) == Ok::<Seq<u64>, KinematicsError>(self@),
    {
        proof {
            use_type_invariant(self);
        }
        let mut m: Vec<u64> = Vec::new();
        let mut i: usize = 0;
        while i < MATRIX_LEN
            invariant
                i <= MATRIX_LEN,
                m@ == self@.subrange(0, i as int),
            decreases MATRIX_LEN - i,
        {
            m.push(self.entries[i]);
            assert(m@ =~= self@.subrange(0, i + 1));
            i += 1;
        }
        assert(m@ =~= self@);
        m
    }

    /// The entry in row `row`, column `col`, both counted from zero.
    pub fn entry(&self, row: usize, col: usize) -> (bits: u64)
        requires
            row < 4,
            col < 4,
        ensures
            bits == self@[flat_index(row as int, col as int)],
    {
        self.entries[4 * row + col]
    }

    /// The translation part: the first three entries of the last column.
    pub fn translation(&self) -> (t: [u64; 3])
        ensures
            t@ == seq![self@[3], self@[7], self@[11]],
    {
        let t: [u64; 3] = [self.entries[3], self.entries[7], self.entries[11]];
        assert(t@ =~= seq![self@[3], self@[7], self@[11]]);
        t
    }

    /// The rotation part: the upper-left 3x3 block, row by row.
    pub fn rotation(&self) -> (r: [u64; 9])
        ensures
            r@ == Seq::new(9, |i: int| self@[flat_index(i / 3, i % 3)]),
    {
        let e = &self.entries;
        let r: [u64; 9] = [e[0], e[1], e[2], e[4], e[5], e[6], e[8], e[9], e[10]];
        assert(r@ =~= Seq::new(9, |i: int| self@[flat_index(i / 3, i % 3)]));
        r
    }
}

/// The entries of each pose of a sequence, pose by pose.
pub open spec fn frames_entries(frames: Seq<Frame3>) -> Seq<Seq<u64>> {
    Seq::new(frames.len(), |i: int| frames[i]@)
}

/// The poses of one evaluation of the arm: the six joint frames in axis
/// order, then the end-effector frame.
#[derive(Debug)]
pub struct PoseSet {
    frames: Vec<Frame3>,
}

impl View for PoseSet {
    type V = Seq<Seq<u64>>;

    closed spec fn view(&self) -> Seq<Seq<u64>> {
        frames_entries(self.frames@)
    }
}

impl PoseSet {
    #[verifier::type_invariant]
    closed spec fn well_formed(self) -> bool {
        self.frames.len() == FRAME_COUNT
    }

    /// Takes a sequence of poses as the result of one evaluation. Succeeds
    /// exactly when there are seven of them, and keeps their order.
    pub fn from_frames(frames: Vec<Frame3>) -> (set: Option<PoseSet>)
        ensures
            match set {
                Some(poses) => frames.len() == FRAME_COUNT && poses@ == frames_entries(frames@),
                None => frames.len() != FRAME_COUNT,
            },
    {
        if frames.len() == FRAME_COUNT {
            Some(PoseSet { frames })
        } else {
            None
        }
    }

    /// The number of poses, which is always seven.
    pub fn len(&self) -> (n: usize)
        ensures
            n == FRAME_COUNT,
            n == self@.len(),
    {
        proof {
            use_type_invariant(self);
        }
        self.frames.len()
    }

    /// The pose at place `index`: a joint frame for 0 to 5, the end-effector
    /// frame for 6.
    pub fn frame(&self, index: usize) -> (pose: Frame3)
        requires
            index < FRAME_COUNT,
        ensures
            pose@ == self@[index as int],
    {
        proof {
            use_type_invariant(self);
        }
        self.frames[index]
    }

    /// The end-effector pose: the last of the seven.
    pub fn end_pose(&self) -> (pose: Frame3)
        ensures
            self@.len() == FRAME_COUNT,
            pose@ == self@[FRAME_COUNT - 1],
    {
        proof {
            use_type_invariant(self);
        }
        self.frames[FRAME_COUNT - 1]
    }

    /// The seven poses in order, each as its flat matrix.
    pub fn to_flat(&self) -> (rows: Vec<Vec<u64>>)
        ensures
            rows@.len() == FRAME_COUNT,
            forall|i: int| 0 <= i < FRAME_COUNT ==> (#[trigger] rows@[i])@ == self@[i],
    {
        proof {
            use_type_invariant(self);
        }
        let mut rows: Vec<Vec<u64>> = Vec::new();
        let mut i: usize = 0;
        while i < FRAME_COUNT
            invariant
                i <= FRAME_COUNT,
                self.frames.len() == FRAME_COUNT,
                rows@.len() == i,
                forall|k: int| 0 <= k < i ==> (#[trigger] rows@[k])@ == self@[k],
            decreases FRAME_COUNT - i,
        {
            let row = self.frames[i].to_flat();
            rows.push(row);
            i += 1;
        }
        rows
    }
}

/// A flat matrix is refused exactly when it is not well formed, and a
/// refusal is always `InvalidTransform`.
pub proof fn lemma_pose_refusal(m: Seq<u64>)
    ensures
        checked_pose(m) is Err <==> !is_pose_matrix(m),
        checked_pose(m) is Err ==> checked_pose(m) == Err::<Seq<u64>, KinematicsError>(
            KinematicsError::InvalidTransform,
        ),
        m.len() != MATRIX_LEN ==> checked_pose(m) is Err,
{
}

} // verus!
