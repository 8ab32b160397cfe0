//! The matrix that takes the mesh to clip space, as the uniform buffer
//! holds it.

use vstd::prelude::*;
use crate::pod::{Pod, u32_le, push_u32_le};

verus! {

/// The number of bytes of a transform in the uniform buffer.
pub const TRANSFORM_SIZE: u64 = 64;

/// A four by four matrix of single precision numbers, column after
/// column, each number as its bits.
#[derive(Clone, Copy, Debug, PartialEq, Eq)]
pub struct Transform {
    pub cells: [u32; 16],
}

/// The bytes of the numbers of `cells`, in order.
pub open spec fn cells_le(cells: Seq<u32>) -> Seq<u8>
    decreases cells.len(),
{
    if cells.len() == 0 {
        Seq::empty()
    } else {
        cells_le(cells.drop_last()) + u32_le(cells.last())
    }
}

/// Every number takes four bytes.
pub proof fn lemma_cells_le_len(cells: Seq<u32>)
    ensures
        cells_le(cells).len() == 4 * cells.len(),
    decreases cells.len(),
{
    if cells.len() > 0 {
        lemma_cells_le_len(cells.drop_last());
    }
}

impl Pod for Transform {
    open spec fn encoding(&self) -> Seq<u8> {
        cells_le(self.cells@)
    }

    fn bytes(&self) -> (out: Vec<u8>) {
        let mut out: Vec<u8> = Vec::new();
        let mut i: usize = 0;
        while i < 16
            invariant
                i <= 16,
                out@ == cells_le(self.cells@.take(i as int)),
            decreases 16 - i,
        {
            proof {
                let next = self.cells@.take(i + 1);
                assert(next.drop_last() =~= self.cells@.take(i as int));
                assert(next.last() == self.cells@[i as int]);
            }
            push_u32_le(&mut out, self.cells[i]);
            i += 1;
        }
        assert(self.cells@.take(16) =~= self.cells@);
        out
    }
}

impl Transform {
    /// A transform fills the uniform buffer exactly.
    pub proof fn lemma_encoding_len(self)
        ensures
            self.encoding().len() == TRANSFORM_SIZE,
    {
        lemma_cells_le_len(self.cells@);
    }
}

} // verus!
