use vstd::prelude::*;

verus! {

/// A tensor shape in the form a native tensor library takes: fixed-rank,
/// with signed dimensions.
#[derive(Debug, Clone, Copy)]
pub struct TchShape<const D: usize> {
    /// The shape's dimensions.
    pub dims: [i64; D],
}

impl<const D: usize> TchShape<D> {
    /// Converts an unsigned shape into the signed native form.
    pub fn from_dims(shape: &[usize; D]) -> (r: TchShape<D>)
        requires
            forall|i: int| 0 <= i < D ==> #[trigger] shape@[i] <= i64::MAX,
        ensures
            forall|i: int| 0 <= i < D ==> #[trigger] r.dims@[i] == shape@[i] as i64,
    {
        let mut dims: [i64; D] = [0; D];
        let mut i: usize = 0;
        while i < D
            invariant
                i <= D,
                dims@.len() == D,
                shape@.len() == D,
                forall|j: int| 0 <= j < D ==> #[trigger] shape@[j] <= i64::MAX,
                forall|j: int| 0 <= j < i ==> #[trigger] dims@[j] == shape@[j] as i64,
            decreases D - i,
        {
            dims[i] = shape[i] as i64;
            i = i + 1;
        }
        TchShape { dims }
    }
}

} // verus!
