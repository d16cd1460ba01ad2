//! The label that follows a dragged row.
use vstd::prelude::*;
use crate::app::IndexPath;

verus! {

/// The label of the row being dragged.
pub struct DragLabel {
    pub ix: IndexPath,
}

impl DragLabel {
    pub fn new(ix: IndexPath) -> (d: Self)
        ensures
            d.ix == ix,
    {
        DragLabel { ix }
    }
}

} // verus!
