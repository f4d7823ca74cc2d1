//! Getting host data into a graph.
//!
//! An input is the only place a copy crosses from host memory onto the
//! device, and the runtime aborts the process on a buffer that does not fill
//! the tensor it is written to, so the element count is checked first.
use crate::compute::error::{count_of, number, Error};
use crate::text::decimal;
use vstd::prelude::*;

verus! {

/// Whether `data` fills a two-dimensional input of extents `shape` —
/// fastest-varying dimension first — exactly.
pub fn check_input<T>(data: &[T], shape: [usize; 2]) -> (checked: Result<(), Error>)
    requires
        shape@[0] * shape@[1] <= usize::MAX,
    ensures
        data@.len() == shape@[0] * shape@[1] ==> checked is Ok,
        data@.len() != shape@[0] * shape@[1] ==> (checked matches Err(
            Error::ShapeMismatch { expected, actual },
        ) && expected@ == decimal((shape@[0] * shape@[1]) as nat) + " elements"@ && actual@
            == decimal(data@.len())),
{
    let elements = shape[0] * shape[1];
    if data.len() != elements {
        return Err(
            Error::ShapeMismatch {
                expected: count_of(elements, " elements"),
                actual: number(data.len()),
            },
        );
    }
    Ok(())
}

} // verus!
