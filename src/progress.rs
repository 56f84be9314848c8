use vstd::prelude::*;

verus! {

/// What one poll of a suspended computation reported.
pub enum Progress<T> {
    /// The computation is not finished; it will be polled again.
    Pending,
    /// The computation finished with this value.
    Ready(T),
}

impl<T> Progress<T> {
    pub open spec fn is_ready(&self) -> bool {
        self is Ready
    }
}

} // verus!
