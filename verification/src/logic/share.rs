use std::sync::Arc;
use vstd::prelude::*;

verus! {

/// `Arc::clone`.
///
/// Taken on trust: the result is another pointer to the same value.
#[verifier::external_body]
pub(crate) fn share<T>(shared: &Arc<T>) -> (res: Arc<T>)
    ensures
        res == *shared,
{
    Arc::clone(shared)
}

} // verus!
