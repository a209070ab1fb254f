pub mod loader;
pub mod vector;

use std::sync::Arc;
use vstd::prelude::*;

verus! {

/// Relies on `Option::clone` over `Arc::clone`: cloning an optional shared
/// handle yields a handle to the same underlying allocation, so the new
/// handle refers to the same value.
#[verifier::external_body]
fn clone_loader(l: &Option<Arc<loader::KernelLoader>>) -> (r: Option<
    Arc<loader::KernelLoader>,
>)
    ensures
        r == *l,
{
    l.clone()
}

/// A container for one value, or a vector of values, optionally bound to
/// the compute context that its arithmetic runs on. Operations between two
/// containers require both to reference a context; the context is shared by
/// handle and outlives every container that references it.
#[allow(non_snake_case)]
#[derive(Clone)]
pub struct Matrix<T> {
    pub loader: Option<Arc<loader::KernelLoader>>,
    pub A: T,
}

impl<T: Clone> Matrix<T> {
    /// Broadcasts this container's value into a vector container of `size`
    /// copies, bound to the same compute context. This is how a scalar
    /// operand is widened before it meets a vector operand.
    pub fn fill_dim(&self, size: usize) -> (m: Matrix<Vec<T>>)
        ensures
            m.loader == self.loader,
            m.A@.len() == size,
            forall|j: int| 0 <= j < size ==> cloned(self.A, #[trigger] m.A@[j]),
    {
        let mut data: Vec<T> = Vec::new();
        let mut i: usize = 0;
        while i < size
            invariant
                i <= size,
                data@.len() == i,
                forall|j: int| 0 <= j < i ==> cloned(self.A, #[trigger] data@[j]),
            decreases size - i,
        {
            data.push(self.A.clone());
            i = i + 1;
        }
        Matrix { loader: clone_loader(&self.loader), A: data }
    }
}

} // verus!
