//! Facts about the deep views of vectors.

use vstd::prelude::*;

verus! {

/// Pushing an element onto a vector pushes its deep view onto the vector's
/// deep view.
pub proof fn lemma_deep_view_push<T: DeepView>(before: Vec<T>, after: Vec<T>, last: T)
    requires
        after@ == before@.push(last),
    ensures
        after.deep_view() == before.deep_view().push(last.deep_view()),
{
    assert(after.deep_view() =~= before.deep_view().push(last.deep_view()));
}

/// Appending a vector to another appends its deep view to the other's.
pub proof fn lemma_deep_view_append<T: DeepView>(before: Vec<T>, added: Vec<T>, after: Vec<T>)
    requires
        after@ == before@ + added@,
    ensures
        after.deep_view() == before.deep_view() + added.deep_view(),
{
    assert(after.deep_view() =~= before.deep_view() + added.deep_view());
}

} // verus!
