//! The log container: an immutable-style vector from the `im` crate, held
//! behind trusted declarations. Its contents are modelled as a sequence of
//! character sequences, one per stored string, in insertion order.

use vstd::prelude::*;

verus! {

/// Declares the `im` crate's persistent vector so it can stand in fields and
/// signatures; values of it are read only through the wrappers below.
#[verifier::external_type_specification]
#[verifier::external_body]
#[verifier::reject_recursive_types(A)]
pub struct ExVector<A>(im::Vector<A>);

/// The strings stored in an `im::Vector<String>`, in order.
pub uninterp spec fn vector_model(v: im::Vector<String>) -> Seq<Seq<char>>;

/// Relies on im::Vector::new: constructs an empty vector.
#[verifier::external_body]
pub(crate) fn vector_new() -> (r: im::Vector<String>)
    ensures
        vector_model(r) == Seq::<Seq<char>>::empty(),
{
    im::Vector::new()
}

/// Relies on im::Vector::len: the number of stored elements.
#[verifier::external_body]
pub(crate) fn vector_len(v: &im::Vector<String>) -> (r: usize)
    ensures
        r == vector_model(*v).len(),
{
    v.len()
}

/// Relies on im::Vector::push_back: appends one element at the back and
/// moves no other element.
#[verifier::external_body]
pub(crate) fn vector_push_back(v: &mut im::Vector<String>, value: String)
    ensures
        vector_model(*final(v)) == vector_model(*old(v)).push(value@),
{
    v.push_back(value)
}

/// Relies on im::Vector::get: returns the element at `index`, which is
/// `Some` exactly when `index` is below the length.
#[verifier::external_body]
pub(crate) fn vector_get<'a>(v: &'a im::Vector<String>, index: usize) -> (r: &'a String)
    requires
        index < vector_model(*v).len(),
    ensures
        r@ == vector_model(*v)[index as int],
{
    v.get(index).unwrap()
}

} // verus!
