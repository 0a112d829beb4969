use vstd::prelude::*;
use pyo3::types::PyAnyMethods;

verus! {

/// `pyo3::Python`, the token of a session with the interpreter. It is
/// passed on unread.
#[verifier::external_type_specification]
#[verifier::external_body]
pub struct ExPython<'py>(pyo3::Python<'py>);

/// `pyo3::Bound`, a handle to a Python object inside a session. It is
/// passed on unread.
#[verifier::external_type_specification]
#[verifier::external_body]
#[verifier::reject_recursive_types(T)]
pub struct ExBound<'py, T>(pyo3::Bound<'py, T>);

/// `pyo3::Py`, a handle to a Python object outside any session. It is
/// passed on unread.
#[verifier::external_type_specification]
#[verifier::external_body]
#[verifier::reject_recursive_types(T)]
pub struct ExPy<T>(pyo3::Py<T>);

/// `pyo3::PyAny`, the type of any Python object. It only marks handles.
#[verifier::external_type_specification]
#[verifier::external_body]
pub struct ExPyAny(pyo3::PyAny);

/// `pyo3::types::PyIterator`, the type of a Python iterator. It only marks
/// handles.
#[verifier::external_type_specification]
#[verifier::external_body]
pub struct ExPyIterator(pyo3::types::PyIterator);

/// `pyo3::PyErr`, a Python exception. It is passed on unread.
#[verifier::external_type_specification]
#[verifier::external_body]
pub struct ExPyErr(pyo3::PyErr);

/// Calls `Py::into_bound`, which ties a handle to the interpreter session
/// `py`. Nothing is claimed of the result.
#[verifier::external_body]
pub(crate) fn into_bound<'py>(handle: pyo3::Py<pyo3::PyAny>, py: pyo3::Python<'py>) -> (object:
    pyo3::Bound<'py, pyo3::PyAny>) {
    handle.into_bound(py)
}

/// Calls `Bound::unbind`, which releases an object from its interpreter
/// session. Nothing is claimed of the result.
#[verifier::external_body]
pub(crate) fn unbind<'py>(object: pyo3::Bound<'py, pyo3::PyAny>) -> (handle: pyo3::Py<
    pyo3::PyAny,
>) {
    object.unbind()
}

/// Calls `PyAnyMethods::getattr`, which reads the attribute `name` of
/// `object`. What comes back depends on the object: nothing is claimed.
#[verifier::external_body]
pub(crate) fn getattr<'py>(object: &pyo3::Bound<'py, pyo3::PyAny>, name: &str) -> (r: Result<
    pyo3::Bound<'py, pyo3::PyAny>,
    pyo3::PyErr,
>) {
    object.getattr(name)
}

/// Calls `PyAnyMethods::call0`, which calls `object` without arguments. What
/// comes back depends on the object: nothing is claimed.
#[verifier::external_body]
pub(crate) fn call0<'py>(object: &pyo3::Bound<'py, pyo3::PyAny>) -> (r: Result<
    pyo3::Bound<'py, pyo3::PyAny>,
    pyo3::PyErr,
>) {
    object.call0()
}

/// Calls `PyAnyMethods::iter`, which asks `object` for an iterator. What
/// comes back depends on the object: nothing is claimed.
#[verifier::external_body]
pub(crate) fn iter<'py>(object: &pyo3::Bound<'py, pyo3::PyAny>) -> (r: Result<
    pyo3::Bound<'py, pyo3::types::PyIterator>,
    pyo3::PyErr,
>) {
    object.iter()
}

/// Calls `Iterator::next` on a Python iterator: `None` when it is exhausted,
/// else the next item or the error that producing it raised. Nothing is
/// claimed of the result.
#[verifier::external_body]
pub(crate) fn next<'py>(iterator: &mut pyo3::Bound<'py, pyo3::types::PyIterator>) -> (r: Option<
    Result<pyo3::Bound<'py, pyo3::PyAny>, pyo3::PyErr>,
>) {
    iterator.next()
}

/// Calls `PyAnyMethods::extract` for a `String`. What comes back depends on
/// the object: nothing is claimed.
#[verifier::external_body]
pub(crate) fn extract_string<'py>(object: &pyo3::Bound<'py, pyo3::PyAny>) -> (r: Result<
    String,
    pyo3::PyErr,
>) {
    object.extract::<String>()
}

/// Calls `PyAnyMethods::extract` for a tuple of four `u32`. What comes back
/// depends on the object: nothing is claimed.
#[verifier::external_body]
pub(crate) fn extract_position<'py>(object: &pyo3::Bound<'py, pyo3::PyAny>) -> (r: Result<
    (u32, u32, u32, u32),
    pyo3::PyErr,
>) {
    object.extract::<(u32, u32, u32, u32)>()
}

/// Calls `PyAnyMethods::extract` for a tuple of three object handles. What
/// comes back depends on the object: nothing is claimed.
#[verifier::external_body]
pub(crate) fn extract_triple<'py>(object: &pyo3::Bound<'py, pyo3::PyAny>) -> (r: Result<
    (pyo3::Py<pyo3::PyAny>, pyo3::Py<pyo3::PyAny>, pyo3::Py<pyo3::PyAny>),
    pyo3::PyErr,
>) {
    object.extract::<(pyo3::Py<pyo3::PyAny>, pyo3::Py<pyo3::PyAny>, pyo3::Py<pyo3::PyAny>)>()
}

} // verus!
