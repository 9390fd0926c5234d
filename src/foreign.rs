//! The foreign handle: the one place that enters the Python runtime's
//! global interpreter lock. The calls into Python take a `Python` token,
//! which only exists while the lock is held.
use vstd::prelude::*;
use pyo3::types::{PyAny, PyAnyMethods, PyType};
use pyo3::{Py, PyErr, Python};

verus! {

#[verifier::external_type_specification]
#[verifier::external_body]
#[verifier::reject_recursive_types(T)]
pub struct ExPy<T>(Py<T>);

#[verifier::external_type_specification]
#[verifier::external_body]
pub struct ExPyAny(PyAny);

#[verifier::external_type_specification]
#[verifier::external_body]
pub struct ExPyType(PyType);

#[verifier::external_type_specification]
#[verifier::external_body]
pub struct ExPyErr(PyErr);

#[verifier::external_type_specification]
#[verifier::external_body]
pub struct ExPython<'py>(Python<'py>);

/// Relies on `Python::with_gil`: takes the lock (starting the interpreter
/// first if needed, as the `auto-initialize` feature provides), runs `f` once
/// with the token that proves the lock is held, and releases the lock before
/// returning what `f` returned.
pub assume_specification<'a, F, R>[ Python::<'a>::with_gil::<F, R> ](f: F) -> (r: R)
    where
        F: for<'py> FnOnce(Python<'py>) -> R,
    requires
        forall|py: Python| f.requires((py,)),
    ensures
        exists|py: Python| f.ensures((py,), r),
;

/// Holds when `r` is a possible outcome of calling the method `name` of
/// `obj` with no arguments. It is a relation, not a function: the outcome
/// also depends on the state of the foreign runtime.
pub uninterp spec fn method_outcome(obj: Py<PyAny>, name: Seq<char>, r: Result<Py<PyAny>, PyErr>) -> bool;

/// Holds when `r` is a possible answer of Python's `isinstance(obj, ty)`.
/// It is a relation, not a function: the answer also depends on the state
/// of the foreign runtime.
pub uninterp spec fn instance_answer(obj: Py<PyAny>, ty: Py<PyType>, r: Result<bool, PyErr>) -> bool;

/// Relies on `Py::call_method0`: `obj.name()` with no arguments; a missing
/// method or a raised exception comes back as `Err`. The result is an
/// outcome of that call on that object.
#[verifier::external_body]
fn call_method0_held(py: Python<'_>, obj: &Py<PyAny>, name: &str) -> (r: Result<Py<PyAny>, PyErr>)
    ensures
        method_outcome(*obj, name@, r),
{
    obj.call_method0(py, name)
}

/// Relies on `Bound::is_instance`: Python's `isinstance(obj, ty)`; an
/// exception it raises comes back as `Err`. The result is an answer of that
/// check on those two objects.
#[verifier::external_body]
fn is_instance_held(py: Python<'_>, obj: &Py<PyAny>, ty: &Py<PyType>) -> (r: Result<bool, PyErr>)
    ensures
        instance_answer(*obj, *ty, r),
{
    obj.bind(py).is_instance(ty.bind(py).as_any())
}

/// Sole owner, on the native side, of one reference into the foreign
/// runtime. Dropping it gives the reference back through pyo3, which
/// releases it at once when the lock is held and defers it otherwise.
pub struct ForeignHandle {
    obj: Py<PyAny>,
}

impl ForeignHandle {
    /// The foreign object this handle refers to.
    pub closed spec fn object(&self) -> Py<PyAny> {
        self.obj
    }

    pub fn new(obj: Py<PyAny>) -> (r: Self)
        ensures
            r.object() == obj,
    {
        ForeignHandle { obj }
    }

    /// Calls the named method with no arguments, under the lock.
    pub fn invoke_method(&self, name: &str) -> (r: Result<Py<PyAny>, PyErr>)
        ensures
            method_outcome(self.object(), name@, r),
    {
        let call = |py: Python| -> (o: Result<Py<PyAny>, PyErr>)
            ensures
                method_outcome(self.obj, name@, o),
            { call_method0_held(py, &self.obj, name) };
        Python::with_gil(call)
    }

    /// Asks, under the lock, whether the object is an instance of `ty`.
    pub fn is_instance_of(&self, ty: &Py<PyType>) -> (r: Result<bool, PyErr>)
        ensures
            instance_answer(self.object(), *ty, r),
    {
        let check = |py: Python| -> (a: Result<bool, PyErr>)
            ensures
                instance_answer(self.obj, *ty, a),
            { is_instance_held(py, &self.obj, ty) };
        Python::with_gil(check)
    }
}

} // verus!
