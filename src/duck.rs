//! The capability and its two backends.
use vstd::prelude::*;
use pyo3::types::{PyAny, PyType};
use pyo3::{Py, PyErr};
use crate::foreign::{instance_answer, method_outcome, ForeignHandle};

verus! {

/// What a backend says when it speaks.
#[derive(Debug)]
pub enum Voice {
    /// The line a native duck utters; the caller decides where it goes.
    Line(String),
    /// What the foreign method returned; its side effects happened in the
    /// foreign runtime.
    Returned(Py<PyAny>),
}

/// The failures of the adapter.
#[derive(Debug)]
pub enum QuackError {
    /// A shape-checked construction was handed an object of another type.
    UnexpectedForeignShape,
    /// The foreign method is missing, or raised; the exception is kept.
    ForeignInvocationError(PyErr),
}

/// The line a native duck named `name` utters.
pub open spec fn quack_line(name: Seq<char>) -> Seq<char> {
    "Quack, "@ + name + "!"@
}

/// The name of the method a foreign duck is asked to call.
pub open spec fn quack_method() -> Seq<char> {
    "quack"@
}

/// The capability: one operation, no arguments, one outcome.
pub trait Quacker {
    fn speak(&self) -> Result<Voice, QuackError>;
}

/// A backend made of native data only.
pub struct RustDuck {
    pub name: String,
}

impl RustDuck {
    pub fn new(name: String) -> (r: Self)
        ensures
            r.name == name,
    {
        RustDuck { name }
    }

    /// The line this duck utters.
    pub fn line(&self) -> (r: String)
        ensures
            r@ == quack_line(self.name@),
    {
        let mut s = String::from_str("Quack, ");
        s.append(self.name.as_str());
        s.append("!");
        proof {
            reveal_strlit("Quack, ");
            reveal_strlit("!");
        }
        s
    }
}

impl Quacker for RustDuck {
    fn speak(&self) -> (r: Result<Voice, QuackError>)
        ensures
            r matches Ok(Voice::Line(s)) && s@ == quack_line(self.name@),
    {
        Ok(Voice::Line(self.line()))
    }
}

/// What speaking through a foreign object gives, for each outcome of the
/// method call.
pub open spec fn outcome_voice(outcome: Result<Py<PyAny>, PyErr>) -> Result<Voice, QuackError> {
    match outcome {
        Ok(v) => Ok(Voice::Returned(v)),
        Err(e) => Err(QuackError::ForeignInvocationError(e)),
    }
}

/// A backend that speaks by calling `quack()` on a foreign object.
pub struct PyDuck {
    handle: ForeignHandle,
}

impl PyDuck {
    /// The foreign object this duck calls.
    pub closed spec fn object(&self) -> Py<PyAny> {
        self.handle.object()
    }

    /// Wraps any foreign object; whether it can quack is found out on the
    /// first call.
    pub fn new(inner: Py<PyAny>) -> (r: Self)
        ensures
            r.object() == inner,
    {
        PyDuck { handle: ForeignHandle::new(inner) }
    }

    /// Asks, under the lock, whether the foreign object is an instance of
    /// `ty`.
    pub fn is_instance_of(&self, ty: &Py<PyType>) -> (r: Result<bool, PyErr>)
        ensures
            instance_answer(self.object(), *ty, r),
    {
        self.handle.is_instance_of(ty)
    }

    /// Calls `quack()` on the foreign object, under the lock, and hands back
    /// what it returned or raised.
    pub fn quack(&self) -> (r: Result<Py<PyAny>, PyErr>)
        ensures
            method_outcome(self.object(), quack_method(), r),
    {
        self.handle.invoke_method("quack")
    }

    /// Turns the outcome of the foreign call into what `speak` reports.
    pub fn voice_of(outcome: Result<Py<PyAny>, PyErr>) -> (r: Result<Voice, QuackError>)
        ensures
            r == outcome_voice(outcome),
    {
        match outcome {
            Ok(v) => Ok(Voice::Returned(v)),
            Err(e) => Err(QuackError::ForeignInvocationError(e)),
        }
    }
}

impl Quacker for PyDuck {
    fn speak(&self) -> (r: Result<Voice, QuackError>)
        ensures
            exists|o: Result<Py<PyAny>, PyErr>|
                method_outcome(self.object(), quack_method(), o) && r == #[trigger] outcome_voice(o),
    {
        PyDuck::voice_of(self.quack())
    }
}

} // verus!
