//! The uniform holder: one backend, chosen at construction, never replaced.
use vstd::prelude::*;
use pyo3::types::{PyAny, PyType};
use pyo3::{Py, PyErr};
use crate::foreign::{instance_answer, method_outcome};
use crate::duck::{outcome_voice, quack_line, quack_method, PyDuck, QuackError, Quacker, RustDuck, Voice};

verus! {

/// Which backend an adapter holds, and what it holds.
pub enum DuckView {
    Native(Seq<char>),
    Foreign(Py<PyAny>),
}

/// The backend slot.
enum Backend {
    Native(RustDuck),
    Foreign(PyDuck),
}

/// An adapter holds exactly one backend; callers only see `speak`.
pub struct AnyQuacker {
    backend: Backend,
}

/// What a deferred construction from `obj` holds.
pub open spec fn deferred_view(obj: Py<PyAny>) -> DuckView {
    DuckView::Foreign(obj)
}

/// What a shape-checked construction from `obj` gives, for each answer of
/// the shape check.
pub open spec fn checked_view(obj: Py<PyAny>, check: Result<bool, PyErr>) -> Result<DuckView, QuackError> {
    match check {
        Ok(true) => Ok(DuckView::Foreign(obj)),
        Ok(false) => Err(QuackError::UnexpectedForeignShape),
        Err(e) => Err(QuackError::ForeignInvocationError(e)),
    }
}

/// What `speak` may give on an adapter whose view is `v`.
pub open spec fn speech_allowed(v: DuckView, r: Result<Voice, QuackError>) -> bool {
    match v {
        DuckView::Native(name) => r matches Ok(Voice::Line(s)) && s@ == quack_line(name),
        DuckView::Foreign(obj) => exists|o: Result<Py<PyAny>, PyErr>|
            method_outcome(obj, quack_method(), o) && r == #[trigger] outcome_voice(o),
    }
}

impl View for AnyQuacker {
    type V = DuckView;

    closed spec fn view(&self) -> DuckView {
        match self.backend {
            Backend::Native(d) => DuckView::Native(d.name@),
            Backend::Foreign(d) => DuckView::Foreign(d.object()),
        }
    }
}

impl AnyQuacker {
    /// An adapter over a native duck named `name`.
    pub fn from_native(name: String) -> (r: Self)
        ensures
            r@ == DuckView::Native(name@),
    {
        AnyQuacker { backend: Backend::Native(RustDuck::new(name)) }
    }

    /// An adapter over any foreign object; whether it can quack is found
    /// out on the first `speak`.
    pub fn from_foreign_any(obj: Py<PyAny>) -> (r: Self)
        ensures
            r@ == deferred_view(obj),
    {
        AnyQuacker { backend: Backend::Foreign(PyDuck::new(obj)) }
    }

    /// Finishes a shape-checked construction, given the answer of the shape
    /// check on `duck`.
    pub fn from_shape_check(duck: PyDuck, check: Result<bool, PyErr>) -> (r: Result<Self, QuackError>)
        ensures
            match r {
                Ok(a) => checked_view(duck.object(), check) == Ok::<DuckView, QuackError>(a@),
                Err(e) => checked_view(duck.object(), check) == Err::<DuckView, QuackError>(e),
            },
    {
        match check {
            Ok(true) => Ok(AnyQuacker { backend: Backend::Foreign(duck) }),
            Ok(false) => Err(QuackError::UnexpectedForeignShape),
            Err(e) => Err(QuackError::ForeignInvocationError(e)),
        }
    }

    /// An adapter over `obj`, provided it is an instance of `expected`.
    pub fn from_foreign_checked(obj: Py<PyAny>, expected: &Py<PyType>) -> (r: Result<Self, QuackError>)
        ensures
            exists|check: Result<bool, PyErr>|
                #[trigger] instance_answer(obj, *expected, check) && match r {
                    Ok(a) => checked_view(obj, check) == Ok::<DuckView, QuackError>(a@),
                    Err(e) => checked_view(obj, check) == Err::<DuckView, QuackError>(e),
                },
    {
        let duck = PyDuck::new(obj);
        let check = duck.is_instance_of(expected);
        AnyQuacker::from_shape_check(duck, check)
    }
}

impl Quacker for AnyQuacker {
    fn speak(&self) -> (r: Result<Voice, QuackError>)
        ensures
            speech_allowed(self@, r),
    {
        match &self.backend {
            Backend::Native(d) => d.speak(),
            Backend::Foreign(d) => d.speak(),
        }
    }
}

/// A native adapter never fails to speak: it always says its own line.
pub proof fn native_speech_never_fails(name: Seq<char>, r: Result<Voice, QuackError>)
    requires
        speech_allowed(DuckView::Native(name), r),
    ensures
        r matches Ok(Voice::Line(s)) && s@ == quack_line(name),
{
}

/// Given an object that passes the shape check, both foreign construction
/// paths hold the same backend, so `speak` allows the same outcomes on
/// both. Those outcomes are exactly the outcomes of calling `quack()` on the
/// object directly, each passed on as it came.
pub proof fn foreign_paths_agree(obj: Py<PyAny>)
    ensures
        checked_view(obj, Ok(true)) == Ok::<DuckView, QuackError>(deferred_view(obj)),
        forall|r: Result<Voice, QuackError>|
            speech_allowed(deferred_view(obj), r) <==> speech_allowed(
                checked_view(obj, Ok(true))->Ok_0,
                r,
            ),
        forall|o: Result<Py<PyAny>, PyErr>|
            method_outcome(obj, quack_method(), o) ==> speech_allowed(
                deferred_view(obj),
                #[trigger] outcome_voice(o),
            ),
        forall|r: Result<Voice, QuackError>|
            #[trigger] speech_allowed(deferred_view(obj), r) ==> exists|o: Result<Py<PyAny>, PyErr>|
                method_outcome(obj, quack_method(), o) && r == #[trigger] outcome_voice(o),
{
}

/// An object of the wrong type is refused by the shape-checked path, with
/// `UnexpectedForeignShape`, and accepted by the deferred one.
pub proof fn wrong_shape_refused_only_when_checked(obj: Py<PyAny>)
    ensures
        checked_view(obj, Ok(false)) == Err::<DuckView, QuackError>(
            QuackError::UnexpectedForeignShape,
        ),
        deferred_view(obj) == DuckView::Foreign(obj),
{
}

/// When calling `quack()` on the object can fail with `e`, a deferred
/// adapter over it may report `ForeignInvocationError` carrying `e`; and a
/// foreign adapter reports no other kind of failure.
pub proof fn failed_call_reported(obj: Py<PyAny>, e: PyErr)
    requires
        method_outcome(obj, quack_method(), Err(e)),
    ensures
        outcome_voice(Err(e)) == Err::<Voice, QuackError>(QuackError::ForeignInvocationError(e)),
        speech_allowed(deferred_view(obj), Err(QuackError::ForeignInvocationError(e))),
        forall|r: Result<Voice, QuackError>|
            speech_allowed(deferred_view(obj), r) ==> (r matches Ok(Voice::Returned(_))
                || r matches Err(QuackError::ForeignInvocationError(_))),
{
    assert(outcome_voice(Err(e)) == Err::<Voice, QuackError>(QuackError::ForeignInvocationError(e)));
}

} // verus!
