//! The decisions of the protected-call bridge.
//!
//! A protected call runs a host closure under the interpreter's protect
//! primitive. The closure waits in a [`ClosureSlot`], a take-once cell, whose
//! address travels to the primitive's callback as text (see `codec`). The
//! callback resolves the slot, which hands the closure out once and is empty from
//! then on. The status that the primitive reports then decides between the
//! callback's value and the exception that the interpreter left pending.
use crate::helpers::Value;
use crate::value::{Qnil, VALUE};
use vstd::prelude::*;

verus! {

/// Wraps a Ruby exception `Value` and exposes its values usable in Rust.
#[derive(Debug)]
pub struct CaughtException {
    pub exception_object: Value,
    pub exception_class_name: String,
    pub message: String,
}

impl CaughtException {
    /// The record of the exception object `exception_object`, of the class
    /// named `exception_class_name`, with the text `message`.
    pub fn new(exception_object: Value, exception_class_name: String, message: String) -> (r: Self)
        ensures
            r.exception_object == exception_object,
            r.exception_class_name@ == exception_class_name@,
            r.message@ == message@,
    {
        CaughtException { exception_object, exception_class_name, message }
    }
}

/// Compare the class and message of an exception against another.
impl PartialEq for CaughtException {
    fn eq(&self, rhs: &Self) -> (r: bool)
        ensures
            r == (self.exception_class_name@ == rhs.exception_class_name@ && self.message@
                == rhs.message@),
    {
        self.exception_class_name == rhs.exception_class_name && self.message == rhs.message
    }
}

impl vstd::std_specs::cmp::PartialEqSpecImpl for CaughtException {
    open spec fn obeys_eq_spec() -> bool {
        true
    }

    open spec fn eq_spec(&self, rhs: &CaughtException) -> bool {
        self.exception_class_name@ == rhs.exception_class_name@ && self.message@ == rhs.message@
    }
}

impl Eq for CaughtException {

}

/// One resolution of a slot that held `before`: the slot is left empty, and the
/// result is the value of one run of the closure that was there, or nothing where
/// the slot was already empty.
pub open spec fn is_resolution<F: FnOnce() -> Value>(
    before: Option<F>,
    after: Option<F>,
    r: Option<Value>,
) -> bool {
    &&& after.is_none()
    &&& before.is_none() ==> r.is_none()
    &&& before matches Some(f) ==> (r matches Some(v) && f.ensures((), v))
}

/// The cell that holds the closure of one protected call until the callback
/// takes it. It hands the closure out at most once.
pub struct ClosureSlot<F> {
    f: Option<F>,
}

impl<F> View for ClosureSlot<F> {
    type V = Option<F>;

    /// The closure still waiting in the slot, if any.
    closed spec fn view(&self) -> Option<F> {
        self.f
    }
}

impl<F: FnOnce() -> Value> ClosureSlot<F> {
    /// A slot holding `f`.
    pub fn new(f: F) -> (r: Self)
        ensures
            r@ == Some(f),
    {
        ClosureSlot { f: Some(f) }
    }

    /// Whether the closure has been taken.
    pub fn is_consumed(&self) -> (r: bool)
        ensures
            r == self@.is_none(),
    {
        self.f.is_none()
    }

    /// Takes the closure out, leaving the slot empty. An empty slot gives `None`.
    pub fn take(&mut self) -> (r: Option<F>)
        ensures
            r == old(self)@,
            final(self)@.is_none(),
    {
        self.f.take()
    }

    /// Takes the closure out and runs it once, giving its value. An empty slot
    /// runs nothing and gives `None`; either way the slot is empty afterwards.
    pub fn invoke(&mut self) -> (r: Option<Value>)
        requires
            old(self)@ matches Some(f) ==> f.requires(()),
        ensures
            is_resolution(old(self)@, final(self)@, r),
    {
        match self.take() {
            Some(f) => Some(f()),
            None => None,
        }
    }
}

/// What the protect primitive's status says of a protected call.
#[derive(Copy, Clone, Debug, PartialEq, Eq, Structural)]
pub enum ProtectOutcome {
    /// The callback returned normally, with this value.
    Returned(Value),
    /// An exception unwound out of the callback; the word returned is not to be
    /// trusted and the exception waits in the interpreter's pending slot.
    Raised,
}

/// The outcome of a protected call from the primitive's status and returned word.
pub open spec fn outcome_of(state: int, result: VALUE) -> ProtectOutcome {
    if state == 0 {
        ProtectOutcome::Returned(Value(result))
    } else {
        ProtectOutcome::Raised
    }
}

/// Reads the status that the protect primitive reported: zero means the
/// callback returned `result`; anything else means an exception was caught.
pub fn protect_outcome(state: libc::c_int, result: VALUE) -> (r: ProtectOutcome)
    ensures
        r == outcome_of(state as int, result),
{
    if state == 0 {
        ProtectOutcome::Returned(Value(result))
    } else {
        ProtectOutcome::Raised
    }
}

/// Takes the exception out of the pending slot `pending`, which is left `nil` so
/// that later interpreter calls do not count as still failing.
pub fn take_pending_exception(pending: &mut Value) -> (r: Value)
    ensures
        r == *old(pending),
        final(pending).0.0 == Qnil,
{
    let exception = *pending;
    *pending = Value::nil();
    exception
}

/// A slot is consumed at most once: after a first resolution, a second one finds
/// the slot empty, runs nothing and gives nothing.
pub proof fn lemma_second_resolution_runs_nothing<F: FnOnce() -> Value>(
    before: Option<F>,
    between: Option<F>,
    after: Option<F>,
    first: Option<Value>,
    second: Option<Value>,
)
    requires
        is_resolution(before, between, first),
        is_resolution(between, after, second),
    ensures
        second.is_none(),
        after.is_none(),
{
}

/// A protected call whose callback resolved the slot holding `f` and returned
/// normally succeeds with exactly the value of that one run of `f`, and leaves
/// the slot empty.
pub proof fn lemma_normal_return_is_success<F: FnOnce() -> Value>(
    f: F,
    after: Option<F>,
    returned: Option<Value>,
)
    requires
        is_resolution(Some(f), after, returned),
    ensures
        returned matches Some(v) && f.ensures((), v) && outcome_of(0, v.0)
            == ProtectOutcome::Returned(v),
        after.is_none(),
{
}

/// A protected call that reports a non-zero status fails, whatever word it
/// returned.
pub proof fn lemma_raise_is_failure(state: int, result: VALUE)
    requires
        state != 0,
    ensures
        outcome_of(state, result) == ProtectOutcome::Raised,
{
}

/// The outcome of a protected call depends on its own status and word alone, so
/// an inner call that fails inside the closure of an outer one leaves the outer
/// call's outcome to the outer status.
pub proof fn lemma_outcome_is_local(
    outer_state: int,
    outer_result: VALUE,
    inner_state: int,
    inner_result: VALUE,
)
    requires
        inner_state != 0,
    ensures
        outcome_of(inner_state, inner_result) == ProtectOutcome::Raised,
        outer_state == 0 ==> outcome_of(outer_state, outer_result) == ProtectOutcome::Returned(
            Value(outer_result),
        ),
{
}

} // verus!
