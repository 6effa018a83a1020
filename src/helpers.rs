//! The host-side handles of interpreter values.
use crate::value::{type_code, type_code_of, value_type, Qfalse, Qnil, Qtrue, TYPE_P, VALUE};
use vstd::prelude::*;

verus! {

/// A Ruby value as the host holds it: a non-owning handle to a word that the
/// interpreter's collector owns.
#[derive(Copy, Clone, Debug, PartialEq, Eq, Structural)]
pub struct Value(pub VALUE);

impl Value {
    /// The Ruby `nil` value.
    pub fn nil() -> (r: Value)
        ensures
            r.0.0 == Qnil,
    {
        Value(VALUE(Qnil))
    }

    /// Checks if this value is `nil`.
    pub fn is_nil(&self) -> (r: bool)
        ensures
            r == (self.0.0 == Qnil),
    {
        self.0.0 == Qnil
    }

    /// Checks if this object is of the given value type. `heap_flags` is the flags
    /// word of the header of the object this value refers to; it is consulted only
    /// where the value is not a special constant.
    pub fn is_of_value_type(&self, value_type: value_type, heap_flags: VALUE) -> (r: bool)
        ensures
            r == (type_code_of(self.0, heap_flags) == type_code(value_type)),
    {
        TYPE_P(self.0, heap_flags, value_type)
    }
}

impl From<bool> for Value {
    fn from(b: bool) -> (r: Self)
        ensures
            r.0.0 == (if b { Qtrue } else { Qfalse }),
    {
        if b {
            Value(VALUE(Qtrue))
        } else {
            Value(VALUE(Qfalse))
        }
    }
}

impl vstd::std_specs::convert::FromSpecImpl<bool> for Value {
    open spec fn obeys_from_spec() -> bool {
        true
    }

    open spec fn from_spec(b: bool) -> Value {
        Value(VALUE(if b { Qtrue } else { Qfalse }))
    }
}

impl From<VALUE> for Value {
    fn from(v: VALUE) -> (r: Self)
        ensures
            r.0 == v,
    {
        Value(v)
    }
}

impl vstd::std_specs::convert::FromSpecImpl<VALUE> for Value {
    open spec fn obeys_from_spec() -> bool {
        true
    }

    open spec fn from_spec(v: VALUE) -> Value {
        Value(v)
    }
}

impl From<Value> for VALUE {
    fn from(v: Value) -> (r: Self)
        ensures
            r == v.0,
    {
        v.0
    }
}

impl vstd::std_specs::convert::FromSpecImpl<Value> for VALUE {
    open spec fn obeys_from_spec() -> bool {
        true
    }

    open spec fn from_spec(v: Value) -> VALUE {
        v.0
    }
}

impl AsRef<VALUE> for Value {
    fn as_ref(&self) -> (r: &VALUE)
        ensures
            *r == self.0,
    {
        &self.0
    }
}

impl core::ops::Deref for Value {
    type Target = VALUE;

    fn deref(&self) -> (r: &VALUE)
        ensures
            *r == self.0,
    {
        &self.0
    }
}

impl core::ops::DerefMut for Value {
    fn deref_mut(&mut self) -> (r: &mut VALUE)
        ensures
            *r == old(self).0,
            *final(self) == Value(*final(r)),
    {
        &mut self.0
    }
}

/// A binding is basically an execution context.
/// Variables and classes defined inside a binding are only
/// accessible within that binding.
#[derive(Copy, Clone, Debug, PartialEq, Eq, Structural)]
pub struct Binding(pub Value);

/// The positional arguments of `Binding#eval`: the code, then the file name
/// where one is given.
pub open spec fn eval_argument_list(code: Value, filename: Option<Value>) -> Seq<Value> {
    match filename {
        Some(f) => seq![code, f],
        None => seq![code],
    }
}

/// The arguments to send with `eval` to a binding: the code string, then the
/// file name string where one is given.
pub fn eval_arguments(code: Value, filename: Option<Value>) -> (r: Vec<Value>)
    ensures
        r@ == eval_argument_list(code, filename),
{
    let mut argv: Vec<Value> = Vec::new();
    argv.push(code);
    if let Some(f) = filename {
        argv.push(f);
    }
    assert(argv@ =~= eval_argument_list(code, filename));
    argv
}

/// Dereferences to a Ruby value. Makes sure the underlying data is not dropped.
pub struct WrappedWithData<T, D> {
    value: T,
    _data: D,
}

impl<T, D> WrappedWithData<T, D> {
    /// The value that this wrapper dereferences to.
    pub closed spec fn wrapped(&self) -> T {
        self.value
    }

    /// Pairs `value` with the data that must outlive it.
    pub fn new(value: T, data: D) -> (r: Self)
        ensures
            r.wrapped() == value,
    {
        WrappedWithData { value, _data: data }
    }
}

impl<T, D> AsRef<T> for WrappedWithData<T, D> {
    fn as_ref(&self) -> (r: &T)
        ensures
            *r == self.wrapped(),
    {
        &self.value
    }
}

impl<T, D> core::ops::Deref for WrappedWithData<T, D> {
    type Target = T;

    fn deref(&self) -> (r: &T)
        ensures
            *r == self.wrapped(),
    {
        &self.value
    }
}

} // verus!
