//! The interpreter's tagged machine word, in the layout of builds whose floats
//! may be held inline in the word.
use vstd::arithmetic::div_mod::{lemma_mod_mod, lemma_mod_multiples_basic, lemma_small_mod};
use vstd::prelude::*;

verus! {

/// The inner integer of a `VALUE`.
pub type INNER_VALUE = libc::uintptr_t;

/// A Ruby value: one machine word that holds either an immediate (a small
/// integer, a float, a symbol, or one of the singletons) or a reference to an
/// object on the interpreter's heap.
#[derive(Copy, Clone, Debug, PartialEq, Eq, Structural)]
pub struct VALUE(pub INNER_VALUE);

/// An interned identifier: the interpreter's handle for a method, variable or
/// constant name.
#[derive(Copy, Clone, Debug, PartialEq, Eq, Structural)]
pub struct ID(pub INNER_VALUE);

/// The word of `false`.
pub const Qfalse: INNER_VALUE = 0x00;
/// The word of `true`.
pub const Qtrue: INNER_VALUE = 0x14;
/// The word of `nil`.
pub const Qnil: INNER_VALUE = 0x08;
/// The word that marks an absent value.
pub const Qundef: INNER_VALUE = 0x34;

/// The low bits of which every immediate word has at least one set.
pub const IMMEDIATE_MASK: INNER_VALUE = 0x07;
/// The low bit of a small integer.
pub const FIXNUM_FLAG: INNER_VALUE = 0x01;
/// The low bits that tell an inline float apart.
pub const FLONUM_MASK: INNER_VALUE = 0x03;
/// The low bits of an inline float.
pub const FLONUM_FLAG: INNER_VALUE = 0x02;
/// The low byte of a static symbol.
pub const SYMBOL_FLAG: INNER_VALUE = 0x0c;
/// The bits of an object header's flags that hold its type code.
pub const T_MASK: INNER_VALUE = 0x1f;

/// The type codes of the interpreter's objects.
#[derive(Copy, Clone, Debug, PartialEq, Eq, Structural)]
pub enum value_type {
    T_NONE,
    T_OBJECT,
    T_CLASS,
    T_MODULE,
    T_FLOAT,
    T_STRING,
    T_REGEXP,
    T_ARRAY,
    T_HASH,
    T_STRUCT,
    T_BIGNUM,
    T_FILE,
    T_DATA,
    T_MATCH,
    T_COMPLEX,
    T_RATIONAL,
    T_NIL,
    T_TRUE,
    T_FALSE,
    T_SYMBOL,
    T_FIXNUM,
    T_UNDEF,
    T_IMEMO,
    T_NODE,
    T_ICLASS,
    T_ZOMBIE,
}

/// The interpreter's numeric code of each type.
pub open spec fn type_code(t: value_type) -> INNER_VALUE {
    match t {
        value_type::T_NONE => 0x00,
        value_type::T_OBJECT => 0x01,
        value_type::T_CLASS => 0x02,
        value_type::T_MODULE => 0x03,
        value_type::T_FLOAT => 0x04,
        value_type::T_STRING => 0x05,
        value_type::T_REGEXP => 0x06,
        value_type::T_ARRAY => 0x07,
        value_type::T_HASH => 0x08,
        value_type::T_STRUCT => 0x09,
        value_type::T_BIGNUM => 0x0a,
        value_type::T_FILE => 0x0b,
        value_type::T_DATA => 0x0c,
        value_type::T_MATCH => 0x0d,
        value_type::T_COMPLEX => 0x0e,
        value_type::T_RATIONAL => 0x0f,
        value_type::T_NIL => 0x11,
        value_type::T_TRUE => 0x12,
        value_type::T_FALSE => 0x13,
        value_type::T_SYMBOL => 0x14,
        value_type::T_FIXNUM => 0x15,
        value_type::T_UNDEF => 0x16,
        value_type::T_IMEMO => 0x1a,
        value_type::T_NODE => 0x1b,
        value_type::T_ICLASS => 0x1c,
        value_type::T_ZOMBIE => 0x1d,
    }
}

impl value_type {
    /// The interpreter's numeric code of this type.
    pub fn code(self) -> (r: INNER_VALUE)
        ensures
            r == type_code(self),
    {
        match self {
            value_type::T_NONE => 0x00,
            value_type::T_OBJECT => 0x01,
            value_type::T_CLASS => 0x02,
            value_type::T_MODULE => 0x03,
            value_type::T_FLOAT => 0x04,
            value_type::T_STRING => 0x05,
            value_type::T_REGEXP => 0x06,
            value_type::T_ARRAY => 0x07,
            value_type::T_HASH => 0x08,
            value_type::T_STRUCT => 0x09,
            value_type::T_BIGNUM => 0x0a,
            value_type::T_FILE => 0x0b,
            value_type::T_DATA => 0x0c,
            value_type::T_MATCH => 0x0d,
            value_type::T_COMPLEX => 0x0e,
            value_type::T_RATIONAL => 0x0f,
            value_type::T_NIL => 0x11,
            value_type::T_TRUE => 0x12,
            value_type::T_FALSE => 0x13,
            value_type::T_SYMBOL => 0x14,
            value_type::T_FIXNUM => 0x15,
            value_type::T_UNDEF => 0x16,
            value_type::T_IMEMO => 0x1a,
            value_type::T_NODE => 0x1b,
            value_type::T_ICLASS => 0x1c,
            value_type::T_ZOMBIE => 0x1d,
        }
    }
}

/// A word is an immediate when one of its low three bits is set.
pub open spec fn is_immediate(w: INNER_VALUE) -> bool {
    w % 8 != 0
}

/// A word is a special constant when it is an immediate, `nil` or `false`:
/// everything that is not a reference to a heap object.
pub open spec fn is_special_const(w: INNER_VALUE) -> bool {
    is_immediate(w) || w == Qnil || w == Qfalse
}

/// The type code of `obj`. For a reference to a heap object the code is the low
/// bits of its header's flags, `heap_flags`; for a special constant the word alone
/// decides.
pub open spec fn type_code_of(obj: VALUE, heap_flags: VALUE) -> INNER_VALUE {
    let w = obj.0;
    if w % 2 == 1 {
        type_code(value_type::T_FIXNUM)
    } else if w % 4 == 2 {
        type_code(value_type::T_FLOAT)
    } else if w == Qtrue {
        type_code(value_type::T_TRUE)
    } else if w % 256 == SYMBOL_FLAG {
        type_code(value_type::T_SYMBOL)
    } else if w == Qundef {
        type_code(value_type::T_UNDEF)
    } else if w == Qnil {
        type_code(value_type::T_NIL)
    } else if w == Qfalse {
        type_code(value_type::T_FALSE)
    } else {
        heap_flags.0 % 32
    }
}

/// The low bits of a word, as the masks of the tag layout read them.
proof fn lemma_low_bits(w: INNER_VALUE)
    by (bit_vector)
    ensures
        w & 1 == w % 2,
        w & 3 == w % 4,
        w & 7 == w % 8,
        w & 0x1f == w % 32,
        w & 0xff == w % 256,
{
}

/// Whether `obj` is a special constant, whose type the word alone decides. For
/// any other word the header of the object it refers to must be read.
pub fn SPECIAL_CONST_P(obj: VALUE) -> (r: bool)
    ensures
        r == is_special_const(obj.0),
{
    proof {
        lemma_low_bits(obj.0);
    }
    obj.0 & IMMEDIATE_MASK != 0 || obj.0 == Qnil || obj.0 == Qfalse
}

/// The type code of `obj`; `heap_flags` is the flags word of the object's header,
/// consulted only where `obj` is not a special constant.
pub fn rb_type(obj: VALUE, heap_flags: VALUE) -> (r: INNER_VALUE)
    ensures
        r == type_code_of(obj, heap_flags),
{
    let w = obj.0;
    proof {
        lemma_low_bits(w);
        lemma_low_bits(heap_flags.0);
    }
    if w & FIXNUM_FLAG == FIXNUM_FLAG {
        value_type::T_FIXNUM.code()
    } else if w & FLONUM_MASK == FLONUM_FLAG {
        value_type::T_FLOAT.code()
    } else if w == Qtrue {
        value_type::T_TRUE.code()
    } else if w & 0xff == SYMBOL_FLAG {
        value_type::T_SYMBOL.code()
    } else if w == Qundef {
        value_type::T_UNDEF.code()
    } else if w == Qnil {
        value_type::T_NIL.code()
    } else if w == Qfalse {
        value_type::T_FALSE.code()
    } else {
        heap_flags.0 & T_MASK
    }
}

/// Whether `obj` is of type `t`.
pub fn TYPE_P(obj: VALUE, heap_flags: VALUE, t: value_type) -> (r: bool)
    ensures
        r == (type_code_of(obj, heap_flags) == type_code(t)),
{
    rb_type(obj, heap_flags) == t.code()
}

/// The word of the small integer `i`: `i` doubled, its top bit dropped, with the
/// integer flag set.
pub fn INT2FIX(i: INNER_VALUE) -> (r: VALUE)
    ensures
        r.0 as int == (2 * i) % (usize::MAX as int + 1) + FIXNUM_FLAG,
        2 * i <= usize::MAX ==> r.0 == 2 * i + FIXNUM_FLAG,
{
    let doubled: INNER_VALUE = i.wrapping_mul(2);
    let ghost range = usize::MAX as int + 1;
    assert(doubled % 2 == 0) by {
        let half = range / 2;
        assert(range == 2 * half);
        lemma_mod_mod(2 * i, 2, half);
        lemma_mod_multiples_basic(i as int, 2);
        assert(i * 2 == 2 * i);
    }
    assert((doubled | 1) == doubled + 1) by (bit_vector)
        requires
            doubled % 2 == 0,
    ;
    proof {
        if 2 * i <= usize::MAX {
            lemma_small_mod((2 * i) as nat, range as nat);
        }
    }
    VALUE(doubled | FIXNUM_FLAG)
}

impl core::ops::BitAnd for VALUE {
    type Output = INNER_VALUE;

    fn bitand(self, rhs: Self) -> (r: INNER_VALUE)
        ensures
            r == self.0 & rhs.0,
    {
        self.0 & rhs.0
    }
}

impl vstd::std_specs::ops::BitAndSpecImpl for VALUE {
    open spec fn obeys_bitand_spec() -> bool {
        true
    }

    open spec fn bitand_req(self, rhs: Self) -> bool {
        true
    }

    open spec fn bitand_spec(self, rhs: Self) -> INNER_VALUE {
        self.0 & rhs.0
    }
}

} // verus!
