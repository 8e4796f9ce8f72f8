use vstd::prelude::*;

verus! {

/// The interpreter's tag for the kind of object a value refers to.
#[derive(Clone, Copy, Debug, PartialEq, Eq, Structural)]
pub enum ValueType {
    /// Not an object: a slot that was swept or never filled.
    NoObject,
    Object,
    Class,
    Module,
    Float,
    String,
    Regexp,
    Array,
    Hash,
    Struct,
    Bignum,
    File,
    Data,
    Match,
    Complex,
    Rational,
    Nil,
    True,
    False,
    Symbol,
    Fixnum,
    Undef,
    Imemo,
    Node,
    Iclass,
    Zombie,
    Moved,
}

/// A reference to a value that lives in the interpreter's memory.
///
/// It is the interpreter's word for the value and is never zero. It owns
/// nothing: the collector does, and whoever holds a `Value` has to keep it
/// reachable from one of the collector's roots.
#[derive(Clone, Copy, Debug, PartialEq, Eq, Structural)]
pub struct Value {
    raw: usize,
}

impl View for Value {
    type V = usize;

    closed spec fn view(&self) -> usize {
        self.raw
    }
}

impl Value {
    #[verifier::type_invariant]
    spec fn non_null(self) -> bool {
        self.raw != 0
    }

    /// Takes the interpreter's word for a value, and refuses zero.
    pub fn new(raw: usize) -> (val: Option<Self>)
        ensures
            val is Some <==> raw != 0,
            val is Some ==> val.unwrap()@ == raw,
    {
        if raw != 0 {
            Some(Value { raw })
        } else {
            None
        }
    }

    /// The interpreter's word for this value.
    pub fn as_raw(&self) -> (raw: usize)
        ensures
            raw == self@,
            raw != 0,
    {
        proof {
            use_type_invariant(self);
        }
        self.raw
    }
}

} // verus!
