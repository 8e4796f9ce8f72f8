//! Conversion of a value into one of the types that stand for a Ruby type.

use vstd::prelude::*;
use crate::error::{conversion_message, Error};
use crate::value::{Value, ValueType};

verus! {

/// A type that a [`Value`] converts into when, and only when, the value
/// carries one given type tag.
///
/// The rule is the same for every such type, so that code which converts an
/// argument into whatever type is asked for behaves alike for all of them.
pub trait TryConvert: Sized {
    /// The type tag of the values that convert.
    spec fn tag() -> ValueType;

    /// The name of the Ruby type, as it appears in error messages.
    spec fn ruby_name() -> Seq<char>;

    /// The value that a converted value came from.
    spec fn source(&self) -> Value;

    /// Converts `val`, or says why not.
    ///
    /// `ty` is the type tag the interpreter reports for `val` and `classname`
    /// the name of its class. The conversion succeeds exactly when `ty` is
    /// [`TryConvert::tag`]; otherwise the error reads "no implicit conversion
    /// of `classname` into [`TryConvert::ruby_name`]".
    fn try_convert(val: &Value, ty: ValueType, classname: &str) -> (res: Result<Self, Error>)
        ensures
            res is Ok <==> ty == Self::tag(),
            res is Ok ==> (res->Ok_0).source() == *val,
            res is Err ==> (res->Err_0)@ == conversion_message(classname@, Self::ruby_name()),
    ;
}

} // verus!
