//! Ruby `File` values.

use vstd::prelude::*;
use vstd::std_specs::convert::FromSpecImpl;
use crate::error::Error;
use crate::try_convert::TryConvert;
use crate::value::{Value, ValueType};

verus! {

/// A [`Value`] known to refer to a Ruby `File`.
///
/// One is only ever built by [`RFile::from_value`], after the interpreter has
/// reported the value's type tag as `File`.
#[derive(Clone, Copy, Debug)]
pub struct RFile {
    inner: Value,
}

impl View for RFile {
    type V = Value;

    closed spec fn view(&self) -> Value {
        self.inner
    }
}

impl RFile {
    /// The wrapper that a value gets under a given type tag, if any.
    pub closed spec fn wrap(val: Value, ty: ValueType) -> Option<Self> {
        if ty == ValueType::File {
            Some(RFile { inner: val })
        } else {
            None
        }
    }

    /// Wraps `val` if `ty`, the type tag the interpreter reports for it, is
    /// `File`, and returns `None` for every other tag.
    ///
    /// `val` must not have been collected, and the wrapper has to be kept
    /// where the collector finds it.
    #[inline]
    pub fn from_value(val: Value, ty: ValueType) -> (file: Option<Self>)
        ensures
            file == Self::wrap(val, ty),
            file is Some <==> ty == ValueType::File,
            file is Some ==> file.unwrap()@ == val,
    {
        if ty == ValueType::File {
            Some(RFile { inner: val })
        } else {
            None
        }
    }

    /// The wrapped value. Every `File` is a value, so this cannot fail.
    pub fn as_value(&self) -> (val: Value)
        ensures
            val == self@,
    {
        self.inner
    }

    /// A value is wrapped exactly when its tag is `File`, and unwrapping
    /// what was wrapped gives the value back.
    pub proof fn wrap_round_trip(val: Value, ty: ValueType)
        ensures
            Self::wrap(val, ty) is Some <==> ty == ValueType::File,
            Self::wrap(val, ty) is Some ==> Self::wrap(val, ty).unwrap()@ == val,
    {
    }
}

impl TryConvert for RFile {
    open spec fn tag() -> ValueType {
        ValueType::File
    }

    open spec fn ruby_name() -> Seq<char> {
        "File"@
    }

    open spec fn source(&self) -> Value {
        self@
    }

    #[inline]
    fn try_convert(val: &Value, ty: ValueType, classname: &str) -> (res: Result<Self, Error>)
        ensures
            res is Ok ==> Some(res->Ok_0) == Self::wrap(*val, ty),
    {
        match Self::from_value(*val, ty) {
            Some(file) => Ok(file),
            None => Err(Error::no_implicit_conversion(classname, "File")),
        }
    }
}

impl From<RFile> for Value {
    fn from(val: RFile) -> (out: Value)
    {
        val.inner
    }
}

impl FromSpecImpl<RFile> for Value {
    open spec fn obeys_from_spec() -> bool {
        true
    }

    open spec fn from_spec(val: RFile) -> Value {
        val@
    }
}

} // verus!
