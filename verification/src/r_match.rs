//! Ruby `MatchData` values.

use vstd::prelude::*;
use vstd::std_specs::convert::FromSpecImpl;
use crate::error::Error;
use crate::try_convert::TryConvert;
use crate::value::{Value, ValueType};

verus! {

/// A [`Value`] known to refer to a Ruby `MatchData`.
///
/// One is only ever built by [`RMatch::from_value`], after the interpreter has
/// reported the value's type tag as `Match`.
#[derive(Clone, Copy, Debug)]
pub struct RMatch {
    inner: Value,
}

impl View for RMatch {
    type V = Value;

    closed spec fn view(&self) -> Value {
        self.inner
    }
}

impl RMatch {
    /// The wrapper that a value gets under a given type tag, if any.
    pub closed spec fn wrap(val: Value, ty: ValueType) -> Option<Self> {
        if ty == ValueType::Match {
            Some(RMatch { inner: val })
        } else {
            None
        }
    }

    /// Wraps `val` if `ty`, the type tag the interpreter reports for it, is
    /// `Match`, and returns `None` for every other tag.
    ///
    /// `val` must not have been collected, and the wrapper has to be kept
    /// where the collector finds it.
    #[inline]
    pub fn from_value(val: Value, ty: ValueType) -> (m: Option<Self>)
        ensures
            m == Self::wrap(val, ty),
            m is Some <==> ty == ValueType::Match,
            m is Some ==> m.unwrap()@ == val,
    {
        if ty == ValueType::Match {
            Some(RMatch { inner: val })
        } else {
            None
        }
    }

    /// The wrapped value. Every `MatchData` is a value, so this cannot fail.
    pub fn as_value(&self) -> (val: Value)
        ensures
            val == self@,
    {
        self.inner
    }

    /// A value is wrapped exactly when its tag is `Match`, and unwrapping
    /// what was wrapped gives the value back.
    pub proof fn wrap_round_trip(val: Value, ty: ValueType)
        ensures
            Self::wrap(val, ty) is Some <==> ty == ValueType::Match,
            Self::wrap(val, ty) is Some ==> Self::wrap(val, ty).unwrap()@ == val,
    {
    }
}

impl TryConvert for RMatch {
    open spec fn tag() -> ValueType {
        ValueType::Match
    }

    open spec fn ruby_name() -> Seq<char> {
        "MatchData"@
    }

    open spec fn source(&self) -> Value {
        self@
    }

    #[inline]
    fn try_convert(val: &Value, ty: ValueType, classname: &str) -> (res: Result<Self, Error>)
        ensures
            res is Ok ==> Some(res->Ok_0) == Self::wrap(*val, ty),
    {
        match Self::from_value(*val, ty) {
            Some(m) => Ok(m),
            None => Err(Error::no_implicit_conversion(classname, "MatchData")),
        }
    }
}

impl From<RMatch> for Value {
    fn from(val: RMatch) -> (out: Value)
    {
        val.inner
    }
}

impl FromSpecImpl<RMatch> for Value {
    open spec fn obeys_from_spec() -> bool {
        true
    }

    open spec fn from_spec(val: RMatch) -> Value {
        val@
    }
}

} // verus!
