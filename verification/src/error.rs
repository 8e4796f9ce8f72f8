//! The error of a failed conversion, and the wording of its message.

use vstd::prelude::*;
use vstd::string::StringExecFns;

verus! {

/// The message of a failed conversion of a value whose class is named
/// `classname` into the Ruby type named `target`.
pub open spec fn conversion_message(classname: Seq<char>, target: Seq<char>) -> Seq<char> {
    "no implicit conversion of "@ + classname + " into "@ + target
}

/// Whether `needle` occurs in `text` as one unbroken run.
pub open spec fn contains(text: Seq<char>, needle: Seq<char>) -> bool {
    exists|at: int|
        0 <= at && at + needle.len() <= text.len() && #[trigger] text.subrange(
            at,
            at + needle.len(),
        ) == needle
}

/// The message of a failed conversion names the class of the value that was
/// refused, and the type that was asked for.
pub proof fn conversion_message_names_both(classname: Seq<char>, target: Seq<char>)
    ensures
        contains(conversion_message(classname, target), classname),
        contains(conversion_message(classname, target), target),
{
    let head = "no implicit conversion of "@;
    let text = conversion_message(classname, target);
    let at = head.len() as int;
    assert(text.subrange(at, at + classname.len()) =~= classname);
    let from = text.len() - target.len();
    assert(text.subrange(from, from + target.len()) =~= target);
}

/// A failed conversion, as the interpreter would raise it: a type error with
/// a message for the user.
#[derive(Debug)]
pub struct Error {
    message: String,
}

impl View for Error {
    type V = Seq<char>;

    closed spec fn view(&self) -> Seq<char> {
        self.message@
    }
}

impl Error {
    /// A type error that carries `message`.
    pub fn type_error(message: String) -> (err: Self)
        ensures
            err@ == message@,
    {
        Error { message }
    }

    /// The type error for a value of class `classname` that cannot stand for
    /// a `target`.
    pub fn no_implicit_conversion(classname: &str, target: &str) -> (err: Self)
        ensures
            err@ == conversion_message(classname@, target@),
    {
        let mut message = String::from_str("no implicit conversion of ");
        message.append(classname);
        message.append(" into ");
        message.append(target);
        Error::type_error(message)
    }

    /// The message of this error.
    pub fn message(&self) -> (text: &str)
        ensures
            text@ == self@,
    {
        self.message.as_str()
    }
}

} // verus!
