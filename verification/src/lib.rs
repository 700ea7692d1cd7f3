//! Decoding of raw status codes returned by foreign numeric calls.
//!
//! Each foreign operation writes its result through an output slot and hands
//! back one fixed-width unsigned integer telling whether the write succeeded.
//! Exactly three disjoint classes of code exist: zero means success, the
//! maximum representable value means the foreign side raised an exception
//! that was not translated into a modeled error, and every other value is a
//! status this binding does not know. The two non-success classes are
//! contract violations: a caller must stop the process on them instead of
//! continuing with an unwritten output slot, so the verified decoder accepts
//! only the success class and the aborting path lives with the caller.

use vstd::prelude::*;

verus! {

/// The class a raw status code falls into. Classification is total: every
/// code belongs to exactly one class.
#[derive(Clone, Copy, Debug, PartialEq, Eq)]
pub enum Status {
    /// The code is zero: the foreign call succeeded and the output slot holds
    /// a valid result.
    Success,
    /// The code is the sentinel maximum value: the foreign side raised an
    /// exception that was not translated into a modeled error. Fatal.
    UnhandledException,
    /// The code is neither zero nor the sentinel: the foreign library
    /// reported a status this binding was not generated for. Fatal.
    UnexpectedValue,
}

/// The closed set of recoverable failure kinds a foreign call can report.
///
/// No operation currently in scope reports one, so the set is empty in
/// behavior: nothing constructs a value of this type, and decoding never
/// returns `Err`, as the contract of [`Exception::into_result`] states. A
/// datatype needs at least one variant, so a reserved placeholder stands here
/// until a real recoverable kind is added.
#[derive(Debug, PartialEq)]
#[non_exhaustive]
pub enum Error {
    /// Reserved for future recoverable kinds; never produced today.
    Reserved,
}

/// A raw status code as returned by a foreign call, awaiting decoding.
pub struct Exception(u32);

/// Total classification of a raw status code into its three disjoint classes.
pub open spec fn classify_code(code: u32) -> Status {
    if code == 0 {
        Status::Success
    } else if code == u32::MAX {
        Status::UnhandledException
    } else {
        Status::UnexpectedValue
    }
}

impl Exception {
    /// Wraps a raw status code for decoding.
    pub fn new(code: u32) -> (e: Exception)
        ensures
            e.code() == code,
    {
        Exception(code)
    }

    /// The raw code this value carries.
    pub closed spec fn code(self) -> u32 {
        self.0
    }

    /// Classifies the carried code. Total and stateless: the class is a
    /// function of the code alone, and every code is accepted.
    pub fn classify(&self) -> (s: Status)
        ensures
            s == classify_code(self.code()),
    {
        if self.0 == 0 {
            Status::Success
        } else if self.0 == u32::MAX {
            Status::UnhandledException
        } else {
            Status::UnexpectedValue
        }
    }

    /// Decodes a success code into a payload-free success value.
    ///
    /// Only the success class may reach this function: the fatal classes must
    /// terminate the process at the call site instead, after consulting
    /// [`Exception::classify`]. No recoverable error exists yet, so the
    /// result is never `Err`.
    pub fn into_result(self) -> (r: Result<(), Error>)
        requires
            self.code() == 0,
        ensures
            r is Ok,
    {
        Ok(())
    }
}

impl Status {
    /// True exactly for the classes on which decoding must stop the process.
    pub fn is_fatal(&self) -> (fatal: bool)
        ensures
            fatal == !(*self is Success),
    {
        match self {
            Status::Success => false,
            Status::UnhandledException => true,
            Status::UnexpectedValue => true,
        }
    }

    /// The diagnostic text a caller prints when it stops the process on a
    /// fatal class; the success class carries none.
    pub fn diagnostic(&self) -> (message: Option<String>)
        ensures
            *self is Success <==> message is None,
            *self is UnhandledException ==> (message matches Some(m) && m@ == "Unhandled exception"@),
            *self is UnexpectedValue ==> (message matches Some(m) && m@ == "Unexpected exception value"@),
    {
        match self {
            Status::Success => None,
            Status::UnhandledException => Some(String::from_str("Unhandled exception")),
            Status::UnexpectedValue => Some(String::from_str("Unexpected exception value")),
        }
    }
}

/// Law: decoding is total. Every status code falls into exactly one of the
/// three classes, and each class holds precisely of the codes stated: zero is
/// success, the maximum value is an unhandled foreign exception, and anything
/// else is an unexpected value.
pub proof fn lemma_classify_total(code: u32)
    ensures
        classify_code(code) is Success <==> code == 0,
        classify_code(code) is UnhandledException <==> code == u32::MAX,
        classify_code(code) is UnexpectedValue <==> (code != 0 && code != u32::MAX),
{
}

/// Law: decoding carries no state between calls. The class of a code is a
/// function of the code alone, so two codes that are equal classify equally,
/// however often and in whatever order they are decoded; in particular the
/// success code yields success on every decoding.
pub proof fn lemma_classify_stateless(first: Exception, second: Exception)
    requires
        first.code() == second.code(),
    ensures
        classify_code(first.code()) == classify_code(second.code()),
        first.code() == 0 ==> classify_code(second.code()) is Success,
{
}

} // verus!
