//! Unwrapping with a logged message. The original behaviour on a missing
//! value is a logged panic; here the contract rules the missing value out,
//! so a verified caller can never reach the panic.

use vstd::prelude::*;

verus! {

/// A value that can be unwrapped after logging a message on failure.
pub trait ExpectLog<T> {
    /// Whether unwrapping can succeed.
    spec fn can_expect(&self) -> bool;

    /// The value unwrapping yields.
    spec fn expected_value(&self) -> T;

    /// Unwrap the value; the message describes the failure that the
    /// contract rules out.
    fn expect_log(self, message: &str) -> (t: T)
        requires
            self.can_expect(),
        ensures
            t == self.expected_value(),
    ;
}

impl<T> ExpectLog<T> for Option<T> {
    open spec fn can_expect(&self) -> bool {
        self is Some
    }

    open spec fn expected_value(&self) -> T {
        (*self)->0
    }

    fn expect_log(self, message: &str) -> (t: T) {
        match self {
            Some(t) => t,
            None => vstd::pervasive::unreached(),
        }
    }
}

impl<T, E> ExpectLog<T> for Result<T, E> {
    open spec fn can_expect(&self) -> bool {
        self is Ok
    }

    open spec fn expected_value(&self) -> T {
        (*self)->Ok_0
    }

    fn expect_log(self, message: &str) -> (t: T) {
        match self {
            Ok(t) => t,
            Err(_) => vstd::pervasive::unreached(),
        }
    }
}

} // verus!
