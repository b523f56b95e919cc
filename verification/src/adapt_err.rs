//! A generic error-lifting utility: raises a `Result<T0, E0>` to a
//! `Result<T1, E1>` given declared conversions between the success types and
//! between the error types, eliminating per-call-site conversion code.

use vstd::prelude::*;

verus! {

/// Lifts a result along `From` conversions of its success and error values.
///
/// It works also from `Result<T0, E>` to `Result<T1, E>` or from
/// `Result<T, E0>` to `Result<T, E1>`, because there is always a conversion
/// from a type to itself.
pub trait Adapt<T0, T1, E0, E1>: Sized where T1: From<T0>, E1: From<E0> {
    /// The result value this stands for.
    spec fn as_result(self) -> Result<T0, E0>;

    /// Converts the Ok and the Err value to the inferred types.
    fn adapt(self) -> (r: Result<T1, E1>)
        ensures
            (self.as_result() matches Ok(t) ==> r matches Ok(v) && call_ensures(
                T1::from,
                (t,),
                v,
            )),
            (self.as_result() matches Err(e) ==> r matches Err(f) && call_ensures(
                E1::from,
                (e,),
                f,
            )),
    ;
}

impl<T0, T1, E0, E1> Adapt<T0, T1, E0, E1> for Result<T0, E0> where T1: From<T0>, E1: From<E0> {
    open spec fn as_result(self) -> Result<T0, E0> {
        self
    }

    fn adapt(self) -> (r: Result<T1, E1>) {
        match self {
            Ok(t) => Ok(T1::from(t)),
            Err(e) => Err(E1::from(e)),
        }
    }
}

} // verus!
