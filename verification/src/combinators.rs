//! Contracts for the standard combinators on `Option` and `Result` that the
//! pipelines of this library chain together.

use vstd::prelude::*;

verus! {

/// `Result::and_then` hands an `Ok` value to `op` and returns what `op`
/// returns; an `Err` is passed on unchanged and `op` is not called.
pub assume_specification<T, E, U, F: FnOnce(T) -> Result<U, E>>[ Result::<T, E>::and_then ](
    result: Result<T, E>,
    op: F,
) -> (res: Result<U, E>)
    requires
        result is Ok ==> op.requires((result->Ok_0,)),
    ensures
        result is Ok ==> op.ensures((result->Ok_0,), res),
        result is Err ==> res is Err && res->Err_0 == result->Err_0,
;

/// `Option::flatten` removes one level of nesting: `Some(inner)` becomes
/// `inner`, `None` stays `None`.
pub assume_specification<T>[ Option::<Option<T>>::flatten ](nested: Option<Option<T>>) -> (res:
    Option<T>)
    ensures
        res == (match nested {
            Some(inner) => inner,
            None => None,
        }),
;

/// `Option::or` returns the option itself if it holds a value, otherwise the
/// alternative.
pub assume_specification<T>[ Option::<T>::or ](option: Option<T>, optb: Option<T>) -> (res:
    Option<T>)
    ensures
        res == (match option {
            Some(x) => Some(x),
            None => optb,
        }),
;

} // verus!
