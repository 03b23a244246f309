//! Suffix-position calls, as `wyz` offers them.

use vstd::prelude::*;

verus! {

/// Hands `value` to `func` through `wyz::pipe::Pipe::pipe`.
///
/// Not proved: that `pipe` calls `func` once, with `value` as its only
/// argument, and returns what that call returns. The contract therefore asks
/// of the caller what `func` asks of its argument, and promises of the result
/// what `func` promises.
#[verifier::external_body]
pub(crate) fn pipe<T, R, F: FnOnce(T) -> R>(value: T, func: F) -> (result: R)
    requires
        func.requires((value,)),
    ensures
        func.ensures((value,), result),
{
    wyz::pipe::Pipe::pipe(value, func)
}

} // verus!
