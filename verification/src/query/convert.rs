//! Conversions into the operands of a statement.
//!
//! The builder methods accept anything that converts into the operand they
//! need through std's `Into`. Each conversion that this library defines has a
//! specification (`from_spec`), and the contracts of the builders speak of it.

use vstd::prelude::*;

verus! {

/// std's `impl<T> From<T> for T`, the conversion of a value into its own
/// type: `from` returns its argument unchanged. With this a `Value`, an
/// `Array` or a `Select` handed to a builder as such is known to arrive as it
/// was given.
pub assume_specification<X>[ <X as core::convert::From<X>>::from ](x: X) -> (r: X)
    ensures
        r == x,
;

} // verus!
