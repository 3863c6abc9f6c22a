//! The statement tree: values, operators, clause chains, joins, ordering and
//! the `SELECT` statement itself.

pub mod array;
pub mod condition;
pub mod convert;
pub mod having;
pub mod join;
pub mod operator;
pub mod order_by;
pub mod select;
pub mod value;
pub mod where_by;
pub mod where_cond;
