//! The owner of a clause chain.

use super::select::Select;
use super::where_by::{CondSep, WhereInfo};
use vstd::prelude::*;

verus! {

/// What owns a clause chain and lets conditions be appended to it.
pub trait WhereOwner<'a> {
    /// The chain, in insertion order.
    spec fn chain(&self) -> Seq<WhereInfo<'a>>;

    /// Gives the entry at `index` the separator `sep`. No other entry
    /// changes.
    fn set_seperator(&mut self, index: usize, sep: CondSep)
        requires
            index < old(self).chain().len(),
        ensures
            final(self).chain() == old(self).chain().update(
                index as int,
                WhereInfo { seperator: Some(sep), ..old(self).chain()[index as int] },
            ),
    ;

    /// Appends an entry at the end of the chain.
    fn push(&mut self, where_info: WhereInfo<'a>)
        ensures
            final(self).chain() == old(self).chain().push(where_info),
    ;

    /// The number of entries of the chain.
    fn len(&self) -> (n: usize)
        ensures
            n == self.chain().len(),
    ;
}

impl<'a> WhereOwner<'a> for Select<'a> {
    /// The chain of a statement is its `WHERE` chain.
    open spec fn chain(&self) -> Seq<WhereInfo<'a>> {
        self.whereas@
    }

    fn set_seperator(&mut self, index: usize, sep: CondSep)
        ensures
            *final(self) == (Select { whereas: final(self).whereas, ..*old(self) }),
    {
        self.whereas[index].seperator = Some(sep);
    }

    fn push(&mut self, where_info: WhereInfo<'a>)
        ensures
            *final(self) == (Select { whereas: final(self).whereas, ..*old(self) }),
    {
        self.whereas.push(where_info);
    }

    fn len(&self) -> (n: usize) {
        self.whereas.len()
    }
}

} // verus!
