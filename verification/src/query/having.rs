//! The `HAVING` chain.

use super::operator::Op;
use super::select::Select;
use super::where_by::{CondSep, WhereInfo};
use vstd::prelude::*;

verus! {

/// An entry of a `HAVING` chain has the shape of any chain entry.
pub type HavingInfo<'a> = WhereInfo<'a>;

/// The handle returned by `Select::having`: it owns the statement and
/// appends further conditions to its `HAVING` chain.
pub struct Having<'a> {
    pub select: Select<'a>,
}

impl<'a> Having<'a> {
    /// The handle owns a statement whose chains keep the separator
    /// discipline and whose `HAVING` chain has its first entry.
    pub open spec fn wf(self) -> bool {
        self.select.wf() && self.select.havings@.len() > 0
    }

    /// Starts the `HAVING` chain of `select`: appends an entry without
    /// separator. The discipline is kept when the chain was empty; on a chain
    /// that already has entries the new entry is appended all the same, and
    /// renders without `AND` or `OR`.
    pub fn new(select: Select<'a>, left: &'a str, op: Op<'a>) -> (r: Self)
        ensures
            r.select.havings@ == select.havings@.push(HavingInfo { left, op, seperator: None }),
            r.select == (Select { havings: r.select.havings, ..select }),
            select.wf() && select.havings@.len() == 0 ==> r.wf(),
    {
        let mut select = select;
        select.havings.push(HavingInfo { left, op, seperator: None });
        Having { select }
    }

    /// Appends an entry that is tied to the chain by `AND`, and returns this
    /// handle.
    pub fn and(self, left: &'a str, op: Op<'a>) -> (r: Self)
        ensures
            r.select.havings@ == self.select.havings@.push(
                HavingInfo { left, op, seperator: Some(CondSep::And) },
            ),
            r.select == (Select { havings: r.select.havings, ..self.select }),
            self.wf() ==> r.wf(),
    {
        let mut handle = self;
        handle.select.havings.push(HavingInfo { left, op, seperator: Some(CondSep::And) });
        handle
    }

    /// Appends an entry that is tied to the chain by `OR`, and returns this
    /// handle.
    pub fn or(self, left: &'a str, op: Op<'a>) -> (r: Self)
        ensures
            r.select.havings@ == self.select.havings@.push(
                HavingInfo { left, op, seperator: Some(CondSep::Or) },
            ),
            r.select == (Select { havings: r.select.havings, ..self.select }),
            self.wf() ==> r.wf(),
    {
        let mut handle = self;
        handle.select.havings.push(HavingInfo { left, op, seperator: Some(CondSep::Or) });
        handle
    }

    /// Hands the statement back.
    pub fn end(self) -> (r: Select<'a>)
        ensures
            r == self.select,
            self.wf() ==> r.wf(),
    {
        self.select
    }

    /// The text of the statement built so far.
    pub fn build(&self) -> (text: String)
        ensures
            text@ == self.select.render(),
    {
        self.select.build()
    }
}

/// A handle converts into the statement it owns.
impl<'a> From<Having<'a>> for Select<'a> {
    fn from(v: Having<'a>) -> (r: Self) {
        v.select
    }
}

impl<'a> vstd::std_specs::convert::FromSpecImpl<Having<'a>> for Select<'a> {
    open spec fn obeys_from_spec() -> bool {
        true
    }

    open spec fn from_spec(v: Having<'a>) -> Self {
        v.select
    }
}

} // verus!
