//! Joins and their `ON` chains.

use super::operator::Op;
use super::select::Select;
use super::where_by::{chain_text, chain_wf, fmt_chain, CondSep, WhereInfo};
use super::where_cond::WhereOwner;
use vstd::prelude::*;

verus! {

/// The kind of a join.
pub enum JoinType {
    Inner,
    Left,
    Right,
    Outer,
}

/// The keyword of a join kind.
pub open spec fn join_keyword(kind: JoinType) -> Seq<char> {
    match kind {
        JoinType::Inner => "INNER"@,
        JoinType::Left => "LEFT"@,
        JoinType::Right => "RIGHT"@,
        JoinType::Outer => "OUTER"@,
    }
}

/// A completed join: its kind, the joined table and the `ON` chain.
pub struct JoinInfo<'a> {
    pub kind: JoinType,
    pub table: &'a str,
    pub on: Vec<WhereInfo<'a>>,
}

/// The first `n` joins, each rendered, one directly after the other.
pub open spec fn joins_text(joins: Seq<JoinInfo>, n: nat) -> Seq<char>
    decreases joins, n,
{
    if n == 0 || n > joins.len() {
        Seq::empty()
    } else {
        joins_text(joins, (n - 1) as nat) + joins[n - 1].render()
    }
}

impl<'a> JoinInfo<'a> {
    /// ` <KIND> JOIN <table> ON`, then the entries of the `ON` chain.
    pub open spec fn render(self) -> Seq<char>
        decreases self, 0nat,
    {
        " "@ + join_keyword(self.kind) + " JOIN "@ + self.table@ + " ON"@ + chain_text(
            self.on@,
            self.on@.len(),
        )
    }

    /// Appends this join to `out`.
    pub fn fmt(&self, out: &mut String)
        ensures
            final(out)@ == old(out)@ + self.render(),
        decreases self,
    {
        out.append(" ");
        match self.kind {
            JoinType::Inner => out.append("INNER"),
            JoinType::Left => out.append("LEFT"),
            JoinType::Right => out.append("RIGHT"),
            JoinType::Outer => out.append("OUTER"),
        }
        out.append(" JOIN ");
        out.append(self.table);
        out.append(" ON");
        fmt_chain(&self.on, out);
    }
}

/// The handle returned by the join methods of `Select`: it owns the
/// statement, the join's kind and table, and the `ON` chain built so far.
pub struct Join<'a> {
    pub select: Select<'a>,
    pub kind: JoinType,
    pub table: &'a str,
    pub on: Vec<WhereInfo<'a>>,
}

impl<'a> Join<'a> {
    /// The statement and the `ON` chain built so far keep the separator
    /// discipline.
    pub open spec fn wf(self) -> bool {
        self.select.wf() && chain_wf(self.on@)
    }

    /// A join of `select` with `table`, its `ON` chain still empty.
    pub fn from(select: Select<'a>, table: &'a str, kind: JoinType) -> (r: Self)
        ensures
            r.select == select,
            r.kind == kind,
            r.table == table,
            r.on@ == Seq::<WhereInfo<'a>>::empty(),
            select.wf() ==> r.wf(),
    {
        Join { select, kind, table, on: Vec::new() }
    }

    /// Starts the `ON` chain: appends an entry without separator. The
    /// discipline is kept when the chain was empty.
    pub fn on(self, left: &'a str, op: Op<'a>) -> (r: Self)
        ensures
            r.on@ == self.on@.push(WhereInfo { left, op, seperator: None }),
            r == (Join { on: r.on, ..self }),
            self.wf() && self.on@.len() == 0 ==> r.wf(),
    {
        let mut handle = self;
        handle.push(WhereInfo { left, op, seperator: None });
        handle
    }

    /// Appends an entry that is tied to the `ON` chain by `AND`. The
    /// discipline is kept when the chain has its first entry.
    pub fn and(self, left: &'a str, op: Op<'a>) -> (r: Self)
        ensures
            r.on@ == self.on@.push(WhereInfo { left, op, seperator: Some(CondSep::And) }),
            r == (Join { on: r.on, ..self }),
            self.wf() && self.on@.len() > 0 ==> r.wf(),
    {
        let mut handle = self;
        handle.push(WhereInfo { left, op, seperator: Some(CondSep::And) });
        handle
    }

    /// Appends an entry that is tied to the `ON` chain by `OR`. The
    /// discipline is kept when the chain has its first entry.
    pub fn or(self, left: &'a str, op: Op<'a>) -> (r: Self)
        ensures
            r.on@ == self.on@.push(WhereInfo { left, op, seperator: Some(CondSep::Or) }),
            r == (Join { on: r.on, ..self }),
            self.wf() && self.on@.len() > 0 ==> r.wf(),
    {
        let mut handle = self;
        handle.push(WhereInfo { left, op, seperator: Some(CondSep::Or) });
        handle
    }

    /// Attaches the completed join after the joins the statement already
    /// has, and hands the statement back.
    pub fn end(self) -> (r: Select<'a>)
        ensures
            r.joins@ == self.select.joins@.push(
                JoinInfo { kind: self.kind, table: self.table, on: self.on },
            ),
            r == (Select { joins: r.joins, ..self.select }),
            self.wf() ==> r.wf(),
    {
        let mut select = self.select;
        select.joins.push(JoinInfo { kind: self.kind, table: self.table, on: self.on });
        select
    }
}

impl<'a> WhereOwner<'a> for Join<'a> {
    /// The chain of a join handle is the `ON` chain it is building.
    open spec fn chain(&self) -> Seq<WhereInfo<'a>> {
        self.on@
    }

    fn set_seperator(&mut self, index: usize, sep: CondSep)
        ensures
            *final(self) == (Join { on: final(self).on, ..*old(self) }),
    {
        self.on[index].seperator = Some(sep);
    }

    fn push(&mut self, where_info: WhereInfo<'a>)
        ensures
            *final(self) == (Join { on: final(self).on, ..*old(self) }),
    {
        self.on.push(where_info);
    }

    fn len(&self) -> (n: usize) {
        self.on.len()
    }
}

} // verus!
