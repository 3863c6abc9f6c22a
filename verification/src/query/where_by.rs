//! Clause chains: the conditions of `WHERE`, `HAVING` and `ON`.

use super::operator::Op;
use super::select::Select;
use super::where_cond::WhereOwner;
use crate::text::lemma_append;
use vstd::prelude::*;

verus! {

/// The boolean separator that ties an entry of a chain to the entries
/// before it.
pub enum CondSep {
    And,
    Or,
}

/// One entry of a clause chain: a column, the operator applied to it, and the
/// separator that precedes it. The first entry of a chain has no separator;
/// every later entry has one.
pub struct WhereInfo<'a> {
    pub left: &'a str,
    pub op: Op<'a>,
    pub seperator: Option<CondSep>,
}

/// What stands before the column of an entry: a space for an entry without
/// separator, otherwise a new line, a space, the separator's keyword and a
/// space.
pub open spec fn separator_text(separator: Option<CondSep>) -> Seq<char> {
    match separator {
        None => " "@,
        Some(CondSep::And) => "\n AND "@,
        Some(CondSep::Or) => "\n OR "@,
    }
}

/// The first `n` entries of a chain, each rendered, in insertion order.
pub open spec fn chain_text(entries: Seq<WhereInfo>, n: nat) -> Seq<char>
    decreases entries, n,
{
    if n == 0 || n > entries.len() {
        Seq::empty()
    } else {
        chain_text(entries, (n - 1) as nat) + entries[n - 1].render()
    }
}

/// A clause: nothing for an empty chain, otherwise the keyword once and then
/// every entry.
pub open spec fn clause_text(keyword: Seq<char>, entries: Seq<WhereInfo>) -> Seq<char>
    decreases entries, entries.len() + 1,
{
    if entries.len() == 0 {
        Seq::empty()
    } else {
        keyword + chain_text(entries, entries.len())
    }
}

/// The separator discipline of a chain: an entry has no separator exactly
/// when it is the first.
pub open spec fn chain_wf(entries: Seq<WhereInfo>) -> bool {
    forall|i: int|
        0 <= i < entries.len() ==> ((#[trigger] entries[i]).seperator is None <==> i == 0)
}

impl<'a> WhereInfo<'a> {
    /// `[<separator>] <column> <operator>`.
    pub open spec fn render(self) -> Seq<char>
        decreases self, 0nat,
    {
        separator_text(self.seperator) + self.left@ + " "@ + self.op.render()
    }

    /// Appends this entry to `out`.
    pub fn fmt(&self, out: &mut String)
        ensures
            final(out)@ == old(out)@ + self.render(),
        decreases self,
    {
        match &self.seperator {
            None => out.append(" "),
            Some(CondSep::And) => out.append("\n AND "),
            Some(CondSep::Or) => out.append("\n OR "),
        }
        out.append(self.left);
        out.append(" ");
        self.op.fmt(out);
    }
}

/// Appends every entry of a chain, in insertion order, to `out`.
pub fn fmt_chain(entries: &Vec<WhereInfo>, out: &mut String)
    ensures
        final(out)@ == old(out)@ + chain_text(entries@, entries@.len()),
    decreases entries,
{
    let mut i: usize = 0;
    while i < entries.len()
        invariant
            i <= entries.len(),
            out@ == old(out)@ + chain_text(entries@, i as nat),
        decreases entries.len() - i,
    {
        entries[i].fmt(out);
        i += 1;
    }
}

/// The handle returned by `Select::where_by`: it owns the statement and
/// appends further conditions to its `WHERE` chain.
pub struct Where<'a> {
    pub select: Select<'a>,
}

impl<'a> Where<'a> {
    /// The handle owns a statement whose chains keep the separator
    /// discipline and whose `WHERE` chain has its first entry.
    pub open spec fn wf(self) -> bool {
        self.select.wf() && self.select.whereas@.len() > 0
    }

    /// Starts the `WHERE` chain of `select`: appends an entry without
    /// separator. The discipline is kept when the chain was empty; on a chain
    /// that already has entries the new entry is appended all the same, and
    /// renders without `AND` or `OR`.
    pub fn new(select: Select<'a>, left: &'a str, op: Op<'a>) -> (r: Self)
        ensures
            r.select.whereas@ == select.whereas@.push(WhereInfo { left, op, seperator: None }),
            r.select == (Select { whereas: r.select.whereas, ..select }),
            select.wf() && select.whereas@.len() == 0 ==> r.wf(),
    {
        let mut select = select;
        select.push(WhereInfo { left, op, seperator: None });
        Where { select }
    }

    /// Appends an entry that is tied to the chain by `AND`, and returns this
    /// handle.
    pub fn and(self, left: &'a str, op: Op<'a>) -> (r: Self)
        ensures
            r.select.whereas@ == self.select.whereas@.push(
                WhereInfo { left, op, seperator: Some(CondSep::And) },
            ),
            r.select == (Select { whereas: r.select.whereas, ..self.select }),
            self.wf() ==> r.wf(),
    {
        let mut handle = self;
        handle.select.push(WhereInfo { left, op, seperator: Some(CondSep::And) });
        handle
    }

    /// Appends an entry that is tied to the chain by `OR`, and returns this
    /// handle.
    pub fn or(self, left: &'a str, op: Op<'a>) -> (r: Self)
        ensures
            r.select.whereas@ == self.select.whereas@.push(
                WhereInfo { left, op, seperator: Some(CondSep::Or) },
            ),
            r.select == (Select { whereas: r.select.whereas, ..self.select }),
            self.wf() ==> r.wf(),
    {
        let mut handle = self;
        handle.select.push(WhereInfo { left, op, seperator: Some(CondSep::Or) });
        handle
    }

    /// Hands the statement back.
    pub fn end(self) -> (r: Select<'a>)
        ensures
            r == self.select,
            self.wf() ==> r.wf(),
    {
        self.select
    }

    /// The text of the statement built so far.
    pub fn build(&self) -> (text: String)
        ensures
            text@ == self.select.render(),
    {
        self.select.build()
    }
}

/// A handle converts into the statement it owns.
impl<'a> From<Where<'a>> for Select<'a> {
    fn from(v: Where<'a>) -> (r: Self) {
        v.select
    }
}

impl<'a> vstd::std_specs::convert::FromSpecImpl<Where<'a>> for Select<'a> {
    open spec fn obeys_from_spec() -> bool {
        true
    }

    open spec fn from_spec(v: Where<'a>) -> Self {
        v.select
    }
}

/// What stands after `base` once a clause is written: for an empty chain
/// nothing, otherwise the keyword and every entry.
pub proof fn lemma_clause(base: Seq<char>, keyword: Seq<char>, entries: Seq<WhereInfo>)
    ensures
        entries.len() == 0 ==> base == base + clause_text(keyword, entries),
        entries.len() > 0 ==> base + keyword + chain_text(entries, entries.len()) == base
            + clause_text(keyword, entries),
{
    if entries.len() == 0 {
        assert(base =~= base + clause_text(keyword, entries));
    } else {
        lemma_append(base, keyword, chain_text(entries, entries.len()));
    }
}

/// In a chain that keeps the separator discipline the first entry renders
/// without `AND` or `OR`: a space, the column, a space, the operator. Every
/// later entry renders with exactly one of the two before its column.
pub proof fn lemma_chain_separators(entries: Seq<WhereInfo>, i: int)
    requires
        chain_wf(entries),
        0 <= i < entries.len(),
    ensures
        ({
            let entry = entries[i];
            let condition = entry.left@ + " "@ + entry.op.render();
            &&& i == 0 ==> entry.render() == " "@ + condition
            &&& i > 0 ==> (entry.render() == "\n AND "@ + condition || entry.render()
                == "\n OR "@ + condition)
        }),
{
    let entry = entries[i];
    assert(entry.seperator is None <==> i == 0);
    lemma_append(separator_text(entry.seperator), entry.left@, " "@);
    lemma_append(separator_text(entry.seperator), entry.left@ + " "@, entry.op.render());
}

/// An entry whose operator stands for no predicate renders as its
/// separator and its column alone.
pub proof fn lemma_filler_entry(entry: WhereInfo)
    requires
        entry.op == Op::Nothing,
    ensures
        entry.render() == separator_text(entry.seperator) + entry.left@ + " "@,
{
    assert(entry.render() =~= separator_text(entry.seperator) + entry.left@ + " "@);
}

/// Appending to a chain keeps the separator discipline exactly when the
/// new entry has a separator if and only if the chain already has an
/// entry.
pub proof fn lemma_chain_push(entries: Seq<WhereInfo>, entry: WhereInfo)
    requires
        chain_wf(entries),
    ensures
        chain_wf(entries.push(entry)) <==> (entry.seperator is None <==> entries.len() == 0),
{
    let longer = entries.push(entry);
    if entry.seperator is None <==> entries.len() == 0 {
        assert forall|i: int| 0 <= i < longer.len() implies ((#[trigger] longer[i]).seperator
            is None <==> i == 0) by {
            if i < entries.len() {
                assert(longer[i] == entries[i]);
            }
        }
    } else {
        assert(longer[entries.len() as int] == entry);
    }
}

} // verus!
