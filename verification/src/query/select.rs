//! The `SELECT` statement and its renderer.

use super::having::{Having, HavingInfo};
use super::join::{joins_text, Join, JoinInfo, JoinType};
use super::operator::Op;
use super::order_by::{order_texts, Order, OrderType};
use super::value::Value;
use super::where_by::{
    chain_wf, clause_text, fmt_chain, lemma_clause, Where, WhereInfo,
};
use crate::text::{
    decimal, joined, lemma_append, lemma_joined_parts, lemma_joined_step, part_start,
    push_decimal, views,
};
use vstd::prelude::*;
use vstd::std_specs::convert::IntoSpec;

verus! {

/// What a statement selects from: a table by name, or a nested statement.
pub enum TableSource<'a> {
    Name(&'a str),
    SubQuery(Value<'a>),
}

impl<'a> TableSource<'a> {
    /// The table's name, or the text of the nested statement.
    pub open spec fn render(self) -> Seq<char>
        decreases self, 0nat,
    {
        match self {
            TableSource::Name(name) => name@,
            TableSource::SubQuery(query) => query.render(),
        }
    }
}

/// A `SELECT` statement under construction. Single-slot fields (`table`,
/// `distinct`, `limit`, `offset`) are overwritten by their setters; list
/// fields (`cols`, `joins`, `whereas`, `groups`, `havings`, `orders`) grow
/// in insertion order.
pub struct Select<'a> {
    pub table: TableSource<'a>,
    pub distinct: Option<()>,
    pub cols: Vec<&'a str>,
    pub joins: Vec<JoinInfo<'a>>,
    pub whereas: Vec<WhereInfo<'a>>,
    pub groups: Vec<&'a str>,
    pub havings: Vec<HavingInfo<'a>>,
    pub orders: Vec<Order<'a>>,
    pub limit: Option<u32>,
    pub offset: Option<u32>,
}

/// Each item with a space before it.
pub open spec fn spaced(items: Seq<&str>) -> Seq<Seq<char>> {
    items.map_values(|s: &str| " "@ + s@)
}

impl<'a> Select<'a> {
    /// The projection: `*` when no column is named; otherwise `DISTINCT `
    /// if the flag is set, then the columns separated by `, `.
    pub open spec fn columns_text(self) -> Seq<char> {
        if self.cols@.len() == 0 {
            "*"@
        } else {
            (if self.distinct is Some {
                "DISTINCT "@
            } else {
                Seq::empty()
            }) + joined(views(self.cols@), ", "@, self.cols@.len())
        }
    }

    /// The `GROUP BY` section: nothing without grouping columns; otherwise
    /// a new line, the keyword, and the columns, each with a space before
    /// it, separated by `, `.
    pub open spec fn groups_text(self) -> Seq<char> {
        if self.groups@.len() == 0 {
            Seq::empty()
        } else {
            "\nGROUP BY"@ + joined(spaced(self.groups@), ", "@, self.groups@.len())
        }
    }

    /// The `ORDER BY` section: nothing without entries; otherwise a new
    /// line, the keyword, and the entries separated by `, `.
    pub open spec fn orders_text(self) -> Seq<char> {
        if self.orders@.len() == 0 {
            Seq::empty()
        } else {
            "\nORDER BY "@ + joined(order_texts(self.orders@), ", "@, self.orders@.len())
        }
    }

    /// The `LIMIT` section, if a limit is set.
    pub open spec fn limit_text(self) -> Seq<char> {
        match self.limit {
            Some(n) => "\nLIMIT "@ + decimal(n as nat),
            None => Seq::empty(),
        }
    }

    /// The `OFFSET` section, if an offset is set.
    pub open spec fn offset_text(self) -> Seq<char> {
        match self.offset {
            Some(n) => "\nOFFSET "@ + decimal(n as nat),
            None => Seq::empty(),
        }
    }

    /// The text of the statement: projection, source, joins, `WHERE`,
    /// `GROUP BY`, `HAVING`, `ORDER BY`, `LIMIT`, `OFFSET`, in this order,
    /// each section present only if it has content. Nothing follows the last
    /// section.
    pub open spec fn render(self) -> Seq<char>
        decreases self, 0nat,
    {
        "SELECT "@ + self.columns_text() + " FROM "@ + self.table.render() + joins_text(
            self.joins@,
            self.joins@.len(),
        ) + clause_text("\nWHERE"@, self.whereas@) + self.groups_text() + clause_text(
            "\nHAVING"@,
            self.havings@,
        ) + self.orders_text() + self.limit_text() + self.offset_text()
    }

    /// The separator discipline holds of every chain of this statement: its
    /// `WHERE` chain, its `HAVING` chain and the `ON` chain of each join.
    pub open spec fn wf(self) -> bool {
        &&& chain_wf(self.whereas@)
        &&& chain_wf(self.havings@)
        &&& forall|j: int| 0 <= j < self.joins@.len() ==> chain_wf((#[trigger] self.joins@[j]).on@)
    }

    /// Appends the projection to `out`.
    fn fmt_columns(&self, out: &mut String)
        ensures
            final(out)@ == old(out)@ + self.columns_text(),
    {
        let ghost base = out@;
        if self.cols.len() == 0 {
            out.append("*");
        } else {
            if let Some(_) = self.distinct {
                out.append("DISTINCT ");
            }
        }
        let ghost start = out@;
        let ghost names = views(self.cols@);
        assert(start + joined(names, ", "@, 0) == start);
        let mut i: usize = 0;
        while i < self.cols.len()
            invariant
                i <= self.cols.len(),
                names == views(self.cols@),
                out@ == start + joined(names, ", "@, i as nat),
            decreases self.cols.len() - i,
        {
            if i > 0 {
                out.append(", ");
            }
            out.append(self.cols[i]);
            proof {
                assert(names[i as int] == self.cols@[i as int]@);
                lemma_joined_step(start, names, ", "@, i as nat);
            }
            i += 1;
        }
        proof {
            let list = joined(names, ", "@, self.cols@.len());
            if self.cols@.len() == 0 {
                assert(base + "*"@ + list == base + "*"@);
            } else if self.distinct is Some {
                lemma_append(base, "DISTINCT "@, list);
            } else {
                assert(Seq::<char>::empty() + list == list);
            }
        }
    }

    /// Appends the `GROUP BY` section to `out`.
    fn fmt_groups(&self, out: &mut String)
        ensures
            final(out)@ == old(out)@ + self.groups_text(),
    {
        let ghost base = out@;
        if self.groups.len() > 0 {
            out.append("\nGROUP BY");
            let ghost start = out@;
            let ghost items = spaced(self.groups@);
            assert(start + joined(items, ", "@, 0) == start);
            let mut i: usize = 0;
            while i < self.groups.len()
                invariant
                    i <= self.groups.len(),
                    items == spaced(self.groups@),
                    out@ == start + joined(items, ", "@, i as nat),
                decreases self.groups.len() - i,
            {
                if i > 0 {
                    out.append(", ");
                }
                let ghost before_item = out@;
                out.append(" ");
                out.append(self.groups[i]);
                proof {
                    assert(items[i as int] == " "@ + self.groups@[i as int]@);
                    lemma_append(before_item, " "@, self.groups@[i as int]@);
                    lemma_joined_step(start, items, ", "@, i as nat);
                }
                i += 1;
            }
            proof {
                lemma_append(base, "\nGROUP BY"@, joined(items, ", "@, self.groups@.len()));
            }
        } else {
            assert(base + Seq::<char>::empty() == base);
        }
    }

    /// Appends the `ORDER BY` section to `out`.
    fn fmt_orders(&self, out: &mut String)
        ensures
            final(out)@ == old(out)@ + self.orders_text(),
    {
        let ghost base = out@;
        if self.orders.len() > 0 {
            out.append("\nORDER BY ");
            let ghost start = out@;
            let ghost items = order_texts(self.orders@);
            assert(start + joined(items, ", "@, 0) == start);
            let mut i: usize = 0;
            while i < self.orders.len()
                invariant
                    i <= self.orders.len(),
                    items == order_texts(self.orders@),
                    out@ == start + joined(items, ", "@, i as nat),
                decreases self.orders.len() - i,
            {
                if i > 0 {
                    out.append(", ");
                }
                self.orders[i].fmt(out);
                proof {
                    assert(items[i as int] == self.orders@[i as int].render());
                    lemma_joined_step(start, items, ", "@, i as nat);
                }
                i += 1;
            }
            proof {
                lemma_append(base, "\nORDER BY "@, joined(items, ", "@, self.orders@.len()));
            }
        } else {
            assert(base + Seq::<char>::empty() == base);
        }
    }

    /// Appends the `LIMIT` section to `out`.
    fn fmt_limit(&self, out: &mut String)
        ensures
            final(out)@ == old(out)@ + self.limit_text(),
    {
        let ghost base = out@;
        if let Some(n) = self.limit {
            out.append("\nLIMIT ");
            push_decimal(out, n as u64);
            proof {
                lemma_append(base, "\nLIMIT "@, decimal(n as nat));
            }
        } else {
            assert(base + Seq::<char>::empty() == base);
        }
    }

    /// Appends the `OFFSET` section to `out`.
    fn fmt_offset(&self, out: &mut String)
        ensures
            final(out)@ == old(out)@ + self.offset_text(),
    {
        let ghost base = out@;
        if let Some(n) = self.offset {
            out.append("\nOFFSET ");
            push_decimal(out, n as u64);
            proof {
                lemma_append(base, "\nOFFSET "@, decimal(n as nat));
            }
        } else {
            assert(base + Seq::<char>::empty() == base);
        }
    }

    /// Appends the text of the statement to `out`. The statement is not
    /// changed, and what is appended depends on the statement alone.
    pub fn fmt(&self, out: &mut String)
        ensures
            final(out)@ == old(out)@ + self.render(),
        decreases self,
    {
        let ghost base = out@;
        out.append("SELECT ");
        self.fmt_columns(out);
        let ghost projection = "SELECT "@ + self.columns_text();
        proof {
            lemma_append(base, "SELECT "@, self.columns_text());
        }
        match &self.table {
            TableSource::Name(name) => {
                out.append(" FROM ");
                out.append(name);
            },
            TableSource::SubQuery(query) => {
                out.append(" FROM ");
                query.fmt(out);
            },
        }
        let ghost source = projection + " FROM "@ + self.table.render();
        proof {
            lemma_append(base, projection, " FROM "@);
            lemma_append(base, projection + " FROM "@, self.table.render());
        }
        assert(base + source + joins_text(self.joins@, 0) == base + source);
        let mut j: usize = 0;
        while j < self.joins.len()
            invariant
                j <= self.joins.len(),
                out@ == base + source + joins_text(self.joins@, j as nat),
            decreases self.joins.len() - j,
        {
            self.joins[j].fmt(out);
            proof {
                lemma_append(
                    base + source,
                    joins_text(self.joins@, j as nat),
                    self.joins@[j as int].render(),
                );
            }
            j += 1;
        }
        let ghost joins = source + joins_text(self.joins@, self.joins@.len());
        proof {
            lemma_append(base, source, joins_text(self.joins@, self.joins@.len()));
        }
        let ghost before_where = out@;
        if self.whereas.len() > 0 {
            out.append("\nWHERE");
            fmt_chain(&self.whereas, out);
        }
        let ghost filtered = joins + clause_text("\nWHERE"@, self.whereas@);
        assert(out@ == base + filtered) by {
            lemma_clause(before_where, "\nWHERE"@, self.whereas@);
            lemma_append(base, joins, clause_text("\nWHERE"@, self.whereas@));
        }
        self.fmt_groups(out);
        let ghost grouped = filtered + self.groups_text();
        proof {
            lemma_append(base, filtered, self.groups_text());
        }
        let ghost before_having = out@;
        if self.havings.len() > 0 {
            out.append("\nHAVING");
            fmt_chain(&self.havings, out);
        }
        let ghost restricted = grouped + clause_text("\nHAVING"@, self.havings@);
        assert(out@ == base + restricted) by {
            lemma_clause(before_having, "\nHAVING"@, self.havings@);
            lemma_append(base, grouped, clause_text("\nHAVING"@, self.havings@));
        }
        self.fmt_orders(out);
        self.fmt_limit(out);
        self.fmt_offset(out);
        proof {
            let ordered = restricted + self.orders_text();
            let limited = ordered + self.limit_text();
            lemma_append(base, restricted, self.orders_text());
            lemma_append(base, ordered, self.limit_text());
            lemma_append(base, limited, self.offset_text());
        }
    }

    /// The text of the statement. Building does not change the statement,
    /// and the text depends on the statement alone: building it again gives
    /// the same text.
    pub fn build(&self) -> (text: String)
        ensures
            text@ == self.render(),
    {
        let mut out = String::new();
        self.fmt(&mut out);
        out
    }

    /// A statement as the factories leave it, apart from its columns: no
    /// table name, no flag, no join, condition, grouping or ordering, no
    /// limit and no offset.
    pub open spec fn fresh(self) -> bool {
        &&& self.table matches TableSource::Name(name) && name@.len() == 0
        &&& self.distinct is None
        &&& self.joins@.len() == 0
        &&& self.whereas@.len() == 0
        &&& self.groups@.len() == 0
        &&& self.havings@.len() == 0
        &&& self.orders@.len() == 0
        &&& self.limit is None
        &&& self.offset is None
    }

    /// The empty statement.
    fn new() -> (r: Self)
        ensures
            r.fresh(),
            r.cols@.len() == 0,
            r.wf(),
    {
        proof {
            reveal_strlit("");
        }
        Select {
            distinct: None,
            cols: Vec::new(),
            table: TableSource::Name(""),
            joins: Vec::new(),
            whereas: Vec::new(),
            groups: Vec::new(),
            havings: Vec::new(),
            orders: Vec::new(),
            limit: None,
            offset: None,
        }
    }

    /// A statement that selects every column (`*`).
    pub fn any() -> (r: Self)
        ensures
            r.fresh(),
            r.cols@.len() == 0,
            r.wf(),
    {
        Select::new()
    }

    /// A statement that selects the given columns.
    pub fn cols(cols: Vec<&'a str>) -> (r: Self)
        ensures
            r.fresh(),
            r.cols == cols,
            r.wf(),
    {
        let mut selector = Select::new();
        selector.cols = cols;
        selector
    }

    /// Adds a column after the columns already selected.
    pub fn col(self, col: &'a str) -> (r: Self)
        ensures
            r.cols@ == self.cols@.push(col),
            r == (Select { cols: r.cols, ..self }),
            self.wf() ==> r.wf(),
    {
        let mut select = self;
        select.cols.push(col);
        select
    }

    /// Sets the `DISTINCT` flag.
    pub fn distinct(self) -> (r: Self)
        ensures
            r == (Select { distinct: Some(()), ..self }),
            self.wf() ==> r.wf(),
    {
        let mut select = self;
        select.distinct = Some(());
        select
    }

    /// Selects from the table of the given name, replacing an earlier
    /// source.
    pub fn from(self, table: &'a str) -> (r: Self)
        ensures
            r == (Select { table: TableSource::Name(table), ..self }),
            self.wf() ==> r.wf(),
    {
        let mut select = self;
        select.table = TableSource::Name(table);
        select
    }

    /// Selects from a nested statement, replacing an earlier source. The
    /// nested statement is what `table` converts into.
    pub fn from_subquery<T: Into<Select<'a>>>(self, table: T) -> (r: Self)
        ensures
            r.table matches TableSource::SubQuery(Value::SubQuery(inner)) && call_ensures(
                T::into,
                (table,),
                *inner,
            ),
            T::obeys_into_spec() ==> r.table == TableSource::SubQuery(
                Value::SubQuery(Box::new(table.into_spec())),
            ),
            r == (Select { table: r.table, ..self }),
            self.wf() ==> r.wf(),
    {
        let mut select = self;
        let inner: Select<'a> = table.into();
        select.table = TableSource::SubQuery(inner.into());
        select
    }

    /// Opens an inner join with `table`; the returned handle builds its
    /// `ON` chain.
    pub fn inner_join(self, table: &'a str) -> (r: Join<'a>)
        ensures
            r.select == self,
            r.kind == JoinType::Inner,
            r.table == table,
            r.on@ == Seq::<WhereInfo<'a>>::empty(),
            self.wf() ==> r.wf(),
    {
        Join::from(self, table, JoinType::Inner)
    }

    /// Opens a left join with `table`.
    pub fn left_join(self, table: &'a str) -> (r: Join<'a>)
        ensures
            r.select == self,
            r.kind == JoinType::Left,
            r.table == table,
            r.on@ == Seq::<WhereInfo<'a>>::empty(),
            self.wf() ==> r.wf(),
    {
        Join::from(self, table, JoinType::Left)
    }

    /// Opens a right join with `table`.
    pub fn right_join(self, table: &'a str) -> (r: Join<'a>)
        ensures
            r.select == self,
            r.kind == JoinType::Right,
            r.table == table,
            r.on@ == Seq::<WhereInfo<'a>>::empty(),
            self.wf() ==> r.wf(),
    {
        Join::from(self, table, JoinType::Right)
    }

    /// Opens an outer join with `table`.
    pub fn outer_join(self, table: &'a str) -> (r: Join<'a>)
        ensures
            r.select == self,
            r.kind == JoinType::Outer,
            r.table == table,
            r.on@ == Seq::<WhereInfo<'a>>::empty(),
            self.wf() ==> r.wf(),
    {
        Join::from(self, table, JoinType::Outer)
    }

    /// Starts the `WHERE` chain: appends an entry without separator and
    /// returns the handle that continues the chain. The discipline is kept
    /// when the chain was empty.
    pub fn where_by(self, left: &'a str, op: Op<'a>) -> (r: Where<'a>)
        ensures
            r.select.whereas@ == self.whereas@.push(WhereInfo { left, op, seperator: None }),
            r.select == (Select { whereas: r.select.whereas, ..self }),
            self.wf() && self.whereas@.len() == 0 ==> r.wf(),
    {
        Where::new(self, left, op)
    }

    /// Adds grouping columns, in their order, after the grouping columns
    /// already there.
    pub fn group_by(self, cols: Vec<&'a str>) -> (r: Self)
        ensures
            r.groups@ == self.groups@ + cols@,
            r == (Select { groups: r.groups, ..self }),
            self.wf() ==> r.wf(),
    {
        let mut select = self;
        let mut cols = cols;
        select.groups.append(&mut cols);
        select
    }

    /// Adds an ascending entry after the ordering entries already there.
    pub fn order_by(self, col: &'a str) -> (r: Self)
        ensures
            r.orders@ == self.orders@.push(Order { col, direction: OrderType::ASC }),
            r == (Select { orders: r.orders, ..self }),
            self.wf() ==> r.wf(),
    {
        let mut select = self;
        select.orders.push(Order::new(col, OrderType::ASC));
        select
    }

    /// Adds a descending entry after the ordering entries already there.
    pub fn order_by_desc(self, col: &'a str) -> (r: Self)
        ensures
            r.orders@ == self.orders@.push(Order { col, direction: OrderType::DESC }),
            r == (Select { orders: r.orders, ..self }),
            self.wf() ==> r.wf(),
    {
        let mut select = self;
        select.orders.push(Order::new(col, OrderType::DESC));
        select
    }

    /// Starts the `HAVING` chain: appends an entry without separator and
    /// returns the handle that continues the chain. The discipline is kept
    /// when the chain was empty.
    pub fn having(self, left: &'a str, op: Op<'a>) -> (r: Having<'a>)
        ensures
            r.select.havings@ == self.havings@.push(HavingInfo { left, op, seperator: None }),
            r.select == (Select { havings: r.select.havings, ..self }),
            self.wf() && self.havings@.len() == 0 ==> r.wf(),
    {
        Having::new(self, left, op)
    }

    /// Sets the limit, replacing an earlier one.
    pub fn limit(self, num: u32) -> (r: Self)
        ensures
            r == (Select { limit: Some(num), ..self }),
            self.wf() ==> r.wf(),
    {
        let mut select = self;
        select.limit = Some(num);
        select
    }

    /// Sets the offset, replacing an earlier one.
    pub fn offset(self, num: u32) -> (r: Self)
        ensures
            r == (Select { offset: Some(num), ..self }),
            self.wf() ==> r.wf(),
    {
        let mut select = self;
        select.offset = Some(num);
        select
    }
}

/// The text of a statement with columns names each column exactly once, in
/// order: after `SELECT ` and the optional `DISTINCT `, column `i` stands at
/// its own place, `, ` follows it exactly when another column comes after
/// it, and the list ends with the last column, without a trailing comma.
pub proof fn lemma_columns_listed(s: Select, i: nat)
    requires
        i < s.cols@.len(),
    ensures
        ({
            let names = views(s.cols@);
            let list = joined(names, ", "@, s.cols@.len());
            let head = "SELECT "@ + (if s.distinct is Some {
                "DISTINCT "@
            } else {
                Seq::<char>::empty()
            });
            let start = part_start(names, ", "@, i) as int;
            let end = start + s.cols@[i as int]@.len();
            &&& "SELECT "@ + s.columns_text() == head + list
            &&& end <= list.len()
            &&& list.subrange(start, end) == s.cols@[i as int]@
            &&& i + 1 < s.cols@.len() ==> end + 2 <= list.len() && list.subrange(end, end + 2)
                == ", "@
            &&& i + 1 == s.cols@.len() ==> end == list.len()
            &&& head.len() + list.len() <= s.render().len()
            &&& s.render().subrange(head.len() as int, (head.len() + list.len()) as int) == list
        }),
{
    reveal_strlit(", ");
    let names = views(s.cols@);
    let list = joined(names, ", "@, s.cols@.len());
    let head = "SELECT "@ + (if s.distinct is Some {
        "DISTINCT "@
    } else {
        Seq::<char>::empty()
    });
    assert(names[i as int] == s.cols@[i as int]@);
    lemma_joined_parts(names, ", "@, s.cols@.len(), i);
    assert("SELECT "@ + s.columns_text() =~= head + list);
    let rest = s.render().subrange((head.len() + list.len()) as int, s.render().len() as int);
    assert(s.render() =~= head + list + rest);
    assert(s.render().subrange(head.len() as int, (head.len() + list.len()) as int) =~= list);
}

/// Building is repeatable: any two texts built from the same statement are
/// the same text.
pub proof fn lemma_build_repeatable(s: Select, first: String, second: String)
    requires
        call_ensures(Select::build, (&s,), first),
        call_ensures(Select::build, (&s,), second),
    ensures
        first@ == second@,
{
}

} // verus!
