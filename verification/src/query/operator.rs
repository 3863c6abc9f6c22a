//! The predicate operators and their text.

use super::array::{values_text, Array};
use super::condition::Case;
use super::select::Select;
use super::value::Value;
use vstd::prelude::*;
use vstd::std_specs::convert::IntoSpec;

verus! {

/// A predicate applied to a column. The set is closed; each operator owns
/// its operands.
///
/// A constructor that takes a `T: Into<..>` states two things of the operand
/// it stores: it is what `into` returned for the argument, and, where the
/// conversion has a specification, it is `into_spec` of the argument.
pub enum Op<'a> {
    /// The column is `NULL`.
    IsNull,
    /// Equal.
    Eq(Value<'a>),
    /// Not equal.
    Neq(Value<'a>),
    /// Greater than.
    Gt(Value<'a>),
    /// Greater than or equal.
    Gte(Value<'a>),
    /// Less than.
    Lt(Value<'a>),
    /// Less than or equal.
    Lte(Value<'a>),
    /// Not less than.
    Nlt(Value<'a>),
    /// Not greater than.
    Ngt(Value<'a>),
    /// Between a lower and an upper bound.
    Between(Value<'a>, Value<'a>),
    /// A nested statement yields a row.
    Exists(Select<'a>),
    /// Member of a list.
    In(Array<'a>),
    /// Not a member of a list.
    NotIn(Array<'a>),
    /// Matches a pattern; the pattern is quoted as it is, without escaping.
    Like(&'a str),
    /// Negation of an operand.
    Not(Value<'a>),
    /// A `CASE` expression, rendered without a keyword before it.
    Case(Case<'a>),
    /// No predicate at all: renders as empty text.
    Nothing,
}

impl<'a> Op<'a> {
    /// The text of this operator with its operands: a fixed keyword or
    /// symbol, then the operands in a fixed order, single spaces between.
    pub open spec fn render(self) -> Seq<char>
        decreases self, 0nat,
    {
        match self {
            Op::IsNull => "IS NULL"@,
            Op::Eq(v) => "= "@ + v.render(),
            Op::Neq(v) => "!= "@ + v.render(),
            Op::Gt(v) => "> "@ + v.render(),
            Op::Gte(v) => ">= "@ + v.render(),
            Op::Lt(v) => "< "@ + v.render(),
            Op::Lte(v) => "<= "@ + v.render(),
            Op::Nlt(v) => "!< "@ + v.render(),
            Op::Ngt(v) => "!> "@ + v.render(),
            Op::Between(low, high) => "BETWEEN "@ + low.render() + " AND "@ + high.render(),
            Op::Exists(query) => "EXISTS (\n "@ + query.render() + " \n)"@,
            Op::In(list) => "IN ("@ + values_text(list.array@, list.array@.len()) + ")"@,
            Op::NotIn(list) => "NOT IN ("@ + values_text(list.array@, list.array@.len()) + ")"@,
            Op::Like(pattern) => "LIKE '"@ + pattern@ + "'"@,
            Op::Not(v) => "NOT "@ + v.render(),
            Op::Case(case) => case.render(),
            Op::Nothing => Seq::empty(),
        }
    }

    /// Appends the text of this operator to `out`.
    pub fn fmt(&self, out: &mut String)
        ensures
            final(out)@ == old(out)@ + self.render(),
        decreases self,
    {
        match self {
            Op::IsNull => out.append("IS NULL"),
            Op::Eq(v) => {
                out.append("= ");
                v.fmt(out);
            },
            Op::Neq(v) => {
                out.append("!= ");
                v.fmt(out);
            },
            Op::Gt(v) => {
                out.append("> ");
                v.fmt(out);
            },
            Op::Gte(v) => {
                out.append(">= ");
                v.fmt(out);
            },
            Op::Lt(v) => {
                out.append("< ");
                v.fmt(out);
            },
            Op::Lte(v) => {
                out.append("<= ");
                v.fmt(out);
            },
            Op::Nlt(v) => {
                out.append("!< ");
                v.fmt(out);
            },
            Op::Ngt(v) => {
                out.append("!> ");
                v.fmt(out);
            },
            Op::Between(low, high) => {
                out.append("BETWEEN ");
                low.fmt(out);
                out.append(" AND ");
                high.fmt(out);
            },
            Op::Exists(query) => {
                out.append("EXISTS (\n ");
                query.fmt(out);
                out.append(" \n)");
            },
            Op::Like(pattern) => {
                out.append("LIKE '");
                out.append(pattern);
                out.append("'");
            },
            Op::Not(v) => {
                out.append("NOT ");
                v.fmt(out);
            },
            Op::Case(case) => case.fmt(out),
            Op::Nothing => {},
            Op::In(list) => {
                out.append("IN (");
                list.fmt(out);
                out.append(")");
            },
            Op::NotIn(list) => {
                out.append("NOT IN (");
                list.fmt(out);
                out.append(")");
            },
        }
    }

    /// The text of this operator.
    pub fn to_string(&self) -> (text: String)
        ensures
            text@ == self.render(),
    {
        let mut out = String::new();
        self.fmt(&mut out);
        out
    }

    /// `IS NULL`.
    pub fn is_null() -> (r: Self)
        ensures
            r == Op::<'a>::IsNull,
    {
        Op::IsNull
    }

    /// `=` what `value` converts into.
    pub fn eq<T: Into<Value<'a>>>(value: T) -> (r: Self)
        ensures
            r is Eq,
            call_ensures(T::into, (value,), r->Eq_0),
            T::obeys_into_spec() ==> r == Op::Eq(value.into_spec()),
    {
        Op::Eq(value.into())
    }

    /// `!=` what `value` converts into.
    pub fn neq<T: Into<Value<'a>>>(value: T) -> (r: Self)
        ensures
            r is Neq,
            call_ensures(T::into, (value,), r->Neq_0),
            T::obeys_into_spec() ==> r == Op::Neq(value.into_spec()),
    {
        Op::Neq(value.into())
    }

    /// `>` what `value` converts into.
    pub fn gt<T: Into<Value<'a>>>(value: T) -> (r: Self)
        ensures
            r is Gt,
            call_ensures(T::into, (value,), r->Gt_0),
            T::obeys_into_spec() ==> r == Op::Gt(value.into_spec()),
    {
        Op::Gt(value.into())
    }

    /// `>=` what `value` converts into.
    pub fn gte<T: Into<Value<'a>>>(value: T) -> (r: Self)
        ensures
            r is Gte,
            call_ensures(T::into, (value,), r->Gte_0),
            T::obeys_into_spec() ==> r == Op::Gte(value.into_spec()),
    {
        Op::Gte(value.into())
    }

    /// `<` what `value` converts into.
    pub fn lt<T: Into<Value<'a>>>(value: T) -> (r: Self)
        ensures
            r is Lt,
            call_ensures(T::into, (value,), r->Lt_0),
            T::obeys_into_spec() ==> r == Op::Lt(value.into_spec()),
    {
        Op::Lt(value.into())
    }

    /// `<=` what `value` converts into.
    pub fn lte<T: Into<Value<'a>>>(value: T) -> (r: Self)
        ensures
            r is Lte,
            call_ensures(T::into, (value,), r->Lte_0),
            T::obeys_into_spec() ==> r == Op::Lte(value.into_spec()),
    {
        Op::Lte(value.into())
    }

    /// `!<` what `value` converts into.
    pub fn nlt<T: Into<Value<'a>>>(value: T) -> (r: Self)
        ensures
            r is Nlt,
            call_ensures(T::into, (value,), r->Nlt_0),
            T::obeys_into_spec() ==> r == Op::Nlt(value.into_spec()),
    {
        Op::Nlt(value.into())
    }

    /// `!>` what `value` converts into.
    pub fn ngt<T: Into<Value<'a>>>(value: T) -> (r: Self)
        ensures
            r is Ngt,
            call_ensures(T::into, (value,), r->Ngt_0),
            T::obeys_into_spec() ==> r == Op::Ngt(value.into_spec()),
    {
        Op::Ngt(value.into())
    }

    /// `BETWEEN` what `from` converts into `AND` what `to` converts into.
    pub fn between<T: Into<Value<'a>>, U: Into<Value<'a>>>(from: T, to: U) -> (r: Self)
        ensures
            r is Between,
            call_ensures(T::into, (from,), r->Between_0),
            call_ensures(U::into, (to,), r->Between_1),
            T::obeys_into_spec() && U::obeys_into_spec() ==> r == Op::Between(
                from.into_spec(),
                to.into_spec(),
            ),
    {
        Op::Between(from.into(), to.into())
    }

    /// `EXISTS` over a nested statement.
    pub fn exists_in(sub: Select<'a>) -> (r: Self)
        ensures
            r == Op::Exists(sub),
    {
        Op::Exists(sub)
    }

    /// `IN` the list that `value` converts into.
    pub fn in_array<T: Into<Array<'a>>>(value: T) -> (r: Self)
        ensures
            r is In,
            call_ensures(T::into, (value,), r->In_0),
            T::obeys_into_spec() ==> r == Op::In(value.into_spec()),
    {
        Op::In(value.into())
    }

    /// `NOT IN` the list that `value` converts into.
    pub fn not_in<T: Into<Array<'a>>>(value: T) -> (r: Self)
        ensures
            r is NotIn,
            call_ensures(T::into, (value,), r->NotIn_0),
            T::obeys_into_spec() ==> r == Op::NotIn(value.into_spec()),
    {
        Op::NotIn(value.into())
    }

    /// `LIKE` the pattern, which is quoted as it is.
    pub fn like(pattern: &'a str) -> (r: Self)
        ensures
            r == Op::Like(pattern),
    {
        Op::Like(pattern)
    }

    /// `NOT` what `value` converts into.
    pub fn not<T: Into<Value<'a>>>(value: T) -> (r: Self)
        ensures
            r is Not,
            call_ensures(T::into, (value,), r->Not_0),
            T::obeys_into_spec() ==> r == Op::Not(value.into_spec()),
    {
        Op::Not(value.into())
    }

    /// The `CASE` expression as a predicate.
    pub fn case(case: Case<'a>) -> (r: Self)
        ensures
            r == Op::Case(case),
    {
        Op::Case(case)
    }

    /// The operator that stands for no predicate; it renders as empty text.
    pub fn none() -> (r: Self)
        ensures
            r == Op::<'a>::Nothing,
            r.render() == Seq::<char>::empty(),
    {
        Op::Nothing
    }
}

/// The operator that stands for no predicate adds no text of its own.
pub proof fn lemma_nothing_renders_empty()
    ensures
        Op::Nothing.render() == Seq::<char>::empty(),
{
}

/// Membership in an empty list renders with nothing between the brackets.
pub proof fn lemma_empty_list(list: Array)
    requires
        list.array@.len() == 0,
    ensures
        Op::In(list).render() == "IN ()"@,
        Op::NotIn(list).render() == "NOT IN ()"@,
{
    reveal_strlit("IN (");
    reveal_strlit("NOT IN (");
    reveal_strlit(")");
    reveal_strlit("IN ()");
    reveal_strlit("NOT IN ()");
    assert(Op::In(list).render() =~= "IN ()"@);
    assert(Op::NotIn(list).render() =~= "NOT IN ()"@);
}

} // verus!
