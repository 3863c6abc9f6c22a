//! `CASE` expressions.

use super::operator::Op;
use super::value::Value;
use vstd::prelude::*;
use vstd::std_specs::convert::IntoSpec;

verus! {

/// One `WHEN <column> <operator> THEN <value>` branch.
pub struct CaseBranch<'a> {
    pub left: &'a str,
    pub op: Op<'a>,
    pub value: Value<'a>,
}

/// A `CASE` expression: branches in the order they were added and an
/// optional `ELSE` value. With no branch and no `ELSE` it renders as
/// `CASE END`.
pub struct Case<'a> {
    pub branches: Vec<CaseBranch<'a>>,
    pub otherwise: Option<Value<'a>>,
}

/// The first `n` of `branches`, each rendered, one after the other.
pub open spec fn branches_text(branches: Seq<CaseBranch>, n: nat) -> Seq<char>
    decreases branches, n,
{
    if n == 0 || n > branches.len() {
        Seq::empty()
    } else {
        branches_text(branches, (n - 1) as nat) + branches[n - 1].render()
    }
}

impl<'a> CaseBranch<'a> {
    /// ` WHEN <column> <operator> THEN <value>`.
    pub open spec fn render(self) -> Seq<char>
        decreases self, 0nat,
    {
        " WHEN "@ + self.left@ + " "@ + self.op.render() + " THEN "@ + self.value.render()
    }

    /// Appends this branch to `out`.
    pub fn fmt(&self, out: &mut String)
        ensures
            final(out)@ == old(out)@ + self.render(),
        decreases self,
    {
        out.append(" WHEN ");
        out.append(self.left);
        out.append(" ");
        self.op.fmt(out);
        out.append(" THEN ");
        self.value.fmt(out);
    }
}

impl<'a> Case<'a> {
    /// `CASE`, the branches, ` ELSE <value>` where there is one, ` END`.
    pub open spec fn render(self) -> Seq<char>
        decreases self, 0nat,
    {
        "CASE"@ + branches_text(self.branches@, self.branches@.len()) + (match self.otherwise {
            Some(value) => " ELSE "@ + value.render(),
            None => Seq::empty(),
        }) + " END"@
    }

    /// The expression without branches and without `ELSE`.
    pub fn new() -> (r: Self)
        ensures
            r.branches@ == Seq::<CaseBranch<'a>>::empty(),
            r.otherwise is None,
    {
        Case { branches: Vec::new(), otherwise: None }
    }

    /// Adds the branch `WHEN <left> <op> THEN <value>` after the branches
    /// already there.
    pub fn when<T: Into<Value<'a>>>(self, left: &'a str, op: Op<'a>, value: T) -> (r: Self)
        ensures
            r.branches@.len() == self.branches@.len() + 1,
            r.branches@ == self.branches@.push(
                CaseBranch { left, op, value: r.branches@.last().value },
            ),
            call_ensures(T::into, (value,), r.branches@.last().value),
            T::obeys_into_spec() ==> r.branches@ == self.branches@.push(
                CaseBranch { left, op, value: value.into_spec() },
            ),
            r == (Case { branches: r.branches, ..self }),
    {
        let mut case = self;
        case.branches.push(CaseBranch { left, op, value: value.into() });
        case
    }

    /// Sets the `ELSE` value, replacing an earlier one.
    pub fn otherwise<T: Into<Value<'a>>>(self, value: T) -> (r: Self)
        ensures
            r.otherwise is Some,
            call_ensures(T::into, (value,), r.otherwise->0),
            T::obeys_into_spec() ==> r.otherwise == Some(value.into_spec()),
            r == (Case { otherwise: r.otherwise, ..self }),
    {
        let mut case = self;
        case.otherwise = Some(value.into());
        case
    }

    /// Appends the text of this expression to `out`.
    pub fn fmt(&self, out: &mut String)
        ensures
            final(out)@ == old(out)@ + self.render(),
        decreases self,
    {
        out.append("CASE");
        let mut i: usize = 0;
        while i < self.branches.len()
            invariant
                i <= self.branches.len(),
                out@ == old(out)@ + "CASE"@ + branches_text(self.branches@, i as nat),
            decreases self.branches.len() - i,
        {
            self.branches[i].fmt(out);
            i += 1;
        }
        match &self.otherwise {
            Some(value) => {
                out.append(" ELSE ");
                value.fmt(out);
            },
            None => {},
        }
        out.append(" END");
    }

    /// The text of this expression.
    pub fn to_string(&self) -> (text: String)
        ensures
            text@ == self.render(),
    {
        let mut out = String::new();
        self.fmt(&mut out);
        out
    }
}

} // verus!
