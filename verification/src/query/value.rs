//! Operands: literals, column references and nested statements.

use super::select::Select;
use crate::text::{push_signed_decimal, signed_decimal};
use vstd::prelude::*;

verus! {

/// An operand of an operator or a table source.
///
/// Text is inserted as it is given, without quoting or escaping: a caller who
/// wants a quoted SQL string supplies the quotes. A nested statement is
/// inserted without parentheses of its own.
pub enum Value<'a> {
    /// A string literal, rendered verbatim.
    Str(&'a str),
    /// An integer, rendered as its decimal numeral.
    Int(i64),
    /// A fractional number, held as the text of its numeral and rendered
    /// verbatim.
    Float(String),
    /// A truth value, rendered as `true` or `false`.
    Bool(bool),
    /// The SQL `NULL`.
    Null,
    /// A column or other identifier, rendered verbatim.
    Column(&'a str),
    /// A nested statement, rendered as that statement's text.
    SubQuery(Box<Select<'a>>),
}

impl<'a> Value<'a> {
    /// The text of this operand.
    pub open spec fn render(self) -> Seq<char>
        decreases self, 0nat,
    {
        match self {
            Value::Str(s) => s@,
            Value::Int(i) => signed_decimal(i as int),
            Value::Float(numeral) => numeral@,
            Value::Bool(b) => if b {
                "true"@
            } else {
                "false"@
            },
            Value::Null => "NULL"@,
            Value::Column(name) => name@,
            Value::SubQuery(query) => query.render(),
        }
    }

    /// Appends the text of this operand to `out`.
    pub fn fmt(&self, out: &mut String)
        ensures
            final(out)@ == old(out)@ + self.render(),
        decreases self,
    {
        match self {
            Value::Str(s) => out.append(s),
            Value::Int(i) => push_signed_decimal(out, *i),
            Value::Float(numeral) => out.append(numeral.as_str()),
            Value::Bool(b) => if *b {
                out.append("true")
            } else {
                out.append("false")
            },
            Value::Null => out.append("NULL"),
            Value::Column(name) => out.append(name),
            Value::SubQuery(query) => query.fmt(out),
        }
    }

    /// The text of this operand.
    pub fn to_string(&self) -> (text: String)
        ensures
            text@ == self.render(),
    {
        let mut out = String::new();
        self.fmt(&mut out);
        out
    }
}

impl<'a> From<&'a str> for Value<'a> {
    fn from(v: &'a str) -> (r: Self) {
        Value::Str(v)
    }
}

impl<'a> vstd::std_specs::convert::FromSpecImpl<&'a str> for Value<'a> {
    open spec fn obeys_from_spec() -> bool {
        true
    }

    open spec fn from_spec(v: &'a str) -> Self {
        Value::Str(v)
    }
}

impl<'a> From<i32> for Value<'a> {
    fn from(v: i32) -> (r: Self) {
        Value::Int(v as i64)
    }
}

impl<'a> vstd::std_specs::convert::FromSpecImpl<i32> for Value<'a> {
    open spec fn obeys_from_spec() -> bool {
        true
    }

    open spec fn from_spec(v: i32) -> Self {
        Value::Int(v as i64)
    }
}

impl<'a> From<i64> for Value<'a> {
    fn from(v: i64) -> (r: Self) {
        Value::Int(v)
    }
}

impl<'a> vstd::std_specs::convert::FromSpecImpl<i64> for Value<'a> {
    open spec fn obeys_from_spec() -> bool {
        true
    }

    open spec fn from_spec(v: i64) -> Self {
        Value::Int(v)
    }
}

impl<'a> From<u32> for Value<'a> {
    fn from(v: u32) -> (r: Self) {
        Value::Int(v as i64)
    }
}

impl<'a> vstd::std_specs::convert::FromSpecImpl<u32> for Value<'a> {
    open spec fn obeys_from_spec() -> bool {
        true
    }

    open spec fn from_spec(v: u32) -> Self {
        Value::Int(v as i64)
    }
}

impl<'a> From<bool> for Value<'a> {
    fn from(v: bool) -> (r: Self) {
        Value::Bool(v)
    }
}

impl<'a> vstd::std_specs::convert::FromSpecImpl<bool> for Value<'a> {
    open spec fn obeys_from_spec() -> bool {
        true
    }

    open spec fn from_spec(v: bool) -> Self {
        Value::Bool(v)
    }
}

impl<'a> From<Select<'a>> for Value<'a> {
    fn from(v: Select<'a>) -> (r: Self) {
        Value::SubQuery(Box::new(v))
    }
}

impl<'a> vstd::std_specs::convert::FromSpecImpl<Select<'a>> for Value<'a> {
    open spec fn obeys_from_spec() -> bool {
        true
    }

    open spec fn from_spec(v: Select<'a>) -> Self {
        Value::SubQuery(Box::new(v))
    }
}

} // verus!
