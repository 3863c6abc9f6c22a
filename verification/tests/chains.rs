use sql_select::query::join::{Join, JoinType};
use sql_select::query::operator::Op;
use sql_select::query::select::Select;
use sql_select::query::value::Value;
use sql_select::query::where_by::{CondSep, WhereInfo};
use sql_select::query::where_cond::WhereOwner;

#[test]
fn statement_owns_its_where_chain() {
    let mut select = Select::any().from("t");
    assert_eq!(select.len(), 0);
    select.push(WhereInfo { left: "a", op: Op::eq(1), seperator: None });
    select.push(WhereInfo { left: "b", op: Op::eq(2), seperator: None });
    assert_eq!(select.len(), 2);
    assert_eq!(select.whereas.len(), 2);
    select.set_seperator(1, CondSep::Or);
    assert!(select.whereas[0].seperator.is_none());
    assert!(matches!(select.whereas[1].seperator, Some(CondSep::Or)));
    assert_eq!(select.whereas[1].left, "b");
    assert_eq!(select.build(), "SELECT * FROM t\nWHERE a = 1\n OR b = 2");
    select.set_seperator(1, CondSep::And);
    assert_eq!(select.build(), "SELECT * FROM t\nWHERE a = 1\n AND b = 2");
}

#[test]
fn join_handle_owns_its_on_chain() {
    let mut handle = Join::from(Select::any().from("a"), "b", JoinType::Left);
    assert_eq!(handle.len(), 0);
    handle.push(WhereInfo { left: "a.id", op: Op::eq(Value::Column("b.id")), seperator: None });
    handle.push(WhereInfo { left: "b.x", op: Op::is_null(), seperator: None });
    handle.set_seperator(1, CondSep::And);
    assert_eq!(handle.len(), 2);
    assert!(handle.select.whereas.is_empty());
    assert_eq!(
        handle.end().build(),
        "SELECT * FROM a LEFT JOIN b ON a.id = b.id\n AND b.x IS NULL"
    );
}

#[test]
fn conversions_into_operands() {
    assert!(matches!(Value::from(5i32), Value::Int(5)));
    assert!(matches!(Value::from(-5i64), Value::Int(-5)));
    assert!(matches!(Value::from(5u32), Value::Int(5)));
    assert!(matches!(Value::from(true), Value::Bool(true)));
    assert!(matches!(Value::from("s"), Value::Str("s")));
    let unchanged: Value = Value::Null.into();
    assert!(matches!(unchanged, Value::Null));
    let nested: Value = Select::cols(vec!["a"]).from("t").into();
    assert_eq!(nested.to_string(), "SELECT a FROM t");
}

#[test]
fn handles_convert_into_their_statement() {
    let select: Select = Select::any().from("t").where_by("a", Op::eq(1)).into();
    assert_eq!(select.build(), "SELECT * FROM t\nWHERE a = 1");
    let select: Select = Select::any().from("t").having("a", Op::eq(1)).into();
    assert_eq!(select.build(), "SELECT * FROM t\nHAVING a = 1");
    let select: Select = Select::any().from("t").limit(1).into();
    assert_eq!(select.build(), "SELECT * FROM t\nLIMIT 1");
}

struct Cents(i64);

impl<'a> From<Cents> for Value<'a> {
    fn from(amount: Cents) -> Self {
        Value::Int(amount.0)
    }
}

#[test]
fn a_conversion_of_the_caller_is_accepted() {
    assert_eq!(Op::gte(Cents(250)).to_string(), ">= 250");
    assert!(matches!(Op::between(Cents(1), 2), Op::Between(Value::Int(1), Value::Int(2))));
}

#[test]
fn operands_given_as_such_arrive_unchanged() {
    assert!(matches!(Op::eq(Value::Column("c")), Op::Eq(Value::Column("c"))));
    assert!(matches!(Op::not(Value::Bool(true)), Op::Not(Value::Bool(true))));
    let list = sql_select::query::array::Array::new().push(Value::Str("x")).push(3);
    assert_eq!(Op::in_array(list).to_string(), "IN (x, 3)");
    let inner = Select::cols(vec!["a"]).from("t").limit(2);
    assert_eq!(Select::any().from_subquery(inner).build(), "SELECT * FROM SELECT a FROM t\nLIMIT 2");
}
