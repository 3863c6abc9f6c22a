use sql_select::query::join::{Join, JoinType};
use sql_select::query::operator::Op;
use sql_select::query::order_by::{Order, OrderType};
use sql_select::query::select::Select;
use sql_select::query::value::Value;
use sql_select::query::where_by::{CondSep, Where};
use sql_select::query::having::Having;
use sql_select::text::{push_decimal, push_signed_decimal};

#[test]
fn join_kinds() {
    let on = || Op::eq(Value::Column("b.id"));
    assert_eq!(
        Select::any().from("a").inner_join("b").on("a.id", on()).end().build(),
        "SELECT * FROM a INNER JOIN b ON a.id = b.id"
    );
    assert_eq!(
        Select::any().from("a").left_join("b").on("a.id", on()).end().build(),
        "SELECT * FROM a LEFT JOIN b ON a.id = b.id"
    );
    assert_eq!(
        Select::any().from("a").right_join("b").on("a.id", on()).end().build(),
        "SELECT * FROM a RIGHT JOIN b ON a.id = b.id"
    );
    assert_eq!(
        Select::any().from("a").outer_join("b").on("a.id", on()).end().build(),
        "SELECT * FROM a OUTER JOIN b ON a.id = b.id"
    );
}

#[test]
fn join_chain_is_scoped_to_its_join() {
    let select = Select::any()
        .from("a")
        .inner_join("b")
        .on("a.id", Op::eq(Value::Column("b.id")))
        .and("b.x", Op::gt(1))
        .or("b.y", Op::is_null())
        .end();
    assert!(select.whereas.is_empty());
    assert_eq!(select.joins.len(), 1);
    assert_eq!(select.joins[0].on.len(), 3);
    assert!(select.joins[0].on[0].seperator.is_none());
    assert!(matches!(select.joins[0].on[1].seperator, Some(CondSep::And)));
    assert!(matches!(select.joins[0].on[2].seperator, Some(CondSep::Or)));
    assert_eq!(
        select.build(),
        "SELECT * FROM a INNER JOIN b ON a.id = b.id\n AND b.x > 1\n OR b.y IS NULL"
    );
}

#[test]
fn joins_keep_insertion_order() {
    let select = Select::any()
        .from("a")
        .left_join("b")
        .on("a.id", Op::eq(Value::Column("b.id")))
        .end()
        .inner_join("c")
        .on("b.id", Op::eq(Value::Column("c.id")))
        .end()
        .where_by("a.x", Op::eq(1))
        .end();
    assert!(matches!(select.joins[0].kind, JoinType::Left));
    assert_eq!(select.joins[0].table, "b");
    assert!(matches!(select.joins[1].kind, JoinType::Inner));
    assert_eq!(select.joins[1].table, "c");
    assert_eq!(
        select.build(),
        "SELECT * FROM a LEFT JOIN b ON a.id = b.id INNER JOIN c ON b.id = c.id\nWHERE a.x = 1"
    );
}

#[test]
fn join_without_condition_is_permissive() {
    let handle = Join::from(Select::any().from("a"), "b", JoinType::Outer);
    assert!(handle.on.is_empty());
    assert_eq!(handle.end().build(), "SELECT * FROM a OUTER JOIN b ON");
}

#[test]
fn handles_can_be_made_directly() {
    let handle = Where::new(Select::any().from("t"), "a", Op::eq(1));
    assert_eq!(handle.build(), "SELECT * FROM t\nWHERE a = 1");
    let handle = Having::new(Select::any().from("t"), "a", Op::eq(1));
    assert_eq!(handle.build(), "SELECT * FROM t\nHAVING a = 1");
}

#[test]
fn order_entries() {
    let order = Order::new("a", OrderType::ASC);
    assert_eq!(order.col, "a");
    assert!(matches!(order.direction, OrderType::ASC));
    let mut out = String::from("x ");
    order.fmt(&mut out);
    Order::new("b", OrderType::DESC).fmt(&mut out);
    assert_eq!(out, "x ab DESC");
}

#[test]
fn renderers_append_to_what_is_there() {
    let mut out = String::from("-- ");
    Select::any().from("t").fmt(&mut out);
    assert_eq!(out, "-- SELECT * FROM t");
    Op::eq(1).fmt(&mut out);
    assert_eq!(out, "-- SELECT * FROM t= 1");
}

#[test]
fn decimal_numerals() {
    let mut out = String::new();
    push_decimal(&mut out, 0);
    out.push(' ');
    push_decimal(&mut out, 9);
    out.push(' ');
    push_decimal(&mut out, 10);
    out.push(' ');
    push_decimal(&mut out, 907);
    out.push(' ');
    push_decimal(&mut out, u64::MAX);
    out.push(' ');
    push_signed_decimal(&mut out, -45);
    out.push(' ');
    push_signed_decimal(&mut out, 45);
    assert_eq!(out, "0 9 10 907 18446744073709551615 -45 45");
}
