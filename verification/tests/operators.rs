use sql_select::query::array::Array;
use sql_select::query::condition::Case;
use sql_select::query::operator::Op;
use sql_select::query::select::Select;
use sql_select::query::value::Value;

#[test]
fn between_renders_both_bounds() {
    assert_eq!(Op::between(1, 10).to_string(), "BETWEEN 1 AND 10");
}

#[test]
fn exists_wraps_the_nested_statement() {
    let sub = Select::cols(vec!["id"]).from("orders").where_by("total", Op::gt(100)).end();
    let sub_text = sub.build();
    let text = Op::exists_in(sub).to_string();
    assert_eq!(text, "EXISTS (\n SELECT id FROM orders\nWHERE total > 100 \n)");
    assert_eq!(text, format!("EXISTS (\n {} \n)", sub_text));
}

#[test]
fn none_renders_as_empty_text() {
    assert_eq!(Op::none().to_string(), "");
    assert!(matches!(Op::none(), Op::Nothing));
}

#[test]
fn membership_in_an_empty_list() {
    assert_eq!(Op::in_array(Array::new()).to_string(), "IN ()");
    assert_eq!(Op::not_in(Array::new()).to_string(), "NOT IN ()");
    let nothing: Vec<Value> = Vec::new();
    assert_eq!(Op::in_array(nothing).to_string(), "IN ()");
}

#[test]
fn membership_lists_are_comma_separated() {
    assert_eq!(Op::in_array(Array::new().push(7)).to_string(), "IN (7)");
    let list = Array::new().push(1).push(2).push(3);
    assert_eq!(list.to_string(), "1, 2, 3");
    assert_eq!(Op::in_array(list).to_string(), "IN (1, 2, 3)");
    let list = vec![Value::Str("'a'"), Value::Null, Value::Int(-4)];
    assert_eq!(Op::not_in(list).to_string(), "NOT IN ('a', NULL, -4)");
}

#[test]
fn comparison_symbols() {
    assert_eq!(Op::is_null().to_string(), "IS NULL");
    assert_eq!(Op::eq(1).to_string(), "= 1");
    assert_eq!(Op::neq(1).to_string(), "!= 1");
    assert_eq!(Op::gt(1).to_string(), "> 1");
    assert_eq!(Op::gte(1).to_string(), ">= 1");
    assert_eq!(Op::lt(1).to_string(), "< 1");
    assert_eq!(Op::lte(1).to_string(), "<= 1");
    assert_eq!(Op::nlt(1).to_string(), "!< 1");
    assert_eq!(Op::ngt(1).to_string(), "!> 1");
    assert_eq!(Op::not(true).to_string(), "NOT true");
}

#[test]
fn like_quotes_the_raw_pattern() {
    assert_eq!(Op::like("A%").to_string(), "LIKE 'A%'");
    assert_eq!(Op::like("").to_string(), "LIKE ''");
    assert_eq!(Op::like("it's").to_string(), "LIKE 'it's'");
}

#[test]
fn constructors_build_their_variant() {
    assert!(matches!(Op::is_null(), Op::IsNull));
    assert!(matches!(Op::eq(3), Op::Eq(Value::Int(3))));
    assert!(matches!(Op::neq(3i64), Op::Neq(Value::Int(3))));
    assert!(matches!(Op::gt(3u32), Op::Gt(Value::Int(3))));
    assert!(matches!(Op::gte("x"), Op::Gte(Value::Str("x"))));
    assert!(matches!(Op::lt(false), Op::Lt(Value::Bool(false))));
    assert!(matches!(Op::lte(Value::Null), Op::Lte(Value::Null)));
    assert!(matches!(Op::nlt(Value::Column("c")), Op::Nlt(Value::Column("c"))));
    assert!(matches!(Op::ngt(Select::any()), Op::Ngt(Value::SubQuery(_))));
    assert!(matches!(Op::between(1, "z"), Op::Between(Value::Int(1), Value::Str("z"))));
    assert!(matches!(Op::exists_in(Select::any()), Op::Exists(_)));
    assert!(matches!(Op::in_array(Array::new()), Op::In(_)));
    assert!(matches!(Op::not_in(Array::new()), Op::NotIn(_)));
    assert!(matches!(Op::like("p"), Op::Like("p")));
    assert!(matches!(Op::not(1), Op::Not(Value::Int(1))));
    assert!(matches!(Op::case(Case::new()), Op::Case(_)));
}

#[test]
fn values_render_verbatim() {
    assert_eq!(Value::Str("abc").to_string(), "abc");
    assert_eq!(Value::Str("'abc'").to_string(), "'abc'");
    assert_eq!(Value::Column("users.id").to_string(), "users.id");
    assert_eq!(Value::Float(String::from("1.5")).to_string(), "1.5");
    assert_eq!(Value::Bool(true).to_string(), "true");
    assert_eq!(Value::Bool(false).to_string(), "false");
    assert_eq!(Value::Null.to_string(), "NULL");
}

#[test]
fn integers_render_as_decimal_numerals() {
    assert_eq!(Value::Int(0).to_string(), "0");
    assert_eq!(Value::Int(7).to_string(), "7");
    assert_eq!(Value::Int(10).to_string(), "10");
    assert_eq!(Value::Int(1005).to_string(), "1005");
    assert_eq!(Value::Int(-1).to_string(), "-1");
    assert_eq!(Value::Int(-120).to_string(), "-120");
    assert_eq!(Value::Int(i64::MAX).to_string(), "9223372036854775807");
    assert_eq!(Value::Int(i64::MIN).to_string(), "-9223372036854775808");
    assert_eq!(Op::eq(-2147483648).to_string(), "= -2147483648");
    assert_eq!(Op::eq(4294967295u32).to_string(), "= 4294967295");
}

#[test]
fn nested_statement_as_value_has_no_parentheses() {
    let inner = Select::cols(vec!["max_id"]).from("t");
    assert_eq!(Op::eq(inner).to_string(), "= SELECT max_id FROM t");
    let inner = Select::cols(vec!["id"]).from("t");
    let text = Select::any().from("u").where_by("id", Op::in_array(Array::new().push(inner))).build();
    assert_eq!(text, "SELECT * FROM u\nWHERE id IN (SELECT id FROM t)");
}

#[test]
fn case_without_branches() {
    assert_eq!(Case::new().to_string(), "CASE END");
    assert_eq!(Case::new().otherwise(0).to_string(), "CASE ELSE 0 END");
}

#[test]
fn case_with_branches_and_else() {
    let case = Case::new()
        .when("age", Op::lt(18), "'minor'")
        .when("age", Op::gte(65), "'senior'")
        .otherwise("'adult'");
    assert_eq!(
        case.to_string(),
        "CASE WHEN age < 18 THEN 'minor' WHEN age >= 65 THEN 'senior' ELSE 'adult' END"
    );
    let case = Case::new().when("a", Op::is_null(), 1).otherwise(2).otherwise(3);
    assert_eq!(case.to_string(), "CASE WHEN a IS NULL THEN 1 ELSE 3 END");
    assert_eq!(Op::case(case).to_string(), "CASE WHEN a IS NULL THEN 1 ELSE 3 END");
}

#[test]
fn case_inside_a_condition() {
    let case = Case::new().when("b", Op::gt(0), Value::Column("b")).otherwise(0);
    let text = Select::any().from("t").where_by("a", Op::eq(1)).and("c", Op::case(case)).build();
    assert_eq!(
        text,
        "SELECT * FROM t\nWHERE a = 1\n AND c CASE WHEN b > 0 THEN b ELSE 0 END"
    );
}

#[test]
fn exists_inside_a_condition() {
    let sub = Select::any().from("o").where_by("o.uid", Op::eq(Value::Column("u.id")));
    let text = Select::any().from("u").where_by("", Op::exists_in(sub.end())).build();
    assert_eq!(
        text,
        "SELECT * FROM u\nWHERE  EXISTS (\n SELECT * FROM o\nWHERE o.uid = u.id \n)"
    );
}
