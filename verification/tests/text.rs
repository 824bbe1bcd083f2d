use c_enum::expr::{Binding, EvalError, ValueExpr};
use c_enum::text::{decimal, natural, same_text};
use c_enum::underlying::IntType;

fn stored(label: &str) -> ValueExpr {
    ValueExpr::Stored(label.to_string())
}

fn sum(a: ValueExpr, b: ValueExpr) -> ValueExpr {
    ValueExpr::Sum(Box::new(a), Box::new(b))
}

#[test]
fn decimal_writes_integers() {
    assert_eq!(decimal(0), "0");
    assert_eq!(decimal(7), "7");
    assert_eq!(decimal(10), "10");
    assert_eq!(decimal(1234567890), "1234567890");
    assert_eq!(decimal(-1), "-1");
    assert_eq!(decimal(-100), "-100");
    assert_eq!(decimal(i128::MAX), i128::MAX.to_string());
    assert_eq!(decimal(i128::MIN), i128::MIN.to_string());
    assert_eq!(decimal(i128::MIN + 1), (i128::MIN + 1).to_string());
}

#[test]
fn natural_writes_naturals() {
    assert_eq!(natural(0), "0");
    assert_eq!(natural(9), "9");
    assert_eq!(natural(305), "305");
    assert_eq!(natural(u128::MAX), u128::MAX.to_string());
}

#[test]
fn same_text_compares_by_content() {
    assert!(same_text("", ""));
    assert!(same_text("u8", "u8"));
    assert!(!same_text("u8", "u16"));
    assert!(!same_text("u8", "U8"));
    assert!(!same_text("u8", "u8 "));
}

#[test]
fn int_type_reads_its_names() {
    assert_eq!(IntType::from_name("u8"), Some(IntType::U8));
    assert_eq!(IntType::from_name("u16"), Some(IntType::U16));
    assert_eq!(IntType::from_name("u32"), Some(IntType::U32));
    assert_eq!(IntType::from_name("u64"), Some(IntType::U64));
    assert_eq!(IntType::from_name("usize"), Some(IntType::Usize));
    assert_eq!(IntType::from_name("i8"), Some(IntType::I8));
    assert_eq!(IntType::from_name("i16"), Some(IntType::I16));
    assert_eq!(IntType::from_name("i32"), Some(IntType::I32));
    assert_eq!(IntType::from_name("i64"), Some(IntType::I64));
    assert_eq!(IntType::from_name("i128"), Some(IntType::I128));
    assert_eq!(IntType::from_name("isize"), Some(IntType::Isize));
    assert_eq!(IntType::from_name("u128"), None);
    assert_eq!(IntType::from_name("bool"), None);
    assert_eq!(IntType::from_name(""), None);
}

#[test]
fn int_type_knows_its_range() {
    assert_eq!(IntType::U8.min_value(), 0);
    assert_eq!(IntType::U8.max_value(), 255);
    assert_eq!(IntType::U16.max_value(), 65535);
    assert_eq!(IntType::U32.max_value(), u32::MAX as i128);
    assert_eq!(IntType::U64.max_value(), u64::MAX as i128);
    assert_eq!(IntType::Usize.min_value(), 0);
    assert_eq!(IntType::Usize.max_value(), usize::MAX as i128);
    assert_eq!(IntType::I8.min_value(), -128);
    assert_eq!(IntType::I8.max_value(), 127);
    assert_eq!(IntType::I16.min_value(), -32768);
    assert_eq!(IntType::I32.min_value(), i32::MIN as i128);
    assert_eq!(IntType::I64.max_value(), i64::MAX as i128);
    assert_eq!(IntType::I128.min_value(), i128::MIN);
    assert_eq!(IntType::I128.max_value(), i128::MAX);
    assert_eq!(IntType::Isize.min_value(), isize::MIN as i128);
    assert_eq!(IntType::Isize.max_value(), isize::MAX as i128);
    assert!(IntType::U8.contains(0));
    assert!(IntType::U8.contains(255));
    assert!(!IntType::U8.contains(256));
    assert!(!IntType::U8.contains(-1));
    assert!(IntType::I8.contains(-128));
    assert!(!IntType::I8.contains(128));
}

#[test]
fn expressions_are_written_as_source() {
    assert_eq!(ValueExpr::Literal(42).render(), "42");
    assert_eq!(ValueExpr::Literal(-3).render(), "-3");
    assert_eq!(stored("A").render(), "Self::A.0");
    assert_eq!(sum(stored("A"), ValueExpr::Literal(7)).render(), "Self::A.0 + 7");
    assert_eq!(
        ValueExpr::Verbatim("1 << 4".to_string()).render(),
        "1 << 4"
    );
}

#[test]
fn a_sum_on_the_right_stands_in_parentheses() {
    let left = sum(sum(ValueExpr::Literal(1), ValueExpr::Literal(2)), ValueExpr::Literal(3));
    assert_eq!(left.render(), "1 + 2 + 3");
    let right = sum(ValueExpr::Literal(1), sum(ValueExpr::Literal(2), ValueExpr::Literal(3)));
    assert_eq!(right.render(), "1 + (2 + 3)");
}

#[test]
fn expressions_are_evaluated_against_the_entries_before() {
    let before = vec![
        Binding { label: "A".to_string(), value: 4 },
        Binding { label: "B".to_string(), value: 9 },
    ];
    assert_eq!(ValueExpr::Literal(42).eval(IntType::U8, &before), Ok(42));
    assert_eq!(stored("B").eval(IntType::U8, &before), Ok(9));
    assert_eq!(sum(stored("A"), ValueExpr::Literal(7)).eval(IntType::U8, &before), Ok(11));
    assert_eq!(
        stored("C").eval(IntType::U8, &before),
        Err(EvalError::UndefinedName)
    );
    assert_eq!(
        ValueExpr::Literal(256).eval(IntType::U8, &before),
        Err(EvalError::OutOfRange)
    );
    assert_eq!(
        sum(ValueExpr::Literal(250), stored("B")).eval(IntType::U8, &before),
        Err(EvalError::OutOfRange)
    );
    assert_eq!(
        sum(ValueExpr::Literal(250), stored("B")).eval(IntType::U16, &before),
        Ok(259)
    );
    assert_eq!(
        ValueExpr::Verbatim("4".to_string()).eval(IntType::U8, &before),
        Err(EvalError::NotEvaluated)
    );
}

#[test]
fn a_stored_value_is_read_as_it_stands() {
    let before = vec![Binding { label: "A".to_string(), value: 300 }];
    assert_eq!(stored("A").eval(IntType::U8, &before), Ok(300));
}
