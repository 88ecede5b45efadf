use symcalc::aggregate::NumAggregate;
use symcalc::expression::{AstNode, AstOperand, AstOperator, Expression, OperatorType, Variable};
use symcalc::ops::{cos, sin, Pow};
use symcalc::smart_num::SmartNum;

#[test]
fn operator_to_fmt() {
    let check_table = vec![
        (AstOperator::gen_neg_op(), "-"),
        (AstOperator::gen_add_op(), "+"),
        (AstOperator::gen_sub_op(), "-"),
        (AstOperator::gen_mul_op(), "*"),
        (AstOperator::gen_div_op(), "/"),
    ];
    for (op, expected) in check_table {
        assert_eq!(op.to_string(), expected);
        assert_eq!(op.to_base().name, expected);
    }
}

#[test]
fn operator_priorities() {
    let table = vec![
        (OperatorType::Neg, 1),
        (OperatorType::Add, 2),
        (OperatorType::Sub, 2),
        (OperatorType::Mul, 3),
        (OperatorType::Div, 3),
        (OperatorType::Exp, 4),
        (OperatorType::Ln, 4),
        (OperatorType::Pow, 4),
        (OperatorType::Sin, 5),
        (OperatorType::Cos, 5),
    ];
    for (descriptor, priority) in table {
        assert_eq!(AstOperator { descriptor }.priority(), priority);
    }
}

#[test]
fn ast_node_num_cast() {
    let x = Expression::from(0_u32);
    let y = Expression::new_variable("x");
    assert!(x.to_smart_num().is_ok());
    assert!(y.to_smart_num().is_err());
}

#[test]
fn tree_num_cast() {
    let x = Expression::from(0_u32);
    let y = Expression::new_variable("x");
    assert!(x.to_smart_num().is_ok());
    assert!(y.to_smart_num().is_err());
}

#[test]
fn operand_cast() {
    let x = AstOperand::from(0_u32);
    assert!(x.to_smart_num().is_ok())
}

#[test]
fn operand_text() {
    assert_eq!(AstOperand::from(1_i64).to_string(), "1");
    assert_eq!(AstOperand::from(-42_i64).to_string(), "-42");
    assert_eq!(AstOperand::new_variable("x").to_string(), "x");
}

#[test]
fn add_add() {
    {
        let x = Expression::new_variable("x");
        let y = Expression::new_variable("y");
        let z = x + y;
        assert_eq!(z.to_string(), "x + y");
    }
    {
        let x = Expression::from(1_u32);
        let y = Expression::from(1_u32);
        let z = (x + y).num_aggregate();
        assert_eq!(z.to_smart_num().unwrap().to_i64(), Some(2));
    }
}

#[test]
fn sub_sub() {
    {
        let x = Expression::new_variable("x");
        let y = Expression::new_variable("y");
        let z = x - y;
        assert_eq!(z.to_string(), "x - y");
    }
    {
        let x = Expression::from(1_u32);
        let y = Expression::from(1_u32);
        let z = (x - y).num_aggregate();
        assert!(z.is_zero());
        assert_eq!(z.to_smart_num().unwrap().to_i64(), Some(0));
    }
}

#[test]
fn mul_mul() {
    {
        let x = Expression::new_variable("x");
        let y = Expression::new_variable("y");
        let z = x * y;
        assert_eq!(z.to_string(), "x * y");
    }
    {
        let x = Expression::from(2_i32);
        let y = Expression::from(2_i32);
        let z = (x * y).num_aggregate();
        assert_eq!(z.to_smart_num().unwrap().to_i64(), Some(4));
    }
}

#[test]
fn div_div() {
    {
        let x = Expression::new_variable("x");
        let y = Expression::new_variable("y");
        let z = x / y;
        assert_eq!(z.to_string(), "x / y");
    }
    {
        let x = Expression::from(2_i32);
        let y = Expression::from(2_i32);
        let z = (x / y).num_aggregate();
        assert!(z.is_one());
        assert_eq!(z.to_string(), "1");
    }
}

#[test]
fn neg_neg() {
    let x = Expression::from(1_i32);
    let y = Expression::from(-1_i32);
    let z = (-y).num_aggregate();
    assert_eq!(
        x.to_smart_num().unwrap().to_i64(),
        z.to_smart_num().unwrap().to_i64()
    );
}

#[test]
fn sin_string_fmt() {
    let x = Expression::new_variable("x");
    let a = sin(x.clone());
    let b = sin(Expression::from(1_i32));
    let c = sin(x.clone() + x.clone());
    assert_eq!(a.to_string(), "sinx");
    assert_eq!(b.to_string(), "sin1");
    assert_eq!(c.to_string(), "sin(x + x)");
}

#[test]
fn cos_string_fmt() {
    let x = Expression::new_variable("x");
    let a = cos(x.clone());
    let b = cos(Expression::from(1_i32));
    let c = cos(x.clone() + x.clone());
    assert_eq!(a.to_string(), "cosx");
    assert_eq!(b.to_string(), "cos1");
    assert_eq!(c.to_string(), "cos(x + x)");
}

#[test]
fn rendering_parenthesises_lower_priority_children() {
    let x = Expression::new_variable("x");
    let y = Expression::new_variable("y");
    let e = (x.clone() + y.clone()) * (x.clone() - y.clone());
    assert_eq!(e.to_string(), "(x + y) * (x - y)");
    let f = x.clone() * y.clone() + x.clone();
    assert_eq!(f.to_string(), "x * y + x");
    let g = -(x.clone() * y.clone());
    assert_eq!(g.to_string(), "-x * y");
    let h = x.clone().pow(Expression::from(2_i32));
    assert_eq!(h.to_string(), "x ^ 2");
}

#[test]
fn constants_render_by_symbol() {
    assert_eq!(Expression::pi().to_string(), "pi");
    assert_eq!(Expression::e().to_string(), "e");
    assert!(Expression::pi().is_pi());
    assert!(Expression::e().is_e());
    assert_eq!(Expression::from(SmartNum::new_rational(-1, 3, 5).unwrap()).to_string(), "-3/5");
}

#[test]
fn variables_compare_by_name() {
    let v = Variable::new_variable("t");
    let e = Expression::from(v.clone());
    assert_eq!(e.to_variable().unwrap().name, "t");
    assert!(Expression::from(3_i32).to_variable().is_none());
}

#[test]
fn roots_of_expressions() {
    let x = Expression::new_variable("x");
    match (x.clone() + Expression::one()).root() {
        AstNode::Operator(op) => assert_eq!(op.to_string(), "+"),
        AstNode::Operand(_) => panic!("expected an operator"),
    }
    match x.root() {
        AstNode::Operand(o) => assert_eq!(o.to_string(), "x"),
        AstNode::Operator(_) => panic!("expected an operand"),
    }
}

#[test]
fn not_a_number_errors() {
    let x = Expression::new_variable("x");
    assert_eq!(x.to_smart_num().unwrap_err().to_string(), "This expression is not a number!");
    assert_eq!(
        AstOperand::new_variable("x").to_smart_num().unwrap_err().to_string(),
        "operand is not a number!"
    );
}
