use crate::rational::RationalNum;
use crate::smart_num::{ConstType, SmartNum};
use crate::text::push_str;
use vstd::prelude::*;

verus! {

/// A free symbol; two variables are the same when their names are.
#[derive(Debug, Clone)]
pub struct Variable {
    pub name: String,
}

impl Variable {
    pub fn new_variable(name: &str) -> (r: Variable)
        ensures
            r.name@ == name@,
    {
        Variable { name: String::from_str(name) }
    }

    pub fn duplicate(&self) -> (r: Variable)
        ensures
            r == *self,
    {
        Variable { name: self.name.clone() }
    }
}

/// A leaf of an expression: a number or a variable.
#[derive(Debug, Clone)]
pub enum AstOperand {
    Num(SmartNum),
    Variable(Variable),
}

/// Asked for the number of an operand that is a variable.
#[derive(Debug, Clone, Copy, PartialEq, Eq, Structural)]
pub struct OperandIsNotNumberError {}

/// Asked for the number of an expression that is not a number.
#[derive(Debug, Clone, Copy, PartialEq, Eq, Structural)]
pub struct ExprIsNotNumError {}

impl OperandIsNotNumberError {
    pub fn to_string(&self) -> (r: String)
        ensures
            r@ == "operand is not a number!"@,
    {
        String::from_str("operand is not a number!")
    }
}

impl ExprIsNotNumError {
    pub fn to_string(&self) -> (r: String)
        ensures
            r@ == "This expression is not a number!"@,
    {
        String::from_str("This expression is not a number!")
    }
}

impl AstOperand {
    pub fn new_variable(name: &str) -> (r: AstOperand)
        ensures
            r is Variable,
            r->Variable_0.name@ == name@,
    {
        AstOperand::Variable(Variable::new_variable(name))
    }

    pub open spec fn spec_is_num(&self) -> bool {
        self is Num
    }

    #[verifier::when_used_as_spec(spec_is_num)]
    pub fn is_num(&self) -> (r: bool)
        ensures
            r == self.spec_is_num(),
    {
        match self {
            AstOperand::Num(_) => true,
            AstOperand::Variable(_) => false,
        }
    }

    pub open spec fn spec_tag(&self) -> ConstType {
        match *self {
            AstOperand::Num(n) => n.spec_tag(),
            AstOperand::Variable(_) => ConstType::Nothing,
        }
    }

    pub fn is_zero(&self) -> (r: bool)
        ensures
            r == (self.spec_tag() == ConstType::Zero),
    {
        match self {
            AstOperand::Num(n) => n.is_zero(),
            AstOperand::Variable(_) => false,
        }
    }

    pub fn is_one(&self) -> (r: bool)
        ensures
            r == (self.spec_tag() == ConstType::One),
    {
        match self {
            AstOperand::Num(n) => n.is_one(),
            AstOperand::Variable(_) => false,
        }
    }

    pub fn is_pi(&self) -> (r: bool)
        ensures
            r == (self.spec_tag() == ConstType::Pi),
    {
        match self {
            AstOperand::Num(n) => n.is_pi(),
            AstOperand::Variable(_) => false,
        }
    }

    pub fn is_e(&self) -> (r: bool)
        ensures
            r == (self.spec_tag() == ConstType::E),
    {
        match self {
            AstOperand::Num(n) => n.is_e(),
            AstOperand::Variable(_) => false,
        }
    }

    pub fn to_smart_num(&self) -> (r: Result<SmartNum, OperandIsNotNumberError>)
        ensures
            r == (match *self {
                AstOperand::Num(n) => Ok(n),
                AstOperand::Variable(_) => Err(OperandIsNotNumberError {  }),
            }),
    {
        match self {
            AstOperand::Num(n) => Ok(*n),
            AstOperand::Variable(_) => Err(OperandIsNotNumberError {  }),
        }
    }

    pub open spec fn spec_text(&self) -> Seq<char> {
        match *self {
            AstOperand::Num(n) => n.spec_text(),
            AstOperand::Variable(v) => v.name@,
        }
    }

    /// The number's text, or the variable's name.
    pub fn to_string(&self) -> (r: String)
        ensures
            r@ == self.spec_text(),
    {
        match self {
            AstOperand::Num(n) => n.to_string(),
            AstOperand::Variable(v) => v.name.clone(),
        }
    }

    pub fn duplicate(&self) -> (r: AstOperand)
        ensures
            r == *self,
    {
        match self {
            AstOperand::Num(n) => AstOperand::Num(*n),
            AstOperand::Variable(v) => AstOperand::Variable(v.duplicate()),
        }
    }
}

/// Every kind of operator node.
#[derive(Debug, Clone, Copy, PartialEq, Eq, Structural)]
pub enum OperatorType {
    Neg,
    Add,
    Sub,
    Mul,
    Div,
    Sin,
    Cos,
    Exp,
    Ln,
    Pow,
}

/// Operators with one argument.
#[derive(Debug, Clone, Copy, PartialEq, Eq, Structural)]
pub enum UnaryOperator {
    Neg,
    Sin,
    Cos,
    Exp,
    Ln,
}

/// Operators with two arguments.
#[derive(Debug, Clone, Copy, PartialEq, Eq, Structural)]
pub enum BinaryOperator {
    Add,
    Sub,
    Mul,
    Div,
    Pow,
}

impl UnaryOperator {
    pub open spec fn spec_kind(&self) -> OperatorType {
        match *self {
            UnaryOperator::Neg => OperatorType::Neg,
            UnaryOperator::Sin => OperatorType::Sin,
            UnaryOperator::Cos => OperatorType::Cos,
            UnaryOperator::Exp => OperatorType::Exp,
            UnaryOperator::Ln => OperatorType::Ln,
        }
    }

    pub fn to_operator(&self) -> (r: AstOperator)
        ensures
            r.descriptor == self.spec_kind(),
    {
        let descriptor = match self {
            UnaryOperator::Neg => OperatorType::Neg,
            UnaryOperator::Sin => OperatorType::Sin,
            UnaryOperator::Cos => OperatorType::Cos,
            UnaryOperator::Exp => OperatorType::Exp,
            UnaryOperator::Ln => OperatorType::Ln,
        };
        AstOperator { descriptor }
    }
}

impl BinaryOperator {
    pub open spec fn spec_kind(&self) -> OperatorType {
        match *self {
            BinaryOperator::Add => OperatorType::Add,
            BinaryOperator::Sub => OperatorType::Sub,
            BinaryOperator::Mul => OperatorType::Mul,
            BinaryOperator::Div => OperatorType::Div,
            BinaryOperator::Pow => OperatorType::Pow,
        }
    }

    pub fn to_operator(&self) -> (r: AstOperator)
        ensures
            r.descriptor == self.spec_kind(),
    {
        let descriptor = match self {
            BinaryOperator::Add => OperatorType::Add,
            BinaryOperator::Sub => OperatorType::Sub,
            BinaryOperator::Mul => OperatorType::Mul,
            BinaryOperator::Div => OperatorType::Div,
            BinaryOperator::Pow => OperatorType::Pow,
        };
        AstOperator { descriptor }
    }
}

/// The display symbol and binding priority of an operator.
#[derive(Debug, Clone, Copy)]
pub struct AstOperatorBase {
    pub name: &'static str,
    pub priority: u32,
}

/// An operator as it is displayed: its symbol, and the priority used to decide
/// where parentheses go.
#[derive(Debug, Clone, Copy, PartialEq, Eq, Structural)]
pub struct AstOperator {
    pub descriptor: OperatorType,
}

pub open spec fn symbol_of(t: OperatorType) -> Seq<char> {
    match t {
        OperatorType::Neg => seq!['-'],
        OperatorType::Add => seq!['+'],
        OperatorType::Sub => seq!['-'],
        OperatorType::Mul => seq!['*'],
        OperatorType::Div => seq!['/'],
        OperatorType::Sin => seq!['s', 'i', 'n'],
        OperatorType::Cos => seq!['c', 'o', 's'],
        OperatorType::Exp => seq!['e', 'x', 'p'],
        OperatorType::Ln => seq!['l', 'n'],
        OperatorType::Pow => seq!['^'],
    }
}

pub open spec fn priority_of(t: OperatorType) -> u32 {
    match t {
        OperatorType::Neg => 1,
        OperatorType::Add => 2,
        OperatorType::Sub => 2,
        OperatorType::Mul => 3,
        OperatorType::Div => 3,
        OperatorType::Exp => 4,
        OperatorType::Ln => 4,
        OperatorType::Pow => 4,
        OperatorType::Sin => 5,
        OperatorType::Cos => 5,
    }
}

impl AstOperator {
    pub fn to_base(&self) -> (r: AstOperatorBase)
        ensures
            r.name@ == symbol_of(self.descriptor),
            r.priority == priority_of(self.descriptor),
    {
        AstOperatorBase { name: self.to_string(), priority: self.priority() }
    }

    /// The display symbol.
    pub fn to_string(&self) -> (r: &'static str)
        ensures
            r@ == symbol_of(self.descriptor),
    {
        proof {
            reveal_strlit("-");
            reveal_strlit("+");
            reveal_strlit("*");
            reveal_strlit("/");
            reveal_strlit("sin");
            reveal_strlit("cos");
            reveal_strlit("exp");
            reveal_strlit("ln");
            reveal_strlit("^");
        }
        match self.descriptor {
            OperatorType::Neg => "-",
            OperatorType::Add => "+",
            OperatorType::Sub => "-",
            OperatorType::Mul => "*",
            OperatorType::Div => "/",
            OperatorType::Sin => "sin",
            OperatorType::Cos => "cos",
            OperatorType::Exp => "exp",
            OperatorType::Ln => "ln",
            OperatorType::Pow => "^",
        }
    }

    /// The binding priority: 1 for negation, 2 for + and -, 3 for * and /,
    /// 4 for exp, ln and ^, 5 for sin and cos.
    pub fn priority(&self) -> (r: u32)
        ensures
            r == priority_of(self.descriptor),
    {
        match self.descriptor {
            OperatorType::Neg => 1,
            OperatorType::Add => 2,
            OperatorType::Sub => 2,
            OperatorType::Mul => 3,
            OperatorType::Div => 3,
            OperatorType::Exp => 4,
            OperatorType::Ln => 4,
            OperatorType::Pow => 4,
            OperatorType::Sin => 5,
            OperatorType::Cos => 5,
        }
    }

    pub fn gen_neg_op() -> (r: AstOperator)
        ensures
            r.descriptor == OperatorType::Neg,
    {
        AstOperator { descriptor: OperatorType::Neg }
    }

    pub fn gen_add_op() -> (r: AstOperator)
        ensures
            r.descriptor == OperatorType::Add,
    {
        AstOperator { descriptor: OperatorType::Add }
    }

    pub fn gen_sub_op() -> (r: AstOperator)
        ensures
            r.descriptor == OperatorType::Sub,
    {
        AstOperator { descriptor: OperatorType::Sub }
    }

    pub fn gen_mul_op() -> (r: AstOperator)
        ensures
            r.descriptor == OperatorType::Mul,
    {
        AstOperator { descriptor: OperatorType::Mul }
    }

    pub fn gen_div_op() -> (r: AstOperator)
        ensures
            r.descriptor == OperatorType::Div,
    {
        AstOperator { descriptor: OperatorType::Div }
    }
}

/// The root of an expression: an operator, or a leaf.
#[derive(Debug, Clone)]
pub enum AstNode {
    Operator(AstOperator),
    Operand(AstOperand),
}

/// An expression tree. Each node owns its subtrees; unary operators have one
/// argument and binary operators two, by construction.
#[derive(Debug)]
pub enum Expression {
    Operand(AstOperand),
    Unary(UnaryOperator, Box<Expression>),
    Binary(BinaryOperator, Box<Expression>, Box<Expression>),
}

impl Clone for Expression {
    fn clone(&self) -> (r: Expression)
        ensures
            r == *self,
    {
        self.duplicate()
    }
}

pub open spec fn num_expr(n: SmartNum) -> Expression {
    Expression::Operand(AstOperand::Num(n))
}

pub open spec fn unary(op: UnaryOperator, a: Expression) -> Expression {
    Expression::Unary(op, Box::new(a))
}

pub open spec fn binary(op: BinaryOperator, a: Expression, b: Expression) -> Expression {
    Expression::Binary(op, Box::new(a), Box::new(b))
}

/// The number of nodes.
pub open spec fn size(e: Expression) -> nat
    decreases e,
{
    match e {
        Expression::Operand(_) => 1,
        Expression::Unary(_, a) => 1 + size(*a),
        Expression::Binary(_, a, b) => 1 + size(*a) + size(*b),
    }
}

/// The text of an expression: a binary node as `left SYMBOL right`, a unary
/// node as `SYMBOL argument`, in parentheses when its operator's priority is
/// below that of the operator around it.
pub open spec fn render(e: Expression, upper: u32) -> Seq<char>
    decreases e,
{
    match e {
        Expression::Operand(o) => o.spec_text(),
        Expression::Unary(op, a) => {
            let t = op.spec_kind();
            let me = symbol_of(t) + render(*a, priority_of(t));
            if priority_of(t) < upper {
                seq!['('] + me + seq![')']
            } else {
                me
            }
        },
        Expression::Binary(op, a, b) => {
            let t = op.spec_kind();
            let me = render(*a, priority_of(t)) + seq![' '] + symbol_of(t) + seq![' '] + render(
                *b,
                priority_of(t),
            );
            if priority_of(t) < upper {
                seq!['('] + me + seq![')']
            } else {
                me
            }
        },
    }
}

impl Expression {
    pub open spec fn spec_is_operator(&self) -> bool {
        !(self is Operand)
    }

    pub open spec fn spec_is_num(&self) -> bool {
        self is Operand && self->Operand_0 is Num
    }

    /// The recognised constant of a number; `Nothing` for anything else.
    pub open spec fn spec_tag(&self) -> ConstType {
        match *self {
            Expression::Operand(o) => o.spec_tag(),
            _ => ConstType::Nothing,
        }
    }

    pub open spec fn spec_is_zero(&self) -> bool {
        self.spec_tag() == ConstType::Zero
    }

    pub open spec fn spec_is_one(&self) -> bool {
        self.spec_tag() == ConstType::One
    }

    pub open spec fn spec_is_pi(&self) -> bool {
        self.spec_tag() == ConstType::Pi
    }

    pub open spec fn spec_is_e(&self) -> bool {
        self.spec_tag() == ConstType::E
    }

    #[verifier::when_used_as_spec(spec_is_operator)]
    pub fn is_operator(&self) -> (r: bool)
        ensures
            r == self.spec_is_operator(),
    {
        match self {
            Expression::Operand(_) => false,
            _ => true,
        }
    }

    pub fn is_operand(&self) -> (r: bool)
        ensures
            r == self is Operand,
    {
        match self {
            Expression::Operand(_) => true,
            _ => false,
        }
    }

    #[verifier::when_used_as_spec(spec_is_num)]
    pub fn is_num(&self) -> (r: bool)
        ensures
            r == self.spec_is_num(),
    {
        match self {
            Expression::Operand(o) => o.is_num(),
            _ => false,
        }
    }

    pub fn tag(&self) -> (r: ConstType)
        ensures
            r == self.spec_tag(),
    {
        match self {
            Expression::Operand(AstOperand::Num(n)) => n.tag(),
            _ => ConstType::Nothing,
        }
    }

    #[verifier::when_used_as_spec(spec_is_zero)]
    pub fn is_zero(&self) -> (r: bool)
        ensures
            r == self.spec_is_zero(),
    {
        self.tag() == ConstType::Zero
    }

    #[verifier::when_used_as_spec(spec_is_one)]
    pub fn is_one(&self) -> (r: bool)
        ensures
            r == self.spec_is_one(),
    {
        self.tag() == ConstType::One
    }

    #[verifier::when_used_as_spec(spec_is_pi)]
    pub fn is_pi(&self) -> (r: bool)
        ensures
            r == self.spec_is_pi(),
    {
        self.tag() == ConstType::Pi
    }

    #[verifier::when_used_as_spec(spec_is_e)]
    pub fn is_e(&self) -> (r: bool)
        ensures
            r == self.spec_is_e(),
    {
        self.tag() == ConstType::E
    }

    pub fn new_variable(name: &str) -> (r: Expression)
        ensures
            r is Operand,
            r->Operand_0 is Variable,
            r->Operand_0->Variable_0.name@ == name@,
    {
        Expression::Operand(AstOperand::new_variable(name))
    }

    pub fn from_variable(v: Variable) -> (r: Expression)
        ensures
            r == Expression::Operand(AstOperand::Variable(v)),
    {
        Expression::Operand(AstOperand::Variable(v))
    }

    pub fn from_num(n: SmartNum) -> (r: Expression)
        ensures
            r == num_expr(n),
    {
        Expression::Operand(AstOperand::Num(n))
    }

    pub fn zero() -> (r: Expression)
        ensures
            r == num_expr(SmartNum::Integer(0)),
    {
        Expression::from_num(SmartNum::Integer(0))
    }

    pub fn one() -> (r: Expression)
        ensures
            r == num_expr(SmartNum::Integer(1)),
    {
        Expression::from_num(SmartNum::Integer(1))
    }

    pub fn pi() -> (r: Expression)
        ensures
            r == num_expr(SmartNum::Pi),
    {
        Expression::from_num(SmartNum::Pi)
    }

    pub fn e() -> (r: Expression)
        ensures
            r == num_expr(SmartNum::E),
    {
        Expression::from_num(SmartNum::E)
    }

    /// The number held by a number operand.
    pub fn to_smart_num(&self) -> (r: Result<SmartNum, ExprIsNotNumError>)
        ensures
            self.spec_is_num() ==> r == Ok::<SmartNum, ExprIsNotNumError>(
                self->Operand_0->Num_0,
            ),
            !self.spec_is_num() ==> r == Err::<SmartNum, ExprIsNotNumError>(ExprIsNotNumError {  }),
    {
        match self {
            Expression::Operand(AstOperand::Num(n)) => Ok(*n),
            _ => Err(ExprIsNotNumError {  }),
        }
    }

    /// The exact fraction of a number that is an integer or a fraction.
    pub fn to_rational(&self) -> (r: Option<RationalNum>)
        ensures
            self.spec_is_num() ==> r == crate::smart_num::exact_fraction(self->Operand_0->Num_0),
            !self.spec_is_num() ==> r is None,
    {
        match self {
            Expression::Operand(AstOperand::Num(n)) => n.to_rational(),
            _ => None,
        }
    }

    /// The variable of a variable operand.
    pub fn to_variable(&self) -> (r: Option<Variable>)
        ensures
            (self is Operand && self->Operand_0 is Variable) ==> r == Some(
                self->Operand_0->Variable_0,
            ),
            !(self is Operand && self->Operand_0 is Variable) ==> r is None,
    {
        match self {
            Expression::Operand(AstOperand::Variable(v)) => Some(v.duplicate()),
            _ => None,
        }
    }

    /// A copy of the whole tree.
    pub fn duplicate(&self) -> (r: Expression)
        ensures
            r == *self,
        decreases self,
    {
        match self {
            Expression::Operand(o) => Expression::Operand(o.duplicate()),
            Expression::Unary(op, a) => Expression::Unary(*op, Box::new(a.duplicate())),
            Expression::Binary(op, a, b) => Expression::Binary(
                *op,
                Box::new(a.duplicate()),
                Box::new(b.duplicate()),
            ),
        }
    }

    pub fn make_unary(op: UnaryOperator, a: Expression) -> (r: Expression)
        ensures
            r == unary(op, a),
    {
        Expression::Unary(op, Box::new(a))
    }

    pub fn make_binary(op: BinaryOperator, a: Expression, b: Expression) -> (r: Expression)
        ensures
            r == binary(op, a, b),
    {
        Expression::Binary(op, Box::new(a), Box::new(b))
    }

    /// The operator at the root, if the root is an operator.
    pub fn operator(&self) -> (r: Option<AstOperator>)
        ensures
            r == (match *self {
                Expression::Operand(_) => None,
                Expression::Unary(op, _) => Some(AstOperator { descriptor: op.spec_kind() }),
                Expression::Binary(op, _, _) => Some(AstOperator { descriptor: op.spec_kind() }),
            }),
    {
        match self {
            Expression::Operand(_) => None,
            Expression::Unary(op, _) => Some(op.to_operator()),
            Expression::Binary(op, _, _) => Some(op.to_operator()),
        }
    }

    /// The root of the tree.
    pub fn root(&self) -> (r: AstNode)
        ensures
            r == (match *self {
                Expression::Operand(o) => AstNode::Operand(o),
                Expression::Unary(op, _) => AstNode::Operator(AstOperator { descriptor: op.spec_kind() }),
                Expression::Binary(op, _, _) => AstNode::Operator(
                    AstOperator { descriptor: op.spec_kind() },
                ),
            }),
    {
        match self {
            Expression::Operand(o) => AstNode::Operand(o.duplicate()),
            Expression::Unary(op, _) => AstNode::Operator(op.to_operator()),
            Expression::Binary(op, _, _) => AstNode::Operator(op.to_operator()),
        }
    }

    fn push_text(&self, upper: u32, out: &mut String)
        ensures
            final(out)@ == old(out)@ + render(*self, upper),
        decreases self,
    {
        proof {
            reveal_strlit("(");
            reveal_strlit(")");
            reveal_strlit(" ");
        }
        match self {
            Expression::Operand(o) => {
                let s = o.to_string();
                push_str(out, s.as_str());
            },
            Expression::Unary(op, a) => {
                let o = op.to_operator();
                let p = o.priority();
                let paren = p < upper;
                if paren {
                    push_str(out, "(");
                }
                push_str(out, o.to_string());
                a.push_text(p, out);
                if paren {
                    push_str(out, ")");
                }
                assert(final(out)@ =~= old(out)@ + render(*self, upper));
            },
            Expression::Binary(op, a, b) => {
                let o = op.to_operator();
                let p = o.priority();
                let paren = p < upper;
                if paren {
                    push_str(out, "(");
                }
                a.push_text(p, out);
                push_str(out, " ");
                push_str(out, o.to_string());
                push_str(out, " ");
                b.push_text(p, out);
                if paren {
                    push_str(out, ")");
                }
                assert(final(out)@ =~= old(out)@ + render(*self, upper));
            },
        }
    }

    /// The expression as text, with the parentheses that priorities require.
    pub fn to_string(&self) -> (r: String)
        ensures
            r@ == render(*self, 0),
    {
        let mut out = String::new();
        self.push_text(0, &mut out);
        assert(out@ =~= render(*self, 0));
        out
    }
}

} // verus!
