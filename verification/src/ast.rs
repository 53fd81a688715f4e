//! The abstract syntax tree the evaluator consumes.
//!
//! The parser guarantees the shape of these nodes; the evaluator only
//! dispatches on them.  Every node carries the token it was parsed from,
//! which the evaluator ignores: the mathematical meaning of a node (its
//! model, see [`crate::model`]) depends on the node structure alone.

use vstd::prelude::*;

use crate::token::Token;

verus! {

/// An integer literal such as `5`.
#[derive(Debug)]
pub struct IntegerLiteral {
    pub token: Token,
    pub value: i64,
}

/// A boolean literal, `true` or `false`.
#[derive(Debug)]
pub struct BooleanLiteral {
    pub token: Token,
    pub value: bool,
}

/// A string literal such as `"Hello World!"`.
#[derive(Debug)]
pub struct StringLiteral {
    pub token: Token,
    pub value: String,
}

/// A name standing for a binding, such as `x`.
#[derive(Debug)]
pub struct Identifier {
    pub token: Token,
    pub value: String,
}

/// A prefix application such as `!x` or `-5`.
#[derive(Debug)]
pub struct PrefixExpression {
    pub token: Token,
    pub operator: String,
    pub right: Box<Expression>,
}

/// An infix application such as `a + b`.
#[derive(Debug)]
pub struct InfixExpression {
    pub token: Token,
    pub left: Box<Expression>,
    pub operator: String,
    pub right: Box<Expression>,
}

/// `if (condition) { consequence } else { alternative }`.
///
/// The parser fills the blocks in after construction, so both are optional;
/// a missing block behaves like an empty one.
#[derive(Debug)]
pub struct IfExpression {
    pub token: Token,
    pub condition: Box<Expression>,
    pub consequence: Option<BlockStatement>,
    pub alternative: Option<BlockStatement>,
}

/// A function literal such as `fn(x, y) { x + y }`.
#[derive(Debug)]
pub struct FunctionLiteral {
    pub token: Token,
    pub parameters: Vec<Identifier>,
    pub body: BlockStatement,
}

/// A call such as `add(1, 2)`.
#[derive(Debug)]
pub struct CallExpression {
    pub token: Token,
    pub function: Box<Expression>,
    pub arguments: Vec<Expression>,
}

/// The expression sum the evaluator dispatches on.
#[derive(Debug)]
pub enum Expression {
    Integer(IntegerLiteral),
    Boolean(BooleanLiteral),
    Str(StringLiteral),
    Ident(Identifier),
    Prefix(PrefixExpression),
    Infix(InfixExpression),
    If(IfExpression),
    Function(FunctionLiteral),
    Call(CallExpression),
}

/// `let name = value;`
#[derive(Debug)]
pub struct LetStatement {
    pub token: Token,
    pub name: Identifier,
    pub value: Expression,
}

/// `return value;`
#[derive(Debug)]
pub struct ReturnStatement {
    pub token: Token,
    pub return_value: Box<Expression>,
}

/// An expression standing as a statement.
#[derive(Debug)]
pub struct ExpressionStatement {
    pub token: Token,
    pub expression: Expression,
}

/// The statement sum.
#[derive(Debug)]
pub enum Statement {
    Let(LetStatement),
    Return(ReturnStatement),
    Expression(ExpressionStatement),
}

/// A brace-delimited list of statements.
#[derive(Debug)]
pub struct BlockStatement {
    pub token: Token,
    pub statements: Vec<Statement>,
}

/// A whole program: its top-level statements in order.
#[derive(Debug)]
pub struct Program {
    pub statements: Vec<Statement>,
}

impl IfExpression {
    /// A fresh `if` node; the parser fills condition and blocks in later.
    pub fn new(token: Token) -> (e: Self)
        ensures
            e.token == token,
            crate::model::expr_model(e.spec_condition()) == crate::model::ExprModel::Int(0),
            e.spec_consequence() is None,
            e.spec_alternative() is None,
    {
        Self { token, ..Default::default() }
    }

    pub fn alternative(&self) -> (b: &Option<BlockStatement>)
        ensures
            b == &self.alternative,
    {
        &self.alternative
    }

    pub fn consequence(&self) -> (b: &Option<BlockStatement>)
        ensures
            b == &self.consequence,
    {
        &self.consequence
    }

    pub fn condition(&self) -> (c: &Expression)
        ensures
            c == &*self.condition,
    {
        &self.condition
    }

    pub fn alternative_mut(&mut self) -> (b: &mut Option<BlockStatement>)
        ensures
            *b == old(self).alternative,
            *final(self) == (IfExpression { alternative: *final(b), ..*old(self) }),
    {
        &mut self.alternative
    }

    pub fn consequence_mut(&mut self) -> (b: &mut Option<BlockStatement>)
        ensures
            *b == old(self).consequence,
            *final(self) == (IfExpression { consequence: *final(b), ..*old(self) }),
    {
        &mut self.consequence
    }

    pub fn condition_mut(&mut self) -> (c: &mut Box<Expression>)
        ensures
            *c == old(self).condition,
            *final(self) == (IfExpression { condition: *final(c), ..*old(self) }),
    {
        &mut self.condition
    }

    /// The literal text of the token this node was parsed from.
    pub fn token_literal(&self) -> (r: String)
        ensures
            r@ == self.token.literal@,
    {
        self.token.literal.clone()
    }

    /// The condition as a plain spec value.
    pub open spec fn spec_condition(&self) -> Expression {
        *self.condition
    }

    /// The consequence block as a spec value.
    pub open spec fn spec_consequence(&self) -> Option<BlockStatement> {
        self.consequence
    }

    /// The alternative block as a spec value.
    pub open spec fn spec_alternative(&self) -> Option<BlockStatement> {
        self.alternative
    }
}

impl Default for IfExpression {
    fn default() -> (e: Self)
        ensures
            e.token.literal@ == Seq::<char>::empty(),
            crate::model::expr_model(e.spec_condition()) == crate::model::ExprModel::Int(0),
            e.spec_consequence() is None,
            e.spec_alternative() is None,
    {
        Self {
            token: Token::default(),
            condition: Box::new(Expression::Integer(IntegerLiteral::default())),
            consequence: None,
            alternative: None,
        }
    }
}

impl InfixExpression {
    /// An infix node with its left operand; the parser sets `right` later.
    pub fn new(token: Token, left: Expression, operator: String) -> (e: Self)
        ensures
            e.token == token,
            *e.left == left,
            e.operator == operator,
            crate::model::expr_model(*e.right) == crate::model::ExprModel::Int(0),
    {
        Self { token, left: Box::new(left), operator, ..Default::default() }
    }

    /// The literal text of the token this node was parsed from.
    pub fn token_literal(&self) -> (r: String)
        ensures
            r@ == self.token.literal@,
    {
        self.token.literal.clone()
    }
}

impl Default for InfixExpression {
    fn default() -> (e: Self)
        ensures
            e.token.literal@ == Seq::<char>::empty(),
            crate::model::expr_model(*e.left) == crate::model::ExprModel::Int(0),
            e.operator@ == Seq::<char>::empty(),
            crate::model::expr_model(*e.right) == crate::model::ExprModel::Int(0),
    {
        Self {
            token: Token::default(),
            left: Box::new(Expression::Integer(IntegerLiteral::default())),
            operator: String::new(),
            right: Box::new(Expression::Integer(IntegerLiteral::default())),
        }
    }
}

impl ReturnStatement {
    /// A return node; the parser sets the returned expression later.
    pub fn new(token: Token) -> (s: Self)
        ensures
            s.token == token,
            crate::model::expr_model(*s.return_value) == crate::model::ExprModel::Int(0),
    {
        Self { token, ..Default::default() }
    }

    /// The literal text of the token this node was parsed from.
    pub fn token_literal(&self) -> (r: String)
        ensures
            r@ == self.token.literal@,
    {
        self.token.literal.clone()
    }
}

impl Default for ReturnStatement {
    fn default() -> (s: Self)
        ensures
            s.token.literal@ == Seq::<char>::empty(),
            crate::model::expr_model(*s.return_value) == crate::model::ExprModel::Int(0),
    {
        Self {
            token: Token::default(),
            return_value: Box::new(Expression::Integer(IntegerLiteral::default())),
        }
    }
}

/// Clones every expression of a list; the models are kept.
fn clone_expressions(v: &Vec<Expression>) -> (r: Vec<Expression>)
    ensures
        r@.len() == v@.len(),
        forall|i: int| 0 <= i < v@.len() ==> r@[i]@ == v@[i]@,
    decreases v,
{
    let mut r: Vec<Expression> = Vec::new();
    let n = v.len();
    let mut i: usize = 0;
    while i < n
        invariant
            i <= n,
            n == v@.len(),
            r@.len() == i,
            forall|j: int| 0 <= j < i ==> r@[j]@ == v@[j]@,
        decreases n - i,
    {
        let e = v[i].clone();
        r.push(e);
        i = i + 1;
    }
    r
}

/// Clones every statement of a list; the models are kept.
fn clone_statements(v: &Vec<Statement>) -> (r: Vec<Statement>)
    ensures
        r@.len() == v@.len(),
        forall|i: int| 0 <= i < v@.len() ==> r@[i]@ == v@[i]@,
    decreases v,
{
    let mut r: Vec<Statement> = Vec::new();
    let n = v.len();
    let mut i: usize = 0;
    while i < n
        invariant
            i <= n,
            n == v@.len(),
            r@.len() == i,
            forall|j: int| 0 <= j < i ==> r@[j]@ == v@[j]@,
        decreases n - i,
    {
        let s = v[i].clone();
        r.push(s);
        i = i + 1;
    }
    r
}

impl Clone for Identifier {
    fn clone(&self) -> (r: Self)
        ensures
            r == *self,
    {
        Identifier { token: self.token.clone(), value: self.value.clone() }
    }
}

impl Clone for Expression {
    /// A deep copy; it has the same model as the original.
    #[verifier::rlimit(50)]
    fn clone(&self) -> (r: Self)
        ensures
            r@ == self@,
        decreases self,
    {
        match self {
            Expression::Integer(n) => Expression::Integer(IntegerLiteral {
                token: n.token.clone(),
                value: n.value,
            }),
            Expression::Boolean(b) => Expression::Boolean(BooleanLiteral {
                token: b.token.clone(),
                value: b.value,
            }),
            Expression::Str(s) => Expression::Str(StringLiteral {
                token: s.token.clone(),
                value: s.value.clone(),
            }),
            Expression::Ident(i) => Expression::Ident(i.clone()),
            Expression::Prefix(p) => {
                let r = Expression::Prefix(PrefixExpression {
                    token: p.token.clone(),
                    operator: p.operator.clone(),
                    right: Box::new((&*p.right).clone()),
                });
                assert(r@ == self@);
                r
            },
            Expression::Infix(i) => {
                let r = Expression::Infix(InfixExpression {
                    token: i.token.clone(),
                    left: Box::new((&*i.left).clone()),
                    operator: i.operator.clone(),
                    right: Box::new((&*i.right).clone()),
                });
                assert(r@ == self@);
                r
            },
            Expression::If(i) => {
                let condition = Box::new((&*i.condition).clone());
                let consequence = (match &i.consequence {
                    Some(b) => Some(b.clone()),
                    None => None,
                });
                let alternative = (match &i.alternative {
                    Some(b) => Some(b.clone()),
                    None => None,
                });
                proof {
                    assert(crate::model::expr_model(*condition) == crate::model::expr_model(
                        *i.condition,
                    ));
                    assert(crate::model::opt_block_model(consequence)
                        == crate::model::opt_block_model(i.consequence));
                    assert(crate::model::opt_block_model(alternative)
                        == crate::model::opt_block_model(i.alternative));
                }
                let r = Expression::If(IfExpression {
                    token: i.token.clone(),
                    condition,
                    consequence,
                    alternative,
                });
                assert(r@ == self@);
                r
            },
            Expression::Function(f) => {
                let parameters = f.parameters.clone();
                proof {
                    assert(crate::model::params_model(parameters@) =~= crate::model::params_model(
                        f.parameters@,
                    ));
                }
                let r = Expression::Function(FunctionLiteral {
                    token: f.token.clone(),
                    parameters,
                    body: f.body.clone(),
                });
                assert(r@ == self@);
                r
            },
            Expression::Call(c) => {
                let arguments = clone_expressions(&c.arguments);
                proof {
                    crate::model::lemma_exprs_model_from(arguments@, 0);
                    crate::model::lemma_exprs_model_from(c.arguments@, 0);
                    assert(crate::model::exprs_model_from(arguments@, 0)
                        =~= crate::model::exprs_model_from(c.arguments@, 0));
                }
                let r = Expression::Call(CallExpression {
                    token: c.token.clone(),
                    function: Box::new((&*c.function).clone()),
                    arguments,
                });
                assert(r@ == self@);
                r
            },
        }
    }
}

impl Clone for Statement {
    /// A deep copy; it has the same model as the original.
    fn clone(&self) -> (r: Self)
        ensures
            r@ == self@,
        decreases self,
    {
        match self {
            Statement::Let(l) => Statement::Let(LetStatement {
                token: l.token.clone(),
                name: l.name.clone(),
                value: l.value.clone(),
            }),
            Statement::Return(r) => Statement::Return(ReturnStatement {
                token: r.token.clone(),
                return_value: Box::new((&*r.return_value).clone()),
            }),
            Statement::Expression(e) => Statement::Expression(ExpressionStatement {
                token: e.token.clone(),
                expression: e.expression.clone(),
            }),
        }
    }
}

impl Clone for BlockStatement {
    /// A deep copy; it has the same model as the original.
    fn clone(&self) -> (r: Self)
        ensures
            r@ == self@,
        decreases self,
    {
        let statements = clone_statements(&self.statements);
        proof {
            crate::model::lemma_stmts_model_from(statements@, 0);
            crate::model::lemma_stmts_model_from(self.statements@, 0);
            assert(crate::model::stmts_model_from(statements@, 0) =~= crate::model::stmts_model_from(
                self.statements@,
                0,
            ));
        }
        BlockStatement { token: self.token.clone(), statements }
    }
}

impl Clone for Program {
    /// A deep copy; it has the same model as the original.
    fn clone(&self) -> (r: Self)
        ensures
            r@ == self@,
    {
        let statements = clone_statements(&self.statements);
        proof {
            crate::model::lemma_stmts_model_from(statements@, 0);
            crate::model::lemma_stmts_model_from(self.statements@, 0);
            assert(crate::model::stmts_model_from(statements@, 0) =~= crate::model::stmts_model_from(
                self.statements@,
                0,
            ));
        }
        Program { statements }
    }
}

impl Default for IntegerLiteral {
    fn default() -> (e: Self)
        ensures
            e.token.literal@ == Seq::<char>::empty(),
            e.value == 0,
    {
        Self { token: Token::default(), value: 0 }
    }
}

} // verus!
