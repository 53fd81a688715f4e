//! The mathematical model of programs and runtime values.
//!
//! Every syntax node maps to a model value that keeps the structure and the
//! text of the node and forgets its tokens; every runtime object maps to a
//! model value over mathematical sequences.  The contracts of the whole
//! library are stated over these models.

use vstd::prelude::*;

use crate::ast::{
    BlockStatement, Expression, Identifier, Program, Statement,
};

verus! {

/// Model of an expression: the node structure with tokens forgotten.
#[verifier::ext_equal]
pub enum ExprModel {
    Int(i64),
    Bool(bool),
    Str(Seq<char>),
    Ident(Seq<char>),
    Prefix { op: Seq<char>, right: Box<ExprModel> },
    Infix { op: Seq<char>, left: Box<ExprModel>, right: Box<ExprModel> },
    If { cond: Box<ExprModel>, cons: Option<BlockModel>, alt: Option<BlockModel> },
    Func { params: Seq<Seq<char>>, body: BlockModel },
    Call { func: Box<ExprModel>, args: Seq<ExprModel> },
}

/// Model of a statement.
#[verifier::ext_equal]
pub enum StmtModel {
    Let { name: Seq<char>, value: ExprModel },
    Ret { value: ExprModel },
    Expr { value: ExprModel },
}

/// Model of a block: its statements in order.
pub type BlockModel = Seq<StmtModel>;

/// The one required native function of the built-in registry.
#[derive(Debug, Clone, Copy, PartialEq, Eq, Structural)]
pub enum BuiltinFn {
    Len,
}

/// Model of a runtime value.
///
/// `Ret` and `Error` are the two control-flow signals: a `return` in flight
/// and an error in flight.  They are produced and consumed inside the
/// evaluation rules and never stored in an environment.
#[verifier::ext_equal]
pub enum ValueModel {
    Int(i64),
    Bool(bool),
    Str(Seq<char>),
    Null,
    /// A closure: parameter names, body, and the frame it captured.
    Func { params: Seq<Seq<char>>, body: BlockModel, env: nat },
    Builtin(BuiltinFn),
    Ret(Box<ValueModel>),
    Error(Seq<char>),
}

/// Model of one scope: its bindings in the order they were made, and the
/// frame it delegates lookups to.
#[verifier::ext_equal]
pub struct FrameModel {
    pub parent: Option<nat>,
    pub binds: Seq<(Seq<char>, ValueModel)>,
}

/// Model of a whole environment: the arena of every frame ever created,
/// indexed by the order of creation.  Frame 0 is the global scope.
pub type EnvModel = Seq<FrameModel>;

/// The model of an expression node.
pub open spec fn expr_model(e: Expression) -> ExprModel
    decreases e,
{
    match e {
        Expression::Integer(n) => ExprModel::Int(n.value),
        Expression::Boolean(b) => ExprModel::Bool(b.value),
        Expression::Str(s) => ExprModel::Str(s.value@),
        Expression::Ident(i) => ExprModel::Ident(i.value@),
        Expression::Prefix(p) => ExprModel::Prefix {
            op: p.operator@,
            right: Box::new(expr_model(*p.right)),
        },
        Expression::Infix(i) => ExprModel::Infix {
            op: i.operator@,
            left: Box::new(expr_model(*i.left)),
            right: Box::new(expr_model(*i.right)),
        },
        Expression::If(i) => ExprModel::If {
            cond: Box::new(expr_model(i.spec_condition())),
            cons: opt_block_model(i.spec_consequence()),
            alt: opt_block_model(i.spec_alternative()),
        },
        Expression::Function(f) => ExprModel::Func {
            params: params_model(f.parameters@),
            body: block_model(f.body),
        },
        Expression::Call(c) => ExprModel::Call {
            func: Box::new(expr_model(*c.function)),
            args: exprs_model_from(c.arguments@, 0),
        },
    }
}

/// The models of the expressions of `es` from position `i` on.
pub open spec fn exprs_model_from(es: Seq<Expression>, i: int) -> Seq<ExprModel>
    decreases es, es.len() - i,
{
    if i < 0 || i >= es.len() {
        Seq::empty()
    } else {
        seq![expr_model(es[i])] + exprs_model_from(es, i + 1)
    }
}

/// The names of a parameter list.
pub open spec fn params_model(ps: Seq<Identifier>) -> Seq<Seq<char>> {
    Seq::new(ps.len(), |i: int| ps[i].value@)
}

/// The model of a statement node.
pub open spec fn stmt_model(s: Statement) -> StmtModel
    decreases s,
{
    match s {
        Statement::Let(l) => StmtModel::Let { name: l.name.value@, value: expr_model(l.value) },
        Statement::Return(r) => StmtModel::Ret { value: expr_model(*r.return_value) },
        Statement::Expression(e) => StmtModel::Expr { value: expr_model(e.expression) },
    }
}

/// The models of the statements of `ss` from position `i` on.
pub open spec fn stmts_model_from(ss: Seq<Statement>, i: int) -> Seq<StmtModel>
    decreases ss, ss.len() - i,
{
    if i < 0 || i >= ss.len() {
        Seq::empty()
    } else {
        seq![stmt_model(ss[i])] + stmts_model_from(ss, i + 1)
    }
}

/// The model of a block.
pub open spec fn block_model(b: BlockStatement) -> BlockModel
    decreases b,
{
    stmts_model_from(b.statements@, 0)
}

/// The model of an optional block.
pub open spec fn opt_block_model(b: Option<BlockStatement>) -> Option<BlockModel>
    decreases b,
{
    match b {
        Some(b) => Some(block_model(b)),
        None => None,
    }
}

/// The model of a program: its statements.
pub open spec fn program_model(p: Program) -> Seq<StmtModel> {
    stmts_model_from(p.statements@, 0)
}

impl View for Expression {
    type V = ExprModel;

    open spec fn view(&self) -> ExprModel {
        expr_model(*self)
    }
}

impl View for Statement {
    type V = StmtModel;

    open spec fn view(&self) -> StmtModel {
        stmt_model(*self)
    }
}

impl View for BlockStatement {
    type V = BlockModel;

    open spec fn view(&self) -> BlockModel {
        block_model(*self)
    }
}

impl View for Program {
    type V = Seq<StmtModel>;

    open spec fn view(&self) -> Seq<StmtModel> {
        program_model(*self)
    }
}

/// The model of a statement list, statement by statement: position `j` of
/// the model is the model of statement `i + j`.
pub proof fn lemma_stmts_model_from(ss: Seq<Statement>, i: int)
    requires
        0 <= i <= ss.len(),
    ensures
        stmts_model_from(ss, i).len() == ss.len() - i,
        forall|j: int|
            0 <= j < ss.len() - i ==> stmts_model_from(ss, i)[j] == stmt_model(ss[i + j]),
    decreases ss.len() - i,
{
    if i < ss.len() {
        lemma_stmts_model_from(ss, i + 1);
        assert forall|j: int| 0 <= j < ss.len() - i implies stmts_model_from(ss, i)[j]
            == stmt_model(ss[i + j]) by {
            if j > 0 {
                assert(stmts_model_from(ss, i)[j] == stmts_model_from(ss, i + 1)[j - 1]);
            }
        }
    }
}

/// The model of an expression list, expression by expression.
pub proof fn lemma_exprs_model_from(es: Seq<Expression>, i: int)
    requires
        0 <= i <= es.len(),
    ensures
        exprs_model_from(es, i).len() == es.len() - i,
        forall|j: int|
            0 <= j < es.len() - i ==> exprs_model_from(es, i)[j] == expr_model(es[i + j]),
    decreases es.len() - i,
{
    if i < es.len() {
        lemma_exprs_model_from(es, i + 1);
        assert forall|j: int| 0 <= j < es.len() - i implies exprs_model_from(es, i)[j]
            == expr_model(es[i + j]) by {
            if j > 0 {
                assert(exprs_model_from(es, i)[j] == exprs_model_from(es, i + 1)[j - 1]);
            }
        }
    }
}

/// The innermost binding of `name` in one scope's bindings: the last one
/// made wins.
pub open spec fn bind_lookup(binds: Seq<(Seq<char>, ValueModel)>, name: Seq<char>) -> Option<
    ValueModel,
>
    decreases binds.len(),
{
    if binds.len() == 0 {
        None
    } else if binds.last().0 == name {
        Some(binds.last().1)
    } else {
        bind_lookup(binds.drop_last(), name)
    }
}

/// The value of `name` seen from frame `f`: the binding in `f` if there is
/// one, else the binding seen from its parent.  A frame's parent was always
/// created before it, so only a smaller index is followed.
pub open spec fn lookup_from(env: EnvModel, f: int, name: Seq<char>) -> Option<ValueModel>
    decreases f,
{
    if 0 <= f < env.len() {
        match bind_lookup(env[f].binds, name) {
            Some(v) => Some(v),
            None => match env[f].parent {
                Some(p) => if p < f {
                    lookup_from(env, p as int, name)
                } else {
                    None
                },
                None => None,
            },
        }
    } else {
        None
    }
}

/// The environment after binding `name` to `v` in frame `f`: the binding
/// is appended to that frame and every other frame is untouched.
pub open spec fn env_set(env: EnvModel, f: int, name: Seq<char>, v: ValueModel) -> EnvModel {
    if 0 <= f < env.len() {
        env.update(f, FrameModel { parent: env[f].parent, binds: env[f].binds.push((name, v)) })
    } else {
        env
    }
}

} // verus!
