//! The laws of the evaluator, proved once and for all inputs.
//!
//! Each proof function here states a property of the semantics of
//! [`crate::semantics`] — and so, through the exact contracts of
//! [`crate::evaluator`], of the executable evaluator itself.

use vstd::prelude::*;

use crate::model::{env_set, lookup_from, BlockModel, EnvModel, ExprModel, FrameModel, StmtModel,
    ValueModel};
use crate::semantics::{
    bound_params, eval_block_m, eval_expr_m, eval_exprs_m, eval_program_m, eval_stmt_m,
    eval_stmts_m, truthiness, unwrap_ret,
};

verus! {

/// Whether an expression is built of integer literals and the integer
/// operators `+ - * /` and prefix `-` alone.
pub open spec fn int_expr(e: ExprModel) -> bool
    decreases e,
{
    match e {
        ExprModel::Int(_) => true,
        ExprModel::Prefix { op, right } => op == "-"@ && int_expr(*right),
        ExprModel::Infix { op, left, right } => (op == "+"@ || op == "-"@ || op == "*"@ || op
            == "/"@) && int_expr(*left) && int_expr(*right),
        _ => false,
    }
}

/// The value of an integer expression computed directly on 64-bit signed
/// host integers, with the host's wrapping `+ - *` and truncating `/`.
pub open spec fn int_expr_value(e: ExprModel) -> i64
    decreases e,
{
    match e {
        ExprModel::Int(n) => n,
        ExprModel::Prefix { op, right } => (0 as i64).wrapping_sub(int_expr_value(*right)),
        ExprModel::Infix { op, left, right } => {
            let a = int_expr_value(*left);
            let b = int_expr_value(*right);
            if op == "+"@ {
                a.wrapping_add(b)
            } else if op == "-"@ {
                a.wrapping_sub(b)
            } else if op == "*"@ {
                a.wrapping_mul(b)
            } else {
                match a.checked_div(b) {
                    Some(q) => q,
                    None => i64::MIN,
                }
            }
        },
        _ => 0,
    }
}

/// Whether every division inside an integer expression is one the host
/// defines: no zero divisor and no overflowing quotient.
pub open spec fn int_expr_defined(e: ExprModel) -> bool
    decreases e,
{
    match e {
        ExprModel::Int(_) => true,
        ExprModel::Prefix { op, right } => int_expr_defined(*right),
        ExprModel::Infix { op, left, right } => int_expr_defined(*left) && int_expr_defined(*right)
            && (op == "/"@ ==> (int_expr_value(*right) != 0 && !(int_expr_value(*left)
            == i64::MIN && int_expr_value(*right) == -1))),
        _ => true,
    }
}

/// The height of an expression: a step budget that always suffices to
/// evaluate an integer expression.
pub open spec fn expr_depth(e: ExprModel) -> nat
    decreases e,
{
    match e {
        ExprModel::Prefix { op, right } => expr_depth(*right) + 1,
        ExprModel::Infix { op, left, right } => {
            let a = expr_depth(*left);
            let b = expr_depth(*right);
            (if a <= b {
                b
            } else {
                a
            }) + 1
        },
        _ => 1,
    }
}

/// The five operator spellings used by the integer rules are pairwise
/// distinct texts.
proof fn lemma_operator_literals_distinct()
    ensures
        "!"@ != "+"@,
        "!"@ != "-"@,
        "!"@ != "*"@,
        "!"@ != "/"@,
        "+"@ != "-"@,
        "+"@ != "*"@,
        "+"@ != "/"@,
        "-"@ != "*"@,
        "-"@ != "/"@,
        "*"@ != "/"@,
{
    reveal_strlit("!");
    reveal_strlit("+");
    reveal_strlit("-");
    reveal_strlit("*");
    reveal_strlit("/");
    assert("!"@[0] == '!');
    assert("+"@[0] == '+');
    assert("-"@[0] == '-');
    assert("*"@[0] == '*');
    assert("/"@[0] == '/');
}

/// Arithmetic soundness: an expression built of integer literals and
/// `+ - * /` — with standard precedence, which the syntax tree already
/// fixes — evaluates, in any environment and with any sufficient budget,
/// to exactly the value the host computes on 64-bit signed integers, and
/// leaves the environment untouched.  Divisions the host leaves undefined
/// (a zero divisor, or the one overflowing quotient) are excluded.
pub proof fn lemma_integer_arithmetic_sound(fuel: nat, e: ExprModel, env: EnvModel, f: nat)
    requires
        int_expr(e),
        int_expr_defined(e),
        fuel >= expr_depth(e),
    ensures
        eval_expr_m(fuel, e, env, f) == (ValueModel::Int(int_expr_value(e)), env),
    decreases e,
{
    lemma_operator_literals_distinct();
    match e {
        ExprModel::Int(_) => {},
        ExprModel::Prefix { op, right } => {
            lemma_integer_arithmetic_sound((fuel - 1) as nat, *right, env, f);
        },
        ExprModel::Infix { op, left, right } => {
            lemma_integer_arithmetic_sound((fuel - 1) as nat, *left, env, f);
            lemma_integer_arithmetic_sound((fuel - 1) as nat, *right, env, f);
            assert(crate::semantics::eval_int_infix(
                op,
                int_expr_value(*left),
                int_expr_value(*right),
            ) == ValueModel::Int(int_expr_value(e)));
        },
        _ => {},
    }
}

/// Truthiness: `!e` evaluates to the boolean negation of the truthiness
/// of the value of `e`, whatever that value is, as long as it is not an
/// error in flight.
pub proof fn lemma_bang_negates_truthiness(fuel: nat, e: ExprModel, env: EnvModel, f: nat)
    requires
        fuel >= 1,
        !(eval_expr_m((fuel - 1) as nat, e, env, f).0 is Error),
    ensures
        eval_expr_m(fuel, ExprModel::Prefix { op: "!"@, right: Box::new(e) }, env, f) == (
            ValueModel::Bool(!truthiness(eval_expr_m((fuel - 1) as nat, e, env, f).0)),
            eval_expr_m((fuel - 1) as nat, e, env, f).1,
        ),
{
}

/// Truthiness, doubled: `!!e` evaluates to `true` exactly when the value
/// of `e` is truthy.
pub proof fn lemma_double_bang_is_truthiness(fuel: nat, e: ExprModel, env: EnvModel, f: nat)
    requires
        fuel >= 2,
        !(eval_expr_m((fuel - 2) as nat, e, env, f).0 is Error),
    ensures
        eval_expr_m(
            fuel,
            ExprModel::Prefix {
                op: "!"@,
                right: Box::new(ExprModel::Prefix { op: "!"@, right: Box::new(e) }),
            },
            env,
            f,
        ).0 == ValueModel::Bool(truthiness(eval_expr_m((fuel - 2) as nat, e, env, f).0)),
{
    lemma_bang_negates_truthiness((fuel - 1) as nat, e, env, f);
    lemma_bang_negates_truthiness(
        fuel,
        ExprModel::Prefix { op: "!"@, right: Box::new(e) },
        env,
        f,
    );
}

/// A statement wrapped in `depth` nested `if (true) { ... }` blocks.
pub open spec fn nest_in_if(depth: nat, s: StmtModel) -> StmtModel
    decreases depth,
{
    if depth == 0 {
        s
    } else {
        StmtModel::Expr {
            value: ExprModel::If {
                cond: Box::new(ExprModel::Bool(true)),
                cons: Some(seq![nest_in_if((depth - 1) as nat, s)]),
                alt: None,
            },
        }
    }
}

/// Return through nesting: a statement buried under any depth of nested
/// blocks evaluates to exactly what it evaluates to on its own — in
/// particular, a `return` in flight passes through every enclosing block
/// unwrapped, whatever the depth.
pub proof fn lemma_return_pierces_nesting(
    depth: nat,
    fuel: nat,
    s: StmtModel,
    env: EnvModel,
    f: nat,
)
    requires
        fuel >= 4 * depth,
    ensures
        eval_stmt_m(fuel, nest_in_if(depth, s), env, f) == eval_stmt_m(
            (fuel - 4 * depth) as nat,
            s,
            env,
            f,
        ),
    decreases depth,
{
    if depth > 0 {
        lemma_return_pierces_nesting((depth - 1) as nat, (fuel - 4) as nat, s, env, f);
        let inner = nest_in_if((depth - 1) as nat, s);
        let block = seq![inner];
        assert(eval_stmts_m((fuel - 3) as nat, block, 0, env, f) == eval_stmt_m(
            (fuel - 4) as nat,
            inner,
            env,
            f,
        ));
    }
}

/// Return through a call: when a function's body ends in a `return` in
/// flight, the call yields its payload.
pub proof fn lemma_call_yields_return_payload(
    fuel: nat,
    params: Seq<Seq<char>>,
    body: BlockModel,
    captured: nat,
    args: Seq<ValueModel>,
    env: EnvModel,
    v: ValueModel,
)
    requires
        fuel >= 1,
        eval_block_m(
            (fuel - 1) as nat,
            body,
            env.push(FrameModel { parent: Some(captured), binds: bound_params(params, args) }),
            env.len(),
        ).0 == ValueModel::Ret(Box::new(v)),
    ensures
        crate::semantics::apply_m(
            fuel,
            ValueModel::Func { params, body, env: captured },
            args,
            env,
        ).0 == v,
{
}

/// Return at the top level: when a program's statements end in a
/// `return` in flight, the program yields its payload.
pub proof fn lemma_program_yields_return_payload(
    fuel: nat,
    prog: Seq<StmtModel>,
    env: EnvModel,
    f: nat,
    v: ValueModel,
)
    requires
        fuel >= 1,
        eval_stmts_m((fuel - 1) as nat, prog, 0, env, f).0 == ValueModel::Ret(Box::new(v)),
    ensures
        eval_program_m(fuel, prog, env, f).0 == v,
{
}

/// A `return` in flight stops a statement list at once: the statements
/// after it are never evaluated and have no effect on the environment.
pub proof fn lemma_return_stops_statements(
    fuel: nat,
    stmts: Seq<StmtModel>,
    i: int,
    env: EnvModel,
    f: nat,
)
    requires
        fuel >= 1,
        0 <= i < stmts.len(),
        eval_stmt_m((fuel - 1) as nat, stmts[i], env, f).0 is Ret,
    ensures
        eval_stmts_m(fuel, stmts, i, env, f) == eval_stmt_m((fuel - 1) as nat, stmts[i], env, f),
{
}

/// Error short-circuit in a statement list: once a statement yields an
/// error, no later statement is evaluated, and the error surfaces
/// unchanged.
pub proof fn lemma_error_stops_statements(
    fuel: nat,
    stmts: Seq<StmtModel>,
    i: int,
    env: EnvModel,
    f: nat,
)
    requires
        fuel >= 1,
        0 <= i < stmts.len(),
        eval_stmt_m((fuel - 1) as nat, stmts[i], env, f).0 is Error,
    ensures
        eval_stmts_m(fuel, stmts, i, env, f) == eval_stmt_m((fuel - 1) as nat, stmts[i], env, f),
{
}

/// Error short-circuit in an infix expression: an error from the left
/// operand is the whole expression's result, and the right operand is
/// never evaluated — the environment is exactly the one the left operand
/// left behind.
pub proof fn lemma_error_stops_infix_left(
    fuel: nat,
    op: Seq<char>,
    l: ExprModel,
    r: ExprModel,
    env: EnvModel,
    f: nat,
)
    requires
        fuel >= 1,
        eval_expr_m((fuel - 1) as nat, l, env, f).0 is Error,
    ensures
        eval_expr_m(
            fuel,
            ExprModel::Infix { op, left: Box::new(l), right: Box::new(r) },
            env,
            f,
        ) == eval_expr_m((fuel - 1) as nat, l, env, f),
{
}

/// Error short-circuit in an infix expression, right operand: once the
/// right operand yields an error, it surfaces unchanged.
pub proof fn lemma_error_stops_infix_right(
    fuel: nat,
    op: Seq<char>,
    l: ExprModel,
    r: ExprModel,
    env: EnvModel,
    f: nat,
)
    requires
        fuel >= 1,
        !(eval_expr_m((fuel - 1) as nat, l, env, f).0 is Error),
        eval_expr_m(
            (fuel - 1) as nat,
            r,
            eval_expr_m((fuel - 1) as nat, l, env, f).1,
            f,
        ).0 is Error,
    ensures
        eval_expr_m(
            fuel,
            ExprModel::Infix { op, left: Box::new(l), right: Box::new(r) },
            env,
            f,
        ) == eval_expr_m(
            (fuel - 1) as nat,
            r,
            eval_expr_m((fuel - 1) as nat, l, env, f).1,
            f,
        ),
{
}

/// Error short-circuit in an argument list: once an argument yields an
/// error, the later arguments are never evaluated, and the error is the
/// call's result.
pub proof fn lemma_error_stops_arguments(
    fuel: nat,
    args: Seq<ExprModel>,
    i: int,
    env: EnvModel,
    f: nat,
)
    requires
        fuel >= 1,
        0 <= i < args.len(),
        eval_expr_m((fuel - 1) as nat, args[i], env, f).0 is Error,
    ensures
        eval_exprs_m(fuel, args, i, env, f) == (
            Result::<Seq<ValueModel>, ValueModel>::Err(
                eval_expr_m((fuel - 1) as nat, args[i], env, f).0,
            ),
            eval_expr_m((fuel - 1) as nat, args[i], env, f).1,
        ),
{
}

/// An error is never caught: when a program's statements yield an error,
/// the program yields that very error.
pub proof fn lemma_error_surfaces_unchanged(fuel: nat, prog: Seq<StmtModel>, env: EnvModel, f: nat)
    requires
        fuel >= 1,
        eval_stmts_m((fuel - 1) as nat, prog, 0, env, f).0 is Error,
    ensures
        eval_program_m(fuel, prog, env, f) == eval_stmts_m((fuel - 1) as nat, prog, 0, env, f),
{
}

/// Closure capture, the capture itself: a function literal evaluates to a
/// function value that remembers the very frame it was evaluated in, and
/// changes nothing.
pub proof fn lemma_function_literal_captures_frame(
    fuel: nat,
    params: Seq<Seq<char>>,
    body: BlockModel,
    env: EnvModel,
    f: nat,
)
    requires
        fuel >= 1,
    ensures
        eval_expr_m(fuel, ExprModel::Func { params, body }, env, f) == (
            ValueModel::Func { params, body, env: f },
            env,
        ),
{
}

/// Closure capture, the call: applying a function value runs its body in
/// a fresh frame whose lookups fall back to the captured frame — the
/// frame chain as it stands at call time, so bindings added to the
/// captured scope after the capture are observed.
pub proof fn lemma_call_enters_captured_scope(
    fuel: nat,
    params: Seq<Seq<char>>,
    body: BlockModel,
    captured: nat,
    args: Seq<ValueModel>,
    env: EnvModel,
)
    requires
        fuel >= 1,
    ensures
        crate::semantics::apply_m(
            fuel,
            ValueModel::Func { params, body, env: captured },
            args,
            env,
        ) == ({
            let env2 = env.push(
                FrameModel { parent: Some(captured), binds: bound_params(params, args) },
            );
            let (v, env3) = eval_block_m((fuel - 1) as nat, body, env2, env.len());
            (unwrap_ret(v), env3)
        }),
{
}

/// Closure capture, insulation: what a lookup sees from frame `f` depends
/// only on the frames up to `f` — frames created after the capture, the
/// inner scopes of later calls included, can never shadow what a closure
/// captured.
pub proof fn lemma_lookup_ignores_later_frames(
    env1: EnvModel,
    env2: EnvModel,
    f: int,
    name: Seq<char>,
)
    requires
        0 <= f < env1.len(),
        env1.len() <= env2.len(),
        forall|i: int| 0 <= i < env1.len() ==> env2[i] == env1[i],
    ensures
        lookup_from(env2, f, name) == lookup_from(env1, f, name),
    decreases f,
{
    match crate::model::bind_lookup(env1[f].binds, name) {
        Some(_) => {},
        None => {
            match env1[f].parent {
                Some(p) => {
                    if p < f {
                        lemma_lookup_ignores_later_frames(env1, env2, p as int, name);
                    }
                },
                None => {},
            }
        },
    }
}

/// Closure capture, later additions: a binding made in a frame after a
/// closure captured it is observed by lookups from that frame.
pub proof fn lemma_binding_after_capture_is_seen(
    env: EnvModel,
    f: int,
    name: Seq<char>,
    v: ValueModel,
)
    requires
        0 <= f < env.len(),
    ensures
        lookup_from(env_set(env, f, name, v), f, name) == Some(v),
{
    let env2 = env_set(env, f, name, v);
    assert(env2[f].binds.last() == (name, v));
    assert(crate::model::bind_lookup(env2[f].binds, name) == Some(v));
}

/// A run that did not spend its whole budget is final: evaluating the
/// same expression with any larger budget gives the very same value and
/// environment.
pub proof fn lemma_budget_final_expr(f1: nat, f2: nat, e: ExprModel, env: EnvModel, fr: nat)
    requires
        f1 <= f2,
        eval_expr_m(f1, e, env, fr).0 != ValueModel::Error(crate::semantics::budget_message()),
    ensures
        eval_expr_m(f2, e, env, fr) == eval_expr_m(f1, e, env, fr),
    decreases f1,
{
    let spent = ValueModel::Error(crate::semantics::budget_message());
    assert(f1 > 0);
    match e {
        ExprModel::Int(_) => {},
        ExprModel::Bool(_) => {},
        ExprModel::Str(_) => {},
        ExprModel::Ident(_) => {},
        ExprModel::Prefix { op, right } => {
            let v1 = eval_expr_m((f1 - 1) as nat, *right, env, fr);
            if v1.0 == spent {
                assert(eval_expr_m(f1, e, env, fr).0 == v1.0);
            }
            lemma_budget_final_expr((f1 - 1) as nat, (f2 - 1) as nat, *right, env, fr);
        },
        ExprModel::Infix { op, left, right } => {
            let l1 = eval_expr_m((f1 - 1) as nat, *left, env, fr);
            if l1.0 == spent {
                assert(eval_expr_m(f1, e, env, fr).0 == l1.0);
            }
            lemma_budget_final_expr((f1 - 1) as nat, (f2 - 1) as nat, *left, env, fr);
            if !(l1.0 is Error) {
                let r1 = eval_expr_m((f1 - 1) as nat, *right, l1.1, fr);
                if r1.0 == spent {
                    assert(eval_expr_m(f1, e, env, fr).0 == r1.0);
                }
                lemma_budget_final_expr((f1 - 1) as nat, (f2 - 1) as nat, *right, l1.1, fr);
            }
        },
        ExprModel::If { cond, cons, alt } => {
            let c1 = eval_expr_m((f1 - 1) as nat, *cond, env, fr);
            if c1.0 == spent {
                assert(eval_expr_m(f1, e, env, fr).0 == c1.0);
            }
            lemma_budget_final_expr((f1 - 1) as nat, (f2 - 1) as nat, *cond, env, fr);
            if !(c1.0 is Error) {
                if crate::semantics::truthiness(c1.0) {
                    match cons {
                        Some(b) => {
                            lemma_budget_final_block((f1 - 1) as nat, (f2 - 1) as nat, b, c1.1, fr);
                        },
                        None => {},
                    }
                } else {
                    match alt {
                        Some(b) => {
                            lemma_budget_final_block((f1 - 1) as nat, (f2 - 1) as nat, b, c1.1, fr);
                        },
                        None => {},
                    }
                }
            }
        },
        ExprModel::Func { params, body } => {},
        ExprModel::Call { func, args } => {
            let fv1 = eval_expr_m((f1 - 1) as nat, *func, env, fr);
            if fv1.0 == spent {
                assert(eval_expr_m(f1, e, env, fr).0 == fv1.0);
            }
            lemma_budget_final_expr((f1 - 1) as nat, (f2 - 1) as nat, *func, env, fr);
            if !(fv1.0 is Error) {
                let a1 = eval_exprs_m((f1 - 1) as nat, args, 0, fv1.1, fr);
                if a1.0 == Result::<Seq<ValueModel>, ValueModel>::Err(spent) {
                    assert(eval_expr_m(f1, e, env, fr).0 == spent);
                }
                lemma_budget_final_exprs((f1 - 1) as nat, (f2 - 1) as nat, args, 0, fv1.1, fr);
                match a1.0 {
                    Result::Ok(vals) => {
                        if crate::semantics::apply_m((f1 - 1) as nat, fv1.0, vals, a1.1).0
                            == spent {
                            assert(eval_expr_m(f1, e, env, fr).0 == spent);
                        }
                        lemma_budget_final_apply(
                            (f1 - 1) as nat,
                            (f2 - 1) as nat,
                            fv1.0,
                            vals,
                            a1.1,
                        );
                    },
                    Result::Err(_) => {},
                }
            }
        },
    }
}

/// As [`lemma_budget_final_expr`], for an argument list.
pub proof fn lemma_budget_final_exprs(
    f1: nat,
    f2: nat,
    args: Seq<ExprModel>,
    i: int,
    env: EnvModel,
    fr: nat,
)
    requires
        f1 <= f2,
        eval_exprs_m(f1, args, i, env, fr).0 != Result::<Seq<ValueModel>, ValueModel>::Err(
            ValueModel::Error(crate::semantics::budget_message()),
        ),
    ensures
        eval_exprs_m(f2, args, i, env, fr) == eval_exprs_m(f1, args, i, env, fr),
    decreases f1,
{
    let spent = ValueModel::Error(crate::semantics::budget_message());
    assert(f1 > 0);
    if 0 <= i < args.len() {
        let v1 = eval_expr_m((f1 - 1) as nat, args[i], env, fr);
        if v1.0 == spent {
            assert(eval_exprs_m(f1, args, i, env, fr).0
                == Result::<Seq<ValueModel>, ValueModel>::Err(spent));
        }
        lemma_budget_final_expr((f1 - 1) as nat, (f2 - 1) as nat, args[i], env, fr);
        if !(v1.0 is Error) {
            let rest1 = eval_exprs_m((f1 - 1) as nat, args, i + 1, v1.1, fr);
            if rest1.0 == Result::<Seq<ValueModel>, ValueModel>::Err(spent) {
                assert(eval_exprs_m(f1, args, i, env, fr).0
                    == Result::<Seq<ValueModel>, ValueModel>::Err(spent));
            }
            lemma_budget_final_exprs((f1 - 1) as nat, (f2 - 1) as nat, args, i + 1, v1.1, fr);
        }
    }
}

/// As [`lemma_budget_final_expr`], for a call of an evaluated callee.
pub proof fn lemma_budget_final_apply(
    f1: nat,
    f2: nat,
    fv: ValueModel,
    args: Seq<ValueModel>,
    env: EnvModel,
)
    requires
        f1 <= f2,
        crate::semantics::apply_m(f1, fv, args, env).0 != ValueModel::Error(
            crate::semantics::budget_message(),
        ),
    ensures
        crate::semantics::apply_m(f2, fv, args, env) == crate::semantics::apply_m(
            f1,
            fv,
            args,
            env,
        ),
    decreases f1,
{
    let spent = ValueModel::Error(crate::semantics::budget_message());
    assert(f1 > 0);
    match fv {
        ValueModel::Func { params, body, env: captured } => {
            let env2 = env.push(
                FrameModel { parent: Some(captured), binds: bound_params(params, args) },
            );
            let v1 = eval_block_m((f1 - 1) as nat, body, env2, env.len());
            if v1.0 == spent {
                assert(crate::semantics::apply_m(f1, fv, args, env).0 == unwrap_ret(v1.0));
            }
            lemma_budget_final_block((f1 - 1) as nat, (f2 - 1) as nat, body, env2, env.len());
        },
        _ => {},
    }
}

/// As [`lemma_budget_final_expr`], for a block.
pub proof fn lemma_budget_final_block(f1: nat, f2: nat, b: BlockModel, env: EnvModel, fr: nat)
    requires
        f1 <= f2,
        eval_block_m(f1, b, env, fr).0 != ValueModel::Error(crate::semantics::budget_message()),
    ensures
        eval_block_m(f2, b, env, fr) == eval_block_m(f1, b, env, fr),
    decreases f1,
{
    assert(f1 > 0);
    lemma_budget_final_stmts((f1 - 1) as nat, (f2 - 1) as nat, b, 0, env, fr);
}

/// As [`lemma_budget_final_expr`], for a statement list.
pub proof fn lemma_budget_final_stmts(
    f1: nat,
    f2: nat,
    stmts: Seq<StmtModel>,
    i: int,
    env: EnvModel,
    fr: nat,
)
    requires
        f1 <= f2,
        eval_stmts_m(f1, stmts, i, env, fr).0 != ValueModel::Error(
            crate::semantics::budget_message(),
        ),
    ensures
        eval_stmts_m(f2, stmts, i, env, fr) == eval_stmts_m(f1, stmts, i, env, fr),
    decreases f1,
{
    let spent = ValueModel::Error(crate::semantics::budget_message());
    assert(f1 > 0);
    if 0 <= i < stmts.len() {
        let v1 = eval_stmt_m((f1 - 1) as nat, stmts[i], env, fr);
        if v1.0 == spent {
            assert(eval_stmts_m(f1, stmts, i, env, fr).0 == v1.0);
        }
        lemma_budget_final_stmt((f1 - 1) as nat, (f2 - 1) as nat, stmts[i], env, fr);
        if !(v1.0 is Ret) && !(v1.0 is Error) && i + 1 < stmts.len() {
            let rest1 = eval_stmts_m((f1 - 1) as nat, stmts, i + 1, v1.1, fr);
            if rest1.0 == spent {
                assert(eval_stmts_m(f1, stmts, i, env, fr).0 == rest1.0);
            }
            lemma_budget_final_stmts((f1 - 1) as nat, (f2 - 1) as nat, stmts, i + 1, v1.1, fr);
        }
    }
}

/// As [`lemma_budget_final_expr`], for one statement.
pub proof fn lemma_budget_final_stmt(f1: nat, f2: nat, s: StmtModel, env: EnvModel, fr: nat)
    requires
        f1 <= f2,
        eval_stmt_m(f1, s, env, fr).0 != ValueModel::Error(crate::semantics::budget_message()),
    ensures
        eval_stmt_m(f2, s, env, fr) == eval_stmt_m(f1, s, env, fr),
    decreases f1,
{
    let spent = ValueModel::Error(crate::semantics::budget_message());
    assert(f1 > 0);
    match s {
        StmtModel::Let { name, value } => {
            let v1 = eval_expr_m((f1 - 1) as nat, value, env, fr);
            if v1.0 == spent {
                assert(eval_stmt_m(f1, s, env, fr).0 == v1.0);
            }
            lemma_budget_final_expr((f1 - 1) as nat, (f2 - 1) as nat, value, env, fr);
        },
        StmtModel::Ret { value } => {
            let v1 = eval_expr_m((f1 - 1) as nat, value, env, fr);
            if v1.0 == spent {
                assert(eval_stmt_m(f1, s, env, fr).0 == v1.0);
            }
            lemma_budget_final_expr((f1 - 1) as nat, (f2 - 1) as nat, value, env, fr);
        },
        StmtModel::Expr { value } => {
            let v1 = eval_expr_m((f1 - 1) as nat, value, env, fr);
            if v1.0 == spent {
                assert(eval_stmt_m(f1, s, env, fr).0 == v1.0);
            }
            lemma_budget_final_expr((f1 - 1) as nat, (f2 - 1) as nat, value, env, fr);
        },
    }
}

/// A program that did not spend its whole budget is final: any larger
/// budget — the default one included — gives the very same value and
/// environment.
pub proof fn lemma_budget_final_program(
    f1: nat,
    f2: nat,
    prog: Seq<StmtModel>,
    env: EnvModel,
    fr: nat,
)
    requires
        f1 <= f2,
        eval_program_m(f1, prog, env, fr).0 != ValueModel::Error(
            crate::semantics::budget_message(),
        ),
    ensures
        eval_program_m(f2, prog, env, fr) == eval_program_m(f1, prog, env, fr),
    decreases f1,
{
    let spent = ValueModel::Error(crate::semantics::budget_message());
    assert(f1 > 0);
    let v1 = eval_stmts_m((f1 - 1) as nat, prog, 0, env, fr);
    if v1.0 == spent {
        assert(eval_program_m(f1, prog, env, fr).0 == unwrap_ret(v1.0));
    }
    lemma_budget_final_stmts((f1 - 1) as nat, (f2 - 1) as nat, prog, 0, env, fr);
}

} // verus!
