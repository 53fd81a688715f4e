//! The executable evaluator.
//!
//! Every function here is proved to return exactly what the corresponding
//! specification function of [`crate::semantics`] says, for every program,
//! every starting environment and every step budget.  Evaluation spends
//! one unit of budget at each recursive step; [`DEFAULT_BUDGET`] is ample
//! for any program that does not recurse extravagantly, and a program that
//! needs more yields the budget error instead of running forever.

use vstd::prelude::*;

use crate::ast::{
    BlockStatement, Expression, Identifier, Program, Statement,
};
use crate::environment::Environment;
use crate::model::{BuiltinFn, ValueModel};
use crate::object::{
    objects_model, strings_model, Boolean, Function, Integer, Object, StringObj,
};
use crate::semantics::{
    apply_builtin, apply_m, budget_message, eval_block_m, eval_expr_m,
    eval_exprs_m, eval_ident, eval_infix_op, eval_int_infix, eval_prefix_op, eval_program_m,
    eval_stmt_m, eval_stmts_m, msg_identifier_not_found, msg_len_unsupported,
    msg_not_a_function, msg_type_mismatch, msg_unknown_infix, msg_unknown_prefix,
    msg_wrong_arg_count, same_kind, truthiness, values_equal,
};

verus! {

/// The step budget [`eval`] runs with.
pub const DEFAULT_BUDGET: u64 = 1000000;

/// Whether `s` holds exactly the text of `lit`.
fn string_is(s: &String, lit: &str) -> (b: bool)
    ensures
        b == (s@ == lit@),
{
    let other = String::from_str(lit);
    s.eq(&other)
}

/// Whether a value counts as true in a condition.
fn is_truthy(o: &Object) -> (b: bool)
    ensures
        b == truthiness(o@),
{
    match o {
        Object::Boolean(b) => b.value,
        Object::Null => false,
        _ => true,
    }
}

/// Whether a value is an error in flight.
fn is_error(o: &Object) -> (b: bool)
    ensures
        b == (o@ is Error),
{
    match o {
        Object::Error(_) => true,
        _ => false,
    }
}

/// Whether a value is a `return` in flight.
fn is_return(o: &Object) -> (b: bool)
    ensures
        b == (o@ is Ret),
{
    match o {
        Object::ReturnValue(_) => true,
        _ => false,
    }
}

/// The budget error: the step budget was spent before evaluation ended.
fn budget_error() -> (r: Object)
    ensures
        r@ == ValueModel::Error(budget_message()),
{
    Object::Error(String::from_str("evaluation ran out of steps"))
}

/// Builds `type mismatch: <LEFT> <op> <RIGHT>`.
fn type_mismatch_error(l: &Object, op: &String, r: &Object) -> (m: String)
    ensures
        m@ == msg_type_mismatch(l@, op@, r@),
{
    let mut m = String::from_str("type mismatch: ");
    m.append(l.type_tag_string());
    m.append(" ");
    m.append(op.as_str());
    m.append(" ");
    m.append(r.type_tag_string());
    m
}

/// Builds `unknown operator: <op><TYPE>`.
fn unknown_prefix_error(op: &String, v: &Object) -> (m: String)
    ensures
        m@ == msg_unknown_prefix(op@, v@),
{
    let mut m = String::from_str("unknown operator: ");
    m.append(op.as_str());
    m.append(v.type_tag_string());
    m
}

/// Builds `unknown operator: <LEFT> <op> <RIGHT>`.
fn unknown_infix_error(l: &Object, op: &String, r: &Object) -> (m: String)
    ensures
        m@ == msg_unknown_infix(l@, op@, r@),
{
    let mut m = String::from_str("unknown operator: ");
    m.append(l.type_tag_string());
    m.append(" ");
    m.append(op.as_str());
    m.append(" ");
    m.append(r.type_tag_string());
    m
}

/// Builds `identifier not found: <name>`.
fn identifier_not_found_error(name: &String) -> (m: String)
    ensures
        m@ == msg_identifier_not_found(name@),
{
    let mut m = String::from_str("identifier not found: ");
    m.append(name.as_str());
    m
}

/// Builds `not a function: <TYPE>`.
fn not_a_function_error(v: &Object) -> (m: String)
    ensures
        m@ == msg_not_a_function(v@),
{
    let mut m = String::from_str("not a function: ");
    m.append(v.type_tag_string());
    m
}

/// Builds ``argument to `len` not supported, got <TYPE>``.
fn len_unsupported_error(v: &Object) -> (m: String)
    ensures
        m@ == msg_len_unsupported(v@),
{
    let mut m = String::from_str("argument to `len` not supported, got ");
    m.append(v.type_tag_string());
    m
}

/// Builds `wrong number of arguments. got=<n>, want=1`.
fn wrong_arg_count_error(got: u64) -> (m: String)
    ensures
        m@ == msg_wrong_arg_count(got as int),
{
    let mut m = String::from_str("wrong number of arguments. got=");
    let digits = crate::render::dec_to_string(got);
    m.append(digits.as_str());
    m.append(", want=1");
    m
}

/// Structural equality as the fallback `==` rule sees it.
fn objects_equal(l: &Object, r: &Object) -> (b: bool)
    ensures
        b == values_equal(l@, r@),
{
    match (l, r) {
        (Object::Integer(a), Object::Integer(b)) => a.value == b.value,
        (Object::Boolean(a), Object::Boolean(b)) => a.value == b.value,
        (Object::Str(a), Object::Str(b)) => a.value.eq(&b.value),
        (Object::Null, Object::Null) => true,
        (Object::Builtin(a), Object::Builtin(b)) => (match (a, b) {
            (BuiltinFn::Len, BuiltinFn::Len) => true,
        }),
        _ => false,
    }
}

/// Whether two values carry the same type tag.
fn objects_same_kind(l: &Object, r: &Object) -> (b: bool)
    ensures
        b == same_kind(l@, r@),
{
    match (l, r) {
        (Object::Integer(_), Object::Integer(_)) => true,
        (Object::Boolean(_), Object::Boolean(_)) => true,
        (Object::Str(_), Object::Str(_)) => true,
        (Object::Null, Object::Null) => true,
        (Object::Function(_), Object::Function(_)) => true,
        (Object::Builtin(_), Object::Builtin(_)) => true,
        (Object::ReturnValue(_), Object::ReturnValue(_)) => true,
        (Object::Error(_), Object::Error(_)) => true,
        _ => false,
    }
}

/// Applies a prefix operator to an already evaluated, non-error operand.
fn eval_prefix(op: &String, v: Object) -> (r: Object)
    ensures
        r@ == eval_prefix_op(op@, v@),
{
    if string_is(op, "!") {
        let b = !is_truthy(&v);
        Object::Boolean(Boolean { value: b })
    } else if string_is(op, "-") {
        match &v {
            Object::Integer(i) => Object::Integer(
                Integer { value: (0 as i64).wrapping_sub(i.value) },
            ),
            _ => Object::Error(unknown_prefix_error(op, &v)),
        }
    } else {
        Object::Error(unknown_prefix_error(op, &v))
    }
}

/// Applies an infix operator to two integers.
fn eval_integer_infix(op: &String, a: i64, b: i64) -> (r: Object)
    ensures
        r@ == eval_int_infix(op@, a, b),
{
    if string_is(op, "+") {
        Object::Integer(Integer { value: a.wrapping_add(b) })
    } else if string_is(op, "-") {
        Object::Integer(Integer { value: a.wrapping_sub(b) })
    } else if string_is(op, "*") {
        Object::Integer(Integer { value: a.wrapping_mul(b) })
    } else if string_is(op, "/") {
        if b == 0 {
            Object::Error(String::from_str("division by zero"))
        } else {
            match a.checked_div(b) {
                Some(q) => Object::Integer(Integer { value: q }),
                None => Object::Integer(Integer { value: i64::MIN }),
            }
        }
    } else if string_is(op, "<") {
        Object::Boolean(Boolean { value: a < b })
    } else if string_is(op, ">") {
        Object::Boolean(Boolean { value: a > b })
    } else if string_is(op, "==") {
        Object::Boolean(Boolean { value: a == b })
    } else if string_is(op, "!=") {
        Object::Boolean(Boolean { value: a != b })
    } else {
        let l = Object::Integer(Integer { value: a });
        let r = Object::Integer(Integer { value: b });
        Object::Error(unknown_infix_error(&l, op, &r))
    }
}

/// Applies an infix operator to two already evaluated, non-error operands.
fn eval_infix(op: &String, l: Object, r: Object) -> (res: Object)
    ensures
        res@ == eval_infix_op(op@, l@, r@),
{
    match (&l, &r) {
        (Object::Integer(a), Object::Integer(b)) => eval_integer_infix(op, a.value, b.value),
        (Object::Str(a), Object::Str(b)) => {
            if string_is(op, "+") {
                let mut combined = a.value.clone();
                combined.append(b.value.as_str());
                Object::Str(StringObj { value: combined })
            } else if string_is(op, "==") {
                Object::Boolean(Boolean { value: a.value.eq(&b.value) })
            } else if string_is(op, "!=") {
                Object::Boolean(Boolean { value: !a.value.eq(&b.value) })
            } else {
                Object::Error(unknown_infix_error(&l, op, &r))
            }
        },
        _ => {
            if string_is(op, "==") {
                Object::Boolean(Boolean { value: objects_equal(&l, &r) })
            } else if string_is(op, "!=") {
                Object::Boolean(Boolean { value: !objects_equal(&l, &r) })
            } else if !objects_same_kind(&l, &r) {
                Object::Error(type_mismatch_error(&l, op, &r))
            } else {
                Object::Error(unknown_infix_error(&l, op, &r))
            }
        },
    }
}

/// The parameter names of a function literal, as owned strings.
fn clone_params(ps: &Vec<Identifier>) -> (r: Vec<String>)
    ensures
        strings_model(r@) == crate::model::params_model(ps@),
{
    let mut r: Vec<String> = Vec::new();
    let n = ps.len();
    let mut i: usize = 0;
    while i < n
        invariant
            i <= n,
            n == ps@.len(),
            r@.len() == i,
            forall|j: int| 0 <= j < i ==> r@[j]@ == ps@[j].value@,
        decreases n - i,
    {
        r.push(ps[i].value.clone());
        i = i + 1;
    }
    proof {
        assert(strings_model(r@) =~= crate::model::params_model(ps@));
    }
    r
}

/// Evaluates an identifier: the environment first, the built-in registry
/// second, an unbound-identifier error last.
fn eval_identifier(name: &String, env: &Environment, f: usize) -> (r: Object)
    ensures
        r@ == eval_ident(env@, f as nat, name@),
{
    match env.get(f, name) {
        Some(o) => o,
        None => {
            if string_is(name, "len") {
                Object::Builtin(BuiltinFn::Len)
            } else {
                Object::Error(identifier_not_found_error(name))
            }
        },
    }
}

/// Applies a built-in to already evaluated arguments.
fn apply_builtin_fn(b: BuiltinFn, args: &Vec<Object>) -> (r: Object)
    ensures
        r@ == apply_builtin(b, objects_model(args@)),
{
    match b {
        BuiltinFn::Len => {
            let ghost am = objects_model(args@);
            proof {
                assert(am.len() == args@.len());
            }
            if args.len() != 1 {
                Object::Error(wrong_arg_count_error(args.len() as u64))
            } else {
                proof {
                    assert(am[0] == args@[0]@);
                }
                match &args[0] {
                    Object::Str(s) => {
                        let bytes = s.value.as_str().len();
                        proof {
                            assert(am[0] == ValueModel::Str(s.value@));
                        }
                        if (bytes as u64) <= (i64::MAX as u64) {
                            Object::Integer(Integer { value: bytes as i64 })
                        } else {
                            Object::Integer(Integer { value: i64::MAX })
                        }
                    },
                    other => Object::Error(len_unsupported_error(other)),
                }
            }
        },
    }
}

/// Evaluates one expression in frame `f` of `env`, spending one unit of
/// budget at each recursive step.
#[verifier::rlimit(80)]
fn eval_expression(e: &Expression, env: &mut Environment, f: usize, fuel: u64) -> (r: Object)
    ensures
        r@ == eval_expr_m(fuel as nat, e@, old(env)@, f as nat).0,
        final(env)@ == eval_expr_m(fuel as nat, e@, old(env)@, f as nat).1,
    decreases fuel,
{
    if fuel == 0 {
        return budget_error();
    }
    let ghost menv = old(env)@;
    match e {
        Expression::Integer(n) => {
            let r = Object::Integer(Integer { value: n.value });
            proof {
                assert(e@ == crate::model::ExprModel::Int(n.value));
                assert(r@ == eval_expr_m(fuel as nat, e@, menv, f as nat).0);
            }
            r
        },
        Expression::Boolean(b) => Object::Boolean(Boolean { value: b.value }),
        Expression::Str(s) => Object::Str(StringObj { value: s.value.clone() }),
        Expression::Ident(i) => {
            let r = eval_identifier(&i.value, env, f);
            proof {
                assert(r@ == eval_expr_m(fuel as nat, e@, menv, f as nat).0);
            }
            r
        },
        Expression::Prefix(p) => {
            let v = eval_expression(&p.right, env, f, fuel - 1);
            let r = (if is_error(&v) {
                v
            } else {
                eval_prefix(&p.operator, v)
            });
            proof {
                assert(r@ == eval_expr_m(fuel as nat, e@, menv, f as nat).0);
                assert(env@ == eval_expr_m(fuel as nat, e@, menv, f as nat).1);
            }
            r
        },
        Expression::Infix(i) => {
            let l = eval_expression(&i.left, env, f, fuel - 1);
            let r = (if is_error(&l) {
                l
            } else {
                let rhs = eval_expression(&i.right, env, f, fuel - 1);
                if is_error(&rhs) {
                    rhs
                } else {
                    eval_infix(&i.operator, l, rhs)
                }
            });
            proof {
                assert(r@ == eval_expr_m(fuel as nat, e@, menv, f as nat).0);
                assert(env@ == eval_expr_m(fuel as nat, e@, menv, f as nat).1);
            }
            r
        },
        Expression::If(ie) => {
            proof {
                assert(e@ == (crate::model::ExprModel::If {
                    cond: Box::new(crate::model::expr_model(ie.spec_condition())),
                    cons: crate::model::opt_block_model(ie.spec_consequence()),
                    alt: crate::model::opt_block_model(ie.spec_alternative()),
                }));
            }
            let c = eval_expression(&ie.condition, env, f, fuel - 1);
            proof {
                assert(c@ == eval_expr_m(
                    (fuel - 1) as nat,
                    crate::model::expr_model(ie.spec_condition()),
                    menv,
                    f as nat,
                ).0);
            }
            let r = (if is_error(&c) {
                c
            } else if is_truthy(&c) {
                match &ie.consequence {
                    Some(b) => eval_block(b, env, f, fuel - 1),
                    None => Object::Null,
                }
            } else {
                match &ie.alternative {
                    Some(b) => eval_block(b, env, f, fuel - 1),
                    None => Object::Null,
                }
            });
            proof {
                assert(r@ == eval_expr_m(fuel as nat, e@, menv, f as nat).0);
                assert(env@ == eval_expr_m(fuel as nat, e@, menv, f as nat).1);
            }
            r
        },
        Expression::Function(fl) => {
            let parameters = clone_params(&fl.parameters);
            let body = fl.body.clone();
            let r = Object::Function(Function { parameters, body, env: f });
            proof {
                assert(r@ == eval_expr_m(fuel as nat, e@, menv, f as nat).0);
            }
            r
        },
        Expression::Call(c) => {
            let fv = eval_expression(&c.function, env, f, fuel - 1);
            let r = (if is_error(&fv) {
                fv
            } else {
                match eval_expressions(&c.arguments, 0, env, f, fuel - 1) {
                    Result::Err(err) => err,
                    Result::Ok(vals) => apply_function(fv, vals, env, fuel - 1),
                }
            });
            proof {
                assert(r@ == eval_expr_m(fuel as nat, e@, menv, f as nat).0);
                assert(env@ == eval_expr_m(fuel as nat, e@, menv, f as nat).1);
            }
            r
        },
    }
}

/// Evaluates the expressions of a list from position `i` on, left to
/// right, stopping at the first error.
fn eval_expressions(
    args: &Vec<Expression>,
    i: usize,
    env: &mut Environment,
    f: usize,
    fuel: u64,
) -> (r: Result<Vec<Object>, Object>)
    ensures
        (match r {
            Result::Ok(vals) => eval_exprs_m(
                fuel as nat,
                crate::model::exprs_model_from(args@, 0),
                i as int,
                old(env)@,
                f as nat,
            ).0 == Result::<Seq<ValueModel>, ValueModel>::Ok(objects_model(vals@)),
            Result::Err(err) => eval_exprs_m(
                fuel as nat,
                crate::model::exprs_model_from(args@, 0),
                i as int,
                old(env)@,
                f as nat,
            ).0 == Result::<Seq<ValueModel>, ValueModel>::Err(err@),
        }),
        final(env)@ == eval_exprs_m(
            fuel as nat,
            crate::model::exprs_model_from(args@, 0),
            i as int,
            old(env)@,
            f as nat,
        ).1,
    decreases fuel,
{
    proof {
        crate::model::lemma_exprs_model_from(args@, 0);
    }
    if fuel == 0 {
        return Result::Err(budget_error());
    }
    if i >= args.len() {
        let empty: Vec<Object> = Vec::new();
        proof {
            assert(objects_model(empty@) =~= Seq::<ValueModel>::empty());
        }
        return Result::Ok(empty);
    }
    let v = eval_expression(&args[i], env, f, fuel - 1);
    if is_error(&v) {
        return Result::Err(v);
    }
    match eval_expressions(args, i + 1, env, f, fuel - 1) {
        Result::Ok(mut rest) => {
            let ghost v_m = v@;
            let ghost rest_m = objects_model(rest@);
            let mut out: Vec<Object> = Vec::new();
            out.push(v);
            out.append(&mut rest);
            proof {
                assert(objects_model(out@) =~= seq![v_m] + rest_m);
            }
            Result::Ok(out)
        },
        Result::Err(err) => Result::Err(err),
    }
}

/// Applies an already evaluated callee to already evaluated arguments.
///
/// A function value runs its body in a fresh frame enclosed in the one it
/// captured, and a `return` in flight is unwrapped here.
fn apply_function(fv: Object, args: Vec<Object>, env: &mut Environment, fuel: u64) -> (r: Object)
    ensures
        r@ == apply_m(fuel as nat, fv@, objects_model(args@), old(env)@).0,
        final(env)@ == apply_m(fuel as nat, fv@, objects_model(args@), old(env)@).1,
    decreases fuel,
{
    if fuel == 0 {
        return budget_error();
    }
    match fv {
        Object::Function(func) => {
            let ghost params_m = strings_model(func.parameters@);
            let ghost args_m = objects_model(args@);
            let ghost before = env@;
            let newf = env.new_enclosed(func.env);
            let mut idx: usize = 0;
            let bound = (if func.parameters.len() <= args.len() {
                func.parameters.len()
            } else {
                args.len()
            });
            proof {
                assert(env@ =~~= before.push(
                    crate::model::FrameModel {
                        parent: Some(func.env as nat),
                        binds: crate::semantics::bound_params(params_m, args_m).take(0),
                    },
                ));
            }
            while idx < bound
                invariant
                    idx <= bound,
                    bound == (if params_m.len() <= args_m.len() {
                        params_m.len()
                    } else {
                        args_m.len()
                    }),
                    params_m == strings_model(func.parameters@),
                    args_m == objects_model(args@),
                    newf == before.len(),
                    env@ =~~= before.push(
                        crate::model::FrameModel {
                            parent: Some(func.env as nat),
                            binds: crate::semantics::bound_params(params_m, args_m).take(idx as int),
                        },
                    ),
                decreases bound - idx,
            {
                let ghost env_before_set = env@;
                env.set(newf, func.parameters[idx].clone(), args[idx].clone());
                proof {
                    assert(crate::semantics::bound_params(params_m, args_m).take(idx as int + 1)
                        =~= crate::semantics::bound_params(params_m, args_m).take(idx as int).push(
                        (params_m[idx as int], args_m[idx as int]),
                    ));
                    assert(env@ =~~= before.push(
                        crate::model::FrameModel {
                            parent: Some(func.env as nat),
                            binds: crate::semantics::bound_params(params_m, args_m).take(
                                idx as int + 1,
                            ),
                        },
                    ));
                }
                idx = idx + 1;
            }
            proof {
                assert(crate::semantics::bound_params(params_m, args_m).take(bound as int)
                    =~= crate::semantics::bound_params(params_m, args_m));
                assert(env@ =~~= before.push(
                    crate::model::FrameModel {
                        parent: Some(func.env as nat),
                        binds: crate::semantics::bound_params(params_m, args_m),
                    },
                ));
            }
            let rv = eval_block(&func.body, env, newf, fuel - 1);
            match rv {
                Object::ReturnValue(b) => *b,
                other => other,
            }
        },
        Object::Builtin(b) => apply_builtin_fn(b, &args),
        other => Object::Error(not_a_function_error(&other)),
    }
}

/// Evaluates a block in frame `f`: its statements in order.  A `return`
/// in flight passes through unwrapped.
fn eval_block(b: &BlockStatement, env: &mut Environment, f: usize, fuel: u64) -> (r: Object)
    ensures
        r@ == eval_block_m(fuel as nat, b@, old(env)@, f as nat).0,
        final(env)@ == eval_block_m(fuel as nat, b@, old(env)@, f as nat).1,
    decreases fuel,
{
    if fuel == 0 {
        return budget_error();
    }
    eval_statements(&b.statements, 0, env, f, fuel - 1)
}

/// Evaluates one statement in frame `f`.
fn eval_statement(s: &Statement, env: &mut Environment, f: usize, fuel: u64) -> (r: Object)
    ensures
        r@ == eval_stmt_m(fuel as nat, s@, old(env)@, f as nat).0,
        final(env)@ == eval_stmt_m(fuel as nat, s@, old(env)@, f as nat).1,
    decreases fuel,
{
    if fuel == 0 {
        return budget_error();
    }
    match s {
        Statement::Let(l) => {
            let v = eval_expression(&l.value, env, f, fuel - 1);
            if is_error(&v) {
                v
            } else {
                env.set(f, l.name.value.clone(), v);
                Object::Null
            }
        },
        Statement::Return(ret) => {
            let v = eval_expression(&ret.return_value, env, f, fuel - 1);
            if is_error(&v) {
                v
            } else {
                Object::ReturnValue(Box::new(v))
            }
        },
        Statement::Expression(es) => eval_expression(&es.expression, env, f, fuel - 1),
    }
}

/// Evaluates the statements of a list from position `i` on.  The value is
/// that of the last statement, or `null` for an empty list; an error or a
/// `return` in flight stops the list at once.
#[verifier::rlimit(60)]
fn eval_statements(
    stmts: &Vec<Statement>,
    i: usize,
    env: &mut Environment,
    f: usize,
    fuel: u64,
) -> (r: Object)
    ensures
        r@ == eval_stmts_m(
            fuel as nat,
            crate::model::stmts_model_from(stmts@, 0),
            i as int,
            old(env)@,
            f as nat,
        ).0,
        final(env)@ == eval_stmts_m(
            fuel as nat,
            crate::model::stmts_model_from(stmts@, 0),
            i as int,
            old(env)@,
            f as nat,
        ).1,
    decreases fuel,
{
    proof {
        crate::model::lemma_stmts_model_from(stmts@, 0);
    }
    if fuel == 0 {
        return budget_error();
    }
    if i >= stmts.len() {
        return Object::Null;
    }
    let v = eval_statement(&stmts[i], env, f, fuel - 1);
    if is_return(&v) || is_error(&v) {
        return v;
    }
    if i + 1 == stmts.len() {
        return v;
    }
    eval_statements(stmts, i + 1, env, f, fuel - 1)
}

/// Evaluates a whole program in the global scope of `env`, spending at
/// most `budget` recursive steps; a program that needs more yields the
/// error carrying [`crate::semantics::budget_message`].  A `return` at
/// the top level yields the program's value.
pub fn eval_with_budget(program: &Program, env: &mut Environment, budget: u64) -> (r: Object)
    ensures
        r@ == eval_program_m(budget as nat, program@, old(env)@, 0).0,
        final(env)@ == eval_program_m(budget as nat, program@, old(env)@, 0).1,
{
    if budget == 0 {
        return budget_error();
    }
    let v = eval_statements(&program.statements, 0, env, 0, budget - 1);
    match v {
        Object::ReturnValue(b) => *b,
        other => other,
    }
}

/// Evaluates a whole program in the global scope of `env` with the
/// default step budget.  The returned value may be any variant, the
/// error value included: errors are values, not exceptions.
pub fn eval(program: &Program, env: &mut Environment) -> (r: Object)
    ensures
        r@ == eval_program_m(DEFAULT_BUDGET as nat, program@, old(env)@, 0).0,
        final(env)@ == eval_program_m(DEFAULT_BUDGET as nat, program@, old(env)@, 0).1,
{
    eval_with_budget(program, env, DEFAULT_BUDGET)
}

} // verus!
