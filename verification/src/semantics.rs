//! The meaning of programs.
//!
//! These specification functions give every program a mathematical value:
//! what it evaluates to and what it does to the environment.  Evaluation is
//! bounded by a `fuel` that falls by one at every recursive step, so the
//! meaning is total even though the language itself admits programs that
//! never finish; a run that would need more steps than the fuel allows
//! means the reserved budget error.  The executable evaluator in
//! [`crate::evaluator`] is proved to return exactly these values.

use vstd::prelude::*;

use crate::model::{
    env_set, lookup_from, BlockModel, BuiltinFn, EnvModel, ExprModel, FrameModel, StmtModel,
    ValueModel,
};

verus! {

/// Whether a value counts as true in a condition: `false` and `null` are
/// falsy, every other value — `0` and the empty string included — truthy.
pub open spec fn truthiness(v: ValueModel) -> bool {
    match v {
        ValueModel::Bool(b) => b,
        ValueModel::Null => false,
        _ => true,
    }
}

/// The uppercase type tag a value shows in diagnostic messages.
pub open spec fn type_tag(v: ValueModel) -> Seq<char> {
    match v {
        ValueModel::Int(_) => "INTEGER"@,
        ValueModel::Bool(_) => "BOOLEAN"@,
        ValueModel::Str(_) => "STRING"@,
        ValueModel::Null => "NULL"@,
        ValueModel::Func { .. } => "FUNCTION"@,
        ValueModel::Builtin(_) => "BUILTIN"@,
        ValueModel::Ret(_) => "RETURN_VALUE"@,
        ValueModel::Error(_) => "ERROR"@,
    }
}

/// The decimal digit for `d`; meaningful for `0 <= d <= 9`.
pub open spec fn digit_char(d: int) -> char {
    if d == 0 {
        '0'
    } else if d == 1 {
        '1'
    } else if d == 2 {
        '2'
    } else if d == 3 {
        '3'
    } else if d == 4 {
        '4'
    } else if d == 5 {
        '5'
    } else if d == 6 {
        '6'
    } else if d == 7 {
        '7'
    } else if d == 8 {
        '8'
    } else {
        '9'
    }
}

/// The decimal digits of a nonnegative number, most significant first.
pub open spec fn dec_digits(n: int) -> Seq<char>
    decreases n,
{
    if n < 10 {
        seq![digit_char(n)]
    } else {
        dec_digits(n / 10).push(digit_char(n % 10))
    }
}

/// The decimal form of a 64-bit signed number, with a leading `-` when
/// negative.
pub open spec fn int_digits(n: int) -> Seq<char> {
    if n < 0 {
        seq!['-'] + dec_digits(-n)
    } else {
        dec_digits(n)
    }
}

/// The message of the error produced when the step budget is spent.  No
/// evaluation rule of the language itself produces this message.
pub open spec fn budget_message() -> Seq<char> {
    "evaluation ran out of steps"@
}

/// `type mismatch: <LEFT> <op> <RIGHT>`
pub open spec fn msg_type_mismatch(l: ValueModel, op: Seq<char>, r: ValueModel) -> Seq<char> {
    "type mismatch: "@ + type_tag(l) + " "@ + op + " "@ + type_tag(r)
}

/// `unknown operator: <op><TYPE>`
pub open spec fn msg_unknown_prefix(op: Seq<char>, v: ValueModel) -> Seq<char> {
    "unknown operator: "@ + op + type_tag(v)
}

/// `unknown operator: <LEFT> <op> <RIGHT>`
pub open spec fn msg_unknown_infix(l: ValueModel, op: Seq<char>, r: ValueModel) -> Seq<char> {
    "unknown operator: "@ + type_tag(l) + " "@ + op + " "@ + type_tag(r)
}

/// `identifier not found: <name>`
pub open spec fn msg_identifier_not_found(name: Seq<char>) -> Seq<char> {
    "identifier not found: "@ + name
}

/// `not a function: <TYPE>`
pub open spec fn msg_not_a_function(v: ValueModel) -> Seq<char> {
    "not a function: "@ + type_tag(v)
}

/// ``argument to `len` not supported, got <TYPE>``
pub open spec fn msg_len_unsupported(v: ValueModel) -> Seq<char> {
    "argument to `len` not supported, got "@ + type_tag(v)
}

/// `wrong number of arguments. got=<n>, want=1`
pub open spec fn msg_wrong_arg_count(got: int) -> Seq<char> {
    "wrong number of arguments. got="@ + dec_digits(got) + ", want=1"@
}

/// The message of the error produced by a division by zero, which the
/// language does not define otherwise.
pub open spec fn msg_division_by_zero() -> Seq<char> {
    "division by zero"@
}

/// Whether two values are of the same kind — carry the same type tag.
pub open spec fn same_kind(l: ValueModel, r: ValueModel) -> bool {
    match (l, r) {
        (ValueModel::Int(_), ValueModel::Int(_)) => true,
        (ValueModel::Bool(_), ValueModel::Bool(_)) => true,
        (ValueModel::Str(_), ValueModel::Str(_)) => true,
        (ValueModel::Null, ValueModel::Null) => true,
        (ValueModel::Func { .. }, ValueModel::Func { .. }) => true,
        (ValueModel::Builtin(_), ValueModel::Builtin(_)) => true,
        (ValueModel::Ret(_), ValueModel::Ret(_)) => true,
        (ValueModel::Error(_), ValueModel::Error(_)) => true,
        _ => false,
    }
}

/// Structural equality as `==` and `!=` see it when neither the integer,
/// boolean nor string rule applies: the primitives compare by contents,
/// `null` equals `null`, built-ins compare by identity, and a function
/// value equals nothing.
pub open spec fn values_equal(l: ValueModel, r: ValueModel) -> bool {
    match (l, r) {
        (ValueModel::Int(a), ValueModel::Int(b)) => a == b,
        (ValueModel::Bool(a), ValueModel::Bool(b)) => a == b,
        (ValueModel::Str(a), ValueModel::Str(b)) => a == b,
        (ValueModel::Null, ValueModel::Null) => true,
        (ValueModel::Builtin(a), ValueModel::Builtin(b)) => a == b,
        _ => false,
    }
}

/// The value of `<op>right` for an already evaluated, non-error operand.
///
/// `!` negates truthiness and always yields a boolean; `-` negates an
/// integer, wrapping on the smallest one; everything else is an unknown
/// operator.
pub open spec fn eval_prefix_op(op: Seq<char>, v: ValueModel) -> ValueModel {
    if op == "!"@ {
        ValueModel::Bool(!truthiness(v))
    } else if op == "-"@ {
        match v {
            ValueModel::Int(n) => ValueModel::Int((0 as i64).wrapping_sub(n)),
            _ => ValueModel::Error(msg_unknown_prefix(op, v)),
        }
    } else {
        ValueModel::Error(msg_unknown_prefix(op, v))
    }
}

/// The value of `a <op> b` on two integers.  `+ - *` wrap on overflow;
/// `/` truncates toward zero, wraps on the one overflowing case, and
/// yields an error on a zero divisor; comparisons yield booleans.
pub open spec fn eval_int_infix(op: Seq<char>, a: i64, b: i64) -> ValueModel {
    if op == "+"@ {
        ValueModel::Int(a.wrapping_add(b))
    } else if op == "-"@ {
        ValueModel::Int(a.wrapping_sub(b))
    } else if op == "*"@ {
        ValueModel::Int(a.wrapping_mul(b))
    } else if op == "/"@ {
        if b == 0 {
            ValueModel::Error(msg_division_by_zero())
        } else {
            match a.checked_div(b) {
                Some(q) => ValueModel::Int(q),
                None => ValueModel::Int(i64::MIN),
            }
        }
    } else if op == "<"@ {
        ValueModel::Bool(a < b)
    } else if op == ">"@ {
        ValueModel::Bool(a > b)
    } else if op == "=="@ {
        ValueModel::Bool(a == b)
    } else if op == "!="@ {
        ValueModel::Bool(a != b)
    } else {
        ValueModel::Error(msg_unknown_infix(ValueModel::Int(a), op, ValueModel::Int(b)))
    }
}

/// The value of `left <op> right` for two already evaluated, non-error
/// operands.
///
/// Two integers follow the integer rules; two strings concatenate under
/// `+` and compare under `==` and `!=`; after that, `==` and `!=` compare
/// any two values structurally; operands of different types are a type
/// mismatch; anything left is an unknown operator.
pub open spec fn eval_infix_op(op: Seq<char>, l: ValueModel, r: ValueModel) -> ValueModel {
    match (l, r) {
        (ValueModel::Int(a), ValueModel::Int(b)) => eval_int_infix(op, a, b),
        (ValueModel::Str(a), ValueModel::Str(b)) => {
            if op == "+"@ {
                ValueModel::Str(a + b)
            } else if op == "=="@ {
                ValueModel::Bool(a == b)
            } else if op == "!="@ {
                ValueModel::Bool(a != b)
            } else {
                ValueModel::Error(msg_unknown_infix(l, op, r))
            }
        },
        _ => {
            if op == "=="@ {
                ValueModel::Bool(values_equal(l, r))
            } else if op == "!="@ {
                ValueModel::Bool(!values_equal(l, r))
            } else if !same_kind(l, r) {
                ValueModel::Error(msg_type_mismatch(l, op, r))
            } else {
                ValueModel::Error(msg_unknown_infix(l, op, r))
            }
        },
    }
}

/// The value of an identifier: the innermost binding seen from frame `f`,
/// else the built-in registry, else an unbound-identifier error.
pub open spec fn eval_ident(env: EnvModel, f: nat, name: Seq<char>) -> ValueModel {
    match lookup_from(env, f as int, name) {
        Some(v) => v,
        None => {
            if name == "len"@ {
                ValueModel::Builtin(BuiltinFn::Len)
            } else {
                ValueModel::Error(msg_identifier_not_found(name))
            }
        },
    }
}

/// The byte length of a string value, as the built-in `len` reports it:
/// the length of the UTF-8 encoding, as held in a machine word, capped at
/// the largest 64-bit integer.
pub open spec fn str_len_value(s: Seq<char>) -> ValueModel {
    let bytes = vstd::utf8::encode_utf8(s).len() as usize;
    if bytes <= i64::MAX {
        ValueModel::Int(bytes as i64)
    } else {
        ValueModel::Int(i64::MAX)
    }
}

/// The value of a built-in applied to already evaluated arguments.
/// `len` wants one argument and reports the byte length of a string.
pub open spec fn apply_builtin(b: BuiltinFn, args: Seq<ValueModel>) -> ValueModel {
    match b {
        BuiltinFn::Len => {
            if args.len() != 1 {
                ValueModel::Error(msg_wrong_arg_count(args.len() as int))
            } else {
                match args[0] {
                    ValueModel::Str(s) => str_len_value(s),
                    v => ValueModel::Error(msg_len_unsupported(v)),
                }
            }
        },
    }
}

/// The bindings of a fresh call frame: each parameter name bound to the
/// argument in its position.  Missing arguments stay unbound; extra
/// arguments are dropped.
pub open spec fn bound_params(params: Seq<Seq<char>>, args: Seq<ValueModel>) -> Seq<
    (Seq<char>, ValueModel),
> {
    Seq::new(
        if params.len() <= args.len() {
            params.len()
        } else {
            args.len()
        },
        |i: int| (params[i], args[i]),
    )
}

/// A `return` in flight gives up its payload; any other value is kept.
/// This happens at exactly two places: the top of a program and the end
/// of a call.
pub open spec fn unwrap_ret(v: ValueModel) -> ValueModel {
    match v {
        ValueModel::Ret(b) => *b,
        _ => v,
    }
}

/// The value of a whole program evaluated in frame `f`: the value of its
/// statements, with a `return` in flight unwrapped — at the top level a
/// `return` yields the program's value.
pub open spec fn eval_program_m(fuel: nat, prog: Seq<StmtModel>, env: EnvModel, f: nat) -> (
    ValueModel,
    EnvModel,
)
    decreases fuel,
{
    if fuel == 0 {
        (ValueModel::Error(budget_message()), env)
    } else {
        let (v, env2) = eval_stmts_m((fuel - 1) as nat, prog, 0, env, f);
        (unwrap_ret(v), env2)
    }
}

/// The value of the statements of a list from position `i` on: the value
/// of the last one, or `null` for an empty list.  An error or a `return`
/// in flight stops the list at once and is passed on unchanged.
pub open spec fn eval_stmts_m(
    fuel: nat,
    stmts: Seq<StmtModel>,
    i: int,
    env: EnvModel,
    f: nat,
) -> (ValueModel, EnvModel)
    decreases fuel,
{
    if fuel == 0 {
        (ValueModel::Error(budget_message()), env)
    } else if i < 0 || i >= stmts.len() {
        (ValueModel::Null, env)
    } else {
        let (v, env2) = eval_stmt_m((fuel - 1) as nat, stmts[i], env, f);
        if (v is Ret) || (v is Error) {
            (v, env2)
        } else if i + 1 == stmts.len() {
            (v, env2)
        } else {
            eval_stmts_m((fuel - 1) as nat, stmts, i + 1, env2, f)
        }
    }
}

/// The value of one statement evaluated in frame `f`.
///
/// `let` binds the value of its expression in the current frame and
/// yields `null`; `return` wraps the value of its expression in a
/// `return` in flight; an expression statement yields the value of its
/// expression.  An error from the expression is passed on unchanged.
pub open spec fn eval_stmt_m(fuel: nat, s: StmtModel, env: EnvModel, f: nat) -> (
    ValueModel,
    EnvModel,
)
    decreases fuel,
{
    if fuel == 0 {
        (ValueModel::Error(budget_message()), env)
    } else {
        match s {
            StmtModel::Let { name, value } => {
                let (v, env2) = eval_expr_m((fuel - 1) as nat, value, env, f);
                if v is Error {
                    (v, env2)
                } else {
                    (ValueModel::Null, env_set(env2, f as int, name, v))
                }
            },
            StmtModel::Ret { value } => {
                let (v, env2) = eval_expr_m((fuel - 1) as nat, value, env, f);
                if v is Error {
                    (v, env2)
                } else {
                    (ValueModel::Ret(Box::new(v)), env2)
                }
            },
            StmtModel::Expr { value } => eval_expr_m((fuel - 1) as nat, value, env, f),
        }
    }
}

/// The value of a block evaluated in frame `f`: the value of its
/// statements.  A `return` in flight passes through a block unwrapped:
/// that is what lets `return` escape nesting of any depth.
pub open spec fn eval_block_m(fuel: nat, b: BlockModel, env: EnvModel, f: nat) -> (
    ValueModel,
    EnvModel,
)
    decreases fuel,
{
    if fuel == 0 {
        (ValueModel::Error(budget_message()), env)
    } else {
        eval_stmts_m((fuel - 1) as nat, b, 0, env, f)
    }
}

/// The value of one expression evaluated in frame `f`.
pub open spec fn eval_expr_m(fuel: nat, e: ExprModel, env: EnvModel, f: nat) -> (
    ValueModel,
    EnvModel,
)
    decreases fuel,
{
    if fuel == 0 {
        (ValueModel::Error(budget_message()), env)
    } else {
        match e {
            ExprModel::Int(n) => (ValueModel::Int(n), env),
            ExprModel::Bool(b) => (ValueModel::Bool(b), env),
            ExprModel::Str(s) => (ValueModel::Str(s), env),
            ExprModel::Ident(name) => (eval_ident(env, f, name), env),
            ExprModel::Prefix { op, right } => {
                let (v, env2) = eval_expr_m((fuel - 1) as nat, *right, env, f);
                if v is Error {
                    (v, env2)
                } else {
                    (eval_prefix_op(op, v), env2)
                }
            },
            ExprModel::Infix { op, left, right } => {
                let (l, env2) = eval_expr_m((fuel - 1) as nat, *left, env, f);
                if l is Error {
                    (l, env2)
                } else {
                    let (r, env3) = eval_expr_m((fuel - 1) as nat, *right, env2, f);
                    if r is Error {
                        (r, env3)
                    } else {
                        (eval_infix_op(op, l, r), env3)
                    }
                }
            },
            ExprModel::If { cond, cons, alt } => {
                let (c, env2) = eval_expr_m((fuel - 1) as nat, *cond, env, f);
                if c is Error {
                    (c, env2)
                } else if truthiness(c) {
                    match cons {
                        Some(b) => eval_block_m((fuel - 1) as nat, b, env2, f),
                        None => (ValueModel::Null, env2),
                    }
                } else {
                    match alt {
                        Some(b) => eval_block_m((fuel - 1) as nat, b, env2, f),
                        None => (ValueModel::Null, env2),
                    }
                }
            },
            ExprModel::Func { params, body } => (
                ValueModel::Func { params, body, env: f },
                env,
            ),
            ExprModel::Call { func, args } => {
                let (fv, env2) = eval_expr_m((fuel - 1) as nat, *func, env, f);
                if fv is Error {
                    (fv, env2)
                } else {
                    let (avs, env3) = eval_exprs_m((fuel - 1) as nat, args, 0, env2, f);
                    match avs {
                        Result::Err(e) => (e, env3),
                        Result::Ok(vals) => apply_m((fuel - 1) as nat, fv, vals, env3),
                    }
                }
            },
        }
    }
}

/// The values of the expressions of a list from position `i` on, left to
/// right.  The first error abandons the rest and is the result.
pub open spec fn eval_exprs_m(
    fuel: nat,
    args: Seq<ExprModel>,
    i: int,
    env: EnvModel,
    f: nat,
) -> (Result<Seq<ValueModel>, ValueModel>, EnvModel)
    decreases fuel,
{
    if fuel == 0 {
        (Result::Err(ValueModel::Error(budget_message())), env)
    } else if i < 0 || i >= args.len() {
        (Result::Ok(Seq::empty()), env)
    } else {
        let (v, env2) = eval_expr_m((fuel - 1) as nat, args[i], env, f);
        if v is Error {
            (Result::Err(v), env2)
        } else {
            let (rest, env3) = eval_exprs_m((fuel - 1) as nat, args, i + 1, env2, f);
            match rest {
                Result::Ok(vs) => (Result::Ok(seq![v] + vs), env3),
                Result::Err(e) => (Result::Err(e), env3),
            }
        }
    }
}

/// The value of a call whose callee and arguments are already evaluated.
///
/// A function value gets a fresh frame enclosed in the frame it captured,
/// with its parameters bound to the arguments in position; its body is
/// evaluated there, and a `return` in flight is unwrapped — the second
/// and last unwrapping site.  A built-in computes directly.  Anything
/// else is not a function.
pub open spec fn apply_m(fuel: nat, fv: ValueModel, args: Seq<ValueModel>, env: EnvModel) -> (
    ValueModel,
    EnvModel,
)
    decreases fuel,
{
    if fuel == 0 {
        (ValueModel::Error(budget_message()), env)
    } else {
        match fv {
            ValueModel::Func { params, body, env: captured } => {
                let newf = env.len();
                let env2 = env.push(
                    FrameModel { parent: Some(captured), binds: bound_params(params, args) },
                );
                let (v, env3) = eval_block_m((fuel - 1) as nat, body, env2, newf);
                (unwrap_ret(v), env3)
            },
            ValueModel::Builtin(b) => (apply_builtin(b, args), env),
            _ => (ValueModel::Error(msg_not_a_function(fv)), env),
        }
    }
}

} // verus!
