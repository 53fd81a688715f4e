//! User-visible text: the printed form of syntax nodes and the inspect
//! form of runtime values.

use vstd::prelude::*;

use crate::ast::{BlockStatement, Expression, Statement};
use crate::model::{BlockModel, ExprModel, StmtModel, ValueModel};
use crate::object::Object;
use crate::semantics::{dec_digits, digit_char, int_digits};

verus! {

/// The printed form of an expression, fully parenthesized as the parser
/// saw it.
pub open spec fn expr_text(e: ExprModel) -> Seq<char>
    decreases e,
{
    match e {
        ExprModel::Int(n) => int_digits(n as int),
        ExprModel::Bool(b) => if b {
            "true"@
        } else {
            "false"@
        },
        ExprModel::Str(s) => s,
        ExprModel::Ident(n) => n,
        ExprModel::Prefix { op, right } => "("@ + op + expr_text(*right) + ")"@,
        ExprModel::Infix { op, left, right } => "("@ + expr_text(*left) + " "@ + op + " "@
            + expr_text(*right) + ")"@,
        ExprModel::If { cond, cons, alt } => "if "@ + expr_text(*cond) + " "@ + (match cons {
            Some(b) => block_text(b),
            None => Seq::empty(),
        }) + (match alt {
            Some(b) => "else "@ + block_text(b),
            None => Seq::empty(),
        }),
        ExprModel::Func { params, body } => "fn("@ + params_text(params) + ") { "@ + block_text(
            body,
        ) + " }"@,
        ExprModel::Call { func, args } => expr_text(*func) + "("@ + args_text(args) + ")"@,
    }
}

/// Parameter names joined by a comma and a space.
pub open spec fn params_text(ps: Seq<Seq<char>>) -> Seq<char>
    decreases ps.len(),
{
    if ps.len() == 0 {
        Seq::empty()
    } else if ps.len() == 1 {
        ps[0]
    } else {
        ps[0] + ", "@ + params_text(ps.drop_first())
    }
}

/// Argument texts joined by a comma and a space.
pub open spec fn args_text(es: Seq<ExprModel>) -> Seq<char>
    decreases es,
{
    if es.len() == 0 {
        Seq::empty()
    } else if es.len() == 1 {
        expr_text(es[0])
    } else {
        expr_text(es[0]) + ", "@ + args_text(es.drop_first())
    }
}

/// The printed form of a statement.
pub open spec fn stmt_text(s: StmtModel) -> Seq<char>
    decreases s,
{
    match s {
        StmtModel::Let { name, value } => "let "@ + name + " = "@ + expr_text(value) + ";"@,
        StmtModel::Ret { value } => "return "@ + expr_text(value) + ";"@,
        StmtModel::Expr { value } => expr_text(value) + ";"@,
    }
}

/// The printed form of a block: its statements, one after the other.
pub open spec fn block_text(b: BlockModel) -> Seq<char>
    decreases b,
{
    if b.len() == 0 {
        Seq::empty()
    } else {
        stmt_text(b[0]) + block_text(b.drop_first())
    }
}

/// The inspect form of a value: what the host shows the user.
///
/// Integers and booleans print as their literal, strings as their raw
/// contents, `null` as `null`, functions as `fn(<params>) { <body> }`.
/// A `return` in flight shows its payload; an error shows its message
/// after `ERROR: `.
pub open spec fn inspect_text(v: ValueModel) -> Seq<char>
    decreases v,
{
    match v {
        ValueModel::Int(n) => int_digits(n as int),
        ValueModel::Bool(b) => if b {
            "true"@
        } else {
            "false"@
        },
        ValueModel::Str(s) => s,
        ValueModel::Null => "null"@,
        ValueModel::Func { params, body, env } => "fn("@ + params_text(params) + ") { "@
            + block_text(body) + " }"@,
        ValueModel::Builtin(_) => "builtin function"@,
        ValueModel::Ret(b) => inspect_text(*b),
        ValueModel::Error(m) => "ERROR: "@ + m,
    }
}

/// The decimal text of a nonnegative number.
pub fn dec_to_string(n: u64) -> (s: String)
    ensures
        s@ == dec_digits(n as int),
    decreases n,
{
    let d = (if n < 10 {
        n
    } else {
        n % 10
    });
    let ds = (if d == 0 {
        "0"
    } else if d == 1 {
        "1"
    } else if d == 2 {
        "2"
    } else if d == 3 {
        "3"
    } else if d == 4 {
        "4"
    } else if d == 5 {
        "5"
    } else if d == 6 {
        "6"
    } else if d == 7 {
        "7"
    } else if d == 8 {
        "8"
    } else {
        "9"
    });
    proof {
        reveal_strlit("0");
        reveal_strlit("1");
        reveal_strlit("2");
        reveal_strlit("3");
        reveal_strlit("4");
        reveal_strlit("5");
        reveal_strlit("6");
        reveal_strlit("7");
        reveal_strlit("8");
        reveal_strlit("9");
        assert("0"@ =~= seq!['0']);
        assert("1"@ =~= seq!['1']);
        assert("2"@ =~= seq!['2']);
        assert("3"@ =~= seq!['3']);
        assert("4"@ =~= seq!['4']);
        assert("5"@ =~= seq!['5']);
        assert("6"@ =~= seq!['6']);
        assert("7"@ =~= seq!['7']);
        assert("8"@ =~= seq!['8']);
        assert("9"@ =~= seq!['9']);
        assert(ds@ =~= seq![digit_char(d as int)]);
    }
    if n < 10 {
        String::from_str(ds)
    } else {
        let mut s = dec_to_string(n / 10);
        s.append(ds);
        s
    }
}

/// The decimal text of a 64-bit signed number.
pub fn int_to_string(n: i64) -> (s: String)
    ensures
        s@ == int_digits(n as int),
{
    if n >= 0 {
        dec_to_string(n as u64)
    } else {
        let magnitude: u64 = (if n == i64::MIN {
            9223372036854775808u64
        } else {
            (-n) as u64
        });
        let mut s = String::from_str("-");
        let digits = dec_to_string(magnitude);
        s.append(digits.as_str());
        proof {
            reveal_strlit("-");
            assert("-"@ =~= seq!['-']);
            assert(s@ =~= int_digits(n as int));
        }
        s
    }
}

/// The names of a list of owned strings from position `i` on, joined by
/// a comma and a space.
fn join_strings(ps: &Vec<String>, i: usize) -> (s: String)
    requires
        i <= ps@.len(),
    ensures
        s@ == params_text(crate::object::strings_model(ps@).skip(i as int)),
    decreases ps@.len() - i,
{
    let ghost m = crate::object::strings_model(ps@);
    if i >= ps.len() {
        proof {
            assert(m.skip(i as int) =~= Seq::<Seq<char>>::empty());
        }
        String::new()
    } else if i + 1 == ps.len() {
        proof {
            assert(m.skip(i as int).len() == 1);
            assert(m.skip(i as int)[0] == ps@[i as int]@);
        }
        ps[i].clone()
    } else {
        let mut s = ps[i].clone();
        s.append(", ");
        let rest = join_strings(ps, i + 1);
        s.append(rest.as_str());
        proof {
            assert(m.skip(i as int)[0] == ps@[i as int]@);
            assert(m.skip(i as int).drop_first() =~= m.skip(i as int + 1));
            assert(m.skip(i as int).len() == ps@.len() - i);
        }
        s
    }
}

/// The names of a parameter list from position `i` on, joined by a comma
/// and a space.
fn join_identifiers(ps: &Vec<crate::ast::Identifier>, i: usize) -> (s: String)
    requires
        i <= ps@.len(),
    ensures
        s@ == params_text(crate::model::params_model(ps@).skip(i as int)),
    decreases ps@.len() - i,
{
    let ghost m = crate::model::params_model(ps@);
    if i >= ps.len() {
        proof {
            assert(m.skip(i as int) =~= Seq::<Seq<char>>::empty());
        }
        String::new()
    } else if i + 1 == ps.len() {
        proof {
            assert(m.skip(i as int).len() == 1);
            assert(m.skip(i as int)[0] == ps@[i as int].value@);
        }
        ps[i].value.clone()
    } else {
        let mut s = ps[i].value.clone();
        s.append(", ");
        let rest = join_identifiers(ps, i + 1);
        s.append(rest.as_str());
        proof {
            assert(m.skip(i as int)[0] == ps@[i as int].value@);
            assert(m.skip(i as int).drop_first() =~= m.skip(i as int + 1));
            assert(m.skip(i as int).len() == ps@.len() - i);
        }
        s
    }
}

/// The texts of the arguments of a call from position `i` on, joined by
/// a comma and a space.
fn join_expressions(es: &Vec<Expression>, i: usize) -> (s: String)
    requires
        i <= es@.len(),
    ensures
        s@ == args_text(crate::model::exprs_model_from(es@, 0).skip(i as int)),
    decreases es, es@.len() - i,
{
    let ghost m = crate::model::exprs_model_from(es@, 0);
    proof {
        crate::model::lemma_exprs_model_from(es@, 0);
    }
    if i >= es.len() {
        proof {
            assert(m.skip(i as int) =~= Seq::<ExprModel>::empty());
        }
        String::new()
    } else if i + 1 == es.len() {
        let s = expression_to_string(&es[i]);
        proof {
            assert(m.skip(i as int).len() == 1);
            assert(m.skip(i as int)[0] == es@[i as int]@);
        }
        s
    } else {
        let mut s = expression_to_string(&es[i]);
        s.append(", ");
        let rest = join_expressions(es, i + 1);
        s.append(rest.as_str());
        proof {
            assert(m.skip(i as int)[0] == es@[i as int]@);
            assert(m.skip(i as int).drop_first() =~= m.skip(i as int + 1));
            assert(m.skip(i as int).len() == es@.len() - i);
        }
        s
    }
}

/// The texts of the statements of a list from position `i` on, one after
/// the other.
fn join_statements(ss: &Vec<Statement>, i: usize) -> (s: String)
    requires
        i <= ss@.len(),
    ensures
        s@ == block_text(crate::model::stmts_model_from(ss@, 0).skip(i as int)),
    decreases ss, ss@.len() - i,
{
    let ghost m = crate::model::stmts_model_from(ss@, 0);
    proof {
        crate::model::lemma_stmts_model_from(ss@, 0);
    }
    if i >= ss.len() {
        proof {
            assert(m.skip(i as int) =~= Seq::<StmtModel>::empty());
        }
        String::new()
    } else {
        let mut s = statement_to_string(&ss[i]);
        let rest = join_statements(ss, i + 1);
        s.append(rest.as_str());
        proof {
            assert(m.skip(i as int)[0] == ss@[i as int]@);
            assert(m.skip(i as int).drop_first() =~= m.skip(i as int + 1));
            assert(m.skip(i as int).len() == ss@.len() - i);
        }
        s
    }
}

/// The printed form of an expression, fully parenthesized.
#[verifier::rlimit(80)]
pub fn expression_to_string(e: &Expression) -> (s: String)
    ensures
        s@ == expr_text(e@),
    decreases e,
{
    match e {
        Expression::Integer(n) => int_to_string(n.value),
        Expression::Boolean(b) => {
            if b.value {
                String::from_str("true")
            } else {
                String::from_str("false")
            }
        },
        Expression::Str(st) => st.value.clone(),
        Expression::Ident(i) => i.value.clone(),
        Expression::Prefix(p) => {
            let mut s = String::from_str("(");
            s.append(p.operator.as_str());
            let inner = expression_to_string(&p.right);
            s.append(inner.as_str());
            s.append(")");
            proof {
                assert(s@ == expr_text(e@));
            }
            s
        },
        Expression::Infix(ix) => {
            let mut s = String::from_str("(");
            let left = expression_to_string(&ix.left);
            s.append(left.as_str());
            s.append(" ");
            s.append(ix.operator.as_str());
            s.append(" ");
            let right = expression_to_string(&ix.right);
            s.append(right.as_str());
            s.append(")");
            proof {
                assert(s@ == expr_text(e@));
            }
            s
        },
        Expression::If(ie) => {
            proof {
                assert(e@ == (ExprModel::If {
                    cond: Box::new(crate::model::expr_model(ie.spec_condition())),
                    cons: crate::model::opt_block_model(ie.spec_consequence()),
                    alt: crate::model::opt_block_model(ie.spec_alternative()),
                }));
            }
            let ghost ct = expr_text(crate::model::expr_model(ie.spec_condition()));
            let mut s = String::from_str("if ");
            let cond = expression_to_string(ie.condition());
            s.append(cond.as_str());
            s.append(" ");
            proof {
                assert(s@ == "if "@ + ct + " "@);
            }
            let ghost cons_part = (match crate::model::opt_block_model(ie.spec_consequence()) {
                Some(b) => block_text(b),
                None => Seq::<char>::empty(),
            });
            match ie.consequence() {
                Some(b) => {
                    let t = block_to_string(b);
                    s.append(t.as_str());
                },
                None => {},
            }
            proof {
                assert(s@ =~= "if "@ + ct + " "@ + cons_part);
            }
            let ghost alt_part = (match crate::model::opt_block_model(ie.spec_alternative()) {
                Some(b) => "else "@ + block_text(b),
                None => Seq::<char>::empty(),
            });
            match ie.alternative() {
                Some(b) => {
                    s.append("else ");
                    let t = block_to_string(b);
                    s.append(t.as_str());
                },
                None => {},
            }
            proof {
                assert(s@ =~= "if "@ + ct + " "@ + cons_part + alt_part);
                assert(s@ =~= expr_text(e@));
            }
            s
        },
        Expression::Function(fl) => {
            let mut s = String::from_str("fn(");
            let ps = join_identifiers(&fl.parameters, 0);
            proof {
                assert(crate::model::params_model(fl.parameters@).skip(0) =~= crate::model::params_model(
                    fl.parameters@,
                ));
            }
            s.append(ps.as_str());
            s.append(") { ");
            let body = block_to_string(&fl.body);
            s.append(body.as_str());
            s.append(" }");
            proof {
                assert(s@ == expr_text(e@));
            }
            s
        },
        Expression::Call(c) => {
            let mut s = expression_to_string(&c.function);
            s.append("(");
            let args = join_expressions(&c.arguments, 0);
            proof {
                assert(crate::model::exprs_model_from(c.arguments@, 0).skip(0)
                    =~= crate::model::exprs_model_from(c.arguments@, 0));
            }
            s.append(args.as_str());
            s.append(")");
            proof {
                assert(s@ == expr_text(e@));
            }
            s
        },
    }
}

/// The printed form of a statement.
pub fn statement_to_string(st: &Statement) -> (s: String)
    ensures
        s@ == stmt_text(st@),
    decreases st,
{
    match st {
        Statement::Let(l) => {
            let mut s = String::from_str("let ");
            s.append(l.name.value.as_str());
            s.append(" = ");
            let v = expression_to_string(&l.value);
            s.append(v.as_str());
            s.append(";");
            s
        },
        Statement::Return(r) => {
            let mut s = String::from_str("return ");
            let v = expression_to_string(&r.return_value);
            s.append(v.as_str());
            s.append(";");
            s
        },
        Statement::Expression(es) => {
            let mut s = expression_to_string(&es.expression);
            s.append(";");
            s
        },
    }
}

/// The printed form of a block: its statements, one after the other.
pub fn block_to_string(b: &BlockStatement) -> (s: String)
    ensures
        s@ == block_text(b@),
    decreases b,
{
    let s = join_statements(&b.statements, 0);
    proof {
        assert(crate::model::stmts_model_from(b.statements@, 0).skip(0)
            =~= crate::model::stmts_model_from(b.statements@, 0));
    }
    s
}

impl Object {
    /// The uppercase type tag of this value, as diagnostic messages show
    /// it.
    pub fn type_tag_string(&self) -> (r: &'static str)
        ensures
            r@ == crate::semantics::type_tag(self@),
    {
        match self {
            Object::Integer(_) => "INTEGER",
            Object::Boolean(_) => "BOOLEAN",
            Object::Str(_) => "STRING",
            Object::Null => "NULL",
            Object::Function(_) => "FUNCTION",
            Object::Builtin(_) => "BUILTIN",
            Object::ReturnValue(_) => "RETURN_VALUE",
            Object::Error(_) => "ERROR",
        }
    }

    /// The inspect form of this value: what the host shows the user.
    pub fn inspect(&self) -> (s: String)
        ensures
            s@ == inspect_text(self@),
        decreases self,
    {
        match self {
            Object::Integer(i) => int_to_string(i.value),
            Object::Boolean(b) => {
                if b.value {
                    String::from_str("true")
                } else {
                    String::from_str("false")
                }
            },
            Object::Str(st) => st.value.clone(),
            Object::Null => String::from_str("null"),
            Object::Function(f) => {
                let mut s = String::from_str("fn(");
                let ps = join_strings(&f.parameters, 0);
                proof {
                    assert(crate::object::strings_model(f.parameters@).skip(0)
                        =~= crate::object::strings_model(f.parameters@));
                }
                s.append(ps.as_str());
                s.append(") { ");
                let body = block_to_string(&f.body);
                s.append(body.as_str());
                s.append(" }");
                s
            },
            Object::Builtin(_) => String::from_str("builtin function"),
            Object::ReturnValue(v) => (&**v).inspect(),
            Object::Error(m) => {
                let mut s = String::from_str("ERROR: ");
                s.append(m.as_str());
                s
            },
        }
    }
}

} // verus!
