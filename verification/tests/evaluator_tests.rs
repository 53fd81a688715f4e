//! The evaluator exercised end to end: programs built as syntax trees,
//! evaluated in a fresh environment, checked against the values the
//! language definition promises.

use monkey_eval::ast::{
    BlockStatement, BooleanLiteral, CallExpression, Expression, ExpressionStatement,
    FunctionLiteral, Identifier, IfExpression, InfixExpression, IntegerLiteral, LetStatement,
    PrefixExpression, Program, ReturnStatement, Statement, StringLiteral,
};
use monkey_eval::environment::Environment;
use monkey_eval::evaluator::eval;
use monkey_eval::object::Object;
use monkey_eval::render::block_to_string;
use monkey_eval::token::Token;

fn tok(s: &str) -> Token {
    Token::new(s.to_string())
}

fn int_lit(n: i64) -> Expression {
    Expression::Integer(IntegerLiteral { token: tok(&n.to_string()), value: n })
}

fn boolean(b: bool) -> Expression {
    Expression::Boolean(BooleanLiteral { token: tok(if b { "true" } else { "false" }), value: b })
}

fn string_lit(s: &str) -> Expression {
    Expression::Str(StringLiteral { token: tok(s), value: s.to_string() })
}

fn ident(name: &str) -> Expression {
    Expression::Ident(Identifier { token: tok(name), value: name.to_string() })
}

fn prefix(op: &str, right: Expression) -> Expression {
    Expression::Prefix(PrefixExpression {
        token: tok(op),
        operator: op.to_string(),
        right: Box::new(right),
    })
}

fn infix(left: Expression, op: &str, right: Expression) -> Expression {
    let mut e = InfixExpression::new(tok(op), left, op.to_string());
    e.right = Box::new(right);
    Expression::Infix(e)
}

fn expr_stmt(e: Expression) -> Statement {
    Statement::Expression(ExpressionStatement { token: tok(""), expression: e })
}

fn let_stmt(name: &str, value: Expression) -> Statement {
    Statement::Let(LetStatement {
        token: tok("let"),
        name: Identifier { token: tok(name), value: name.to_string() },
        value,
    })
}

fn ret_stmt(value: Expression) -> Statement {
    let mut r = ReturnStatement::new(tok("return"));
    r.return_value = Box::new(value);
    Statement::Return(r)
}

fn block(stmts: Vec<Statement>) -> BlockStatement {
    BlockStatement { token: tok("{"), statements: stmts }
}

fn if_expr(cond: Expression, cons: BlockStatement, alt: Option<BlockStatement>) -> Expression {
    let mut e = IfExpression::new(tok("if"));
    *e.condition_mut() = Box::new(cond);
    *e.consequence_mut() = Some(cons);
    *e.alternative_mut() = alt;
    Expression::If(e)
}

fn func(params: Vec<&str>, body: BlockStatement) -> Expression {
    Expression::Function(FunctionLiteral {
        token: tok("fn"),
        parameters: params
            .into_iter()
            .map(|p| Identifier { token: tok(p), value: p.to_string() })
            .collect(),
        body,
    })
}

fn call(function: Expression, args: Vec<Expression>) -> Expression {
    Expression::Call(CallExpression {
        token: tok("("),
        function: Box::new(function),
        arguments: args,
    })
}

fn program(stmts: Vec<Statement>) -> Program {
    Program { statements: stmts }
}

fn test_eval(p: Program) -> Object {
    let mut env = Environment::new();
    eval(&p, &mut env)
}

fn test_integer_object(obj: Object, expected: i64) -> bool {
    match obj {
        Object::Integer(value) => {
            assert_eq!(value.value, expected, "object has wrong value");
            true
        }
        other => panic!("object is not Integer. got = {:?}", other),
    }
}

fn test_boolean_object(obj: Object, expected: bool) -> bool {
    match obj {
        Object::Boolean(value) => {
            assert_eq!(value.value, expected, "object has wrong value");
            true
        }
        other => panic!("object is not Boolean. got = {:?}", other),
    }
}

fn test_null_object(obj: Object) -> bool {
    assert_eq!(obj.inspect(), "null");
    matches!(obj, Object::Null)
}

fn test_error_object(obj: Object, expected_message: &str) {
    match obj {
        Object::Error(message) => assert_eq!(message, expected_message, "wrong error message"),
        other => panic!("no error object returned. got = {:?}", other),
    }
}

#[test]
fn test_test_eval_integer_expression() {
    let tests: Vec<(Program, i64)> = vec![
        (program(vec![expr_stmt(int_lit(5))]), 5),
        (program(vec![expr_stmt(int_lit(10))]), 10),
        (program(vec![expr_stmt(prefix("-", int_lit(5)))]), -5),
        (program(vec![expr_stmt(prefix("-", int_lit(10)))]), -10),
        // 5 + 5 + 5 + 5 - 10
        (
            program(vec![expr_stmt(infix(
                infix(infix(infix(int_lit(5), "+", int_lit(5)), "+", int_lit(5)), "+", int_lit(5)),
                "-",
                int_lit(10),
            ))]),
            10,
        ),
        // 2 * 2 * 2 * 2 * 2
        (
            program(vec![expr_stmt(infix(
                infix(infix(infix(int_lit(2), "*", int_lit(2)), "*", int_lit(2)), "*", int_lit(2)),
                "*",
                int_lit(2),
            ))]),
            32,
        ),
        // -50 + 100 + -50
        (
            program(vec![expr_stmt(infix(
                infix(prefix("-", int_lit(50)), "+", int_lit(100)),
                "+",
                prefix("-", int_lit(50)),
            ))]),
            0,
        ),
        // 5 * 2 + 10
        (program(vec![expr_stmt(infix(infix(int_lit(5), "*", int_lit(2)), "+", int_lit(10)))]), 20),
        // 5 + 2 * 10
        (program(vec![expr_stmt(infix(int_lit(5), "+", infix(int_lit(2), "*", int_lit(10))))]), 25),
        // 20 + 2 * -10
        (
            program(vec![expr_stmt(infix(
                int_lit(20),
                "+",
                infix(int_lit(2), "*", prefix("-", int_lit(10))),
            ))]),
            0,
        ),
        // 50 / 2 * 2 + 10
        (
            program(vec![expr_stmt(infix(
                infix(infix(int_lit(50), "/", int_lit(2)), "*", int_lit(2)),
                "+",
                int_lit(10),
            ))]),
            60,
        ),
        // 2 * (5 + 10)
        (program(vec![expr_stmt(infix(int_lit(2), "*", infix(int_lit(5), "+", int_lit(10))))]), 30),
        // 3 * 3 * 3 + 10
        (
            program(vec![expr_stmt(infix(
                infix(infix(int_lit(3), "*", int_lit(3)), "*", int_lit(3)),
                "+",
                int_lit(10),
            ))]),
            37,
        ),
        // 3 * (3 * 3) + 10
        (
            program(vec![expr_stmt(infix(
                infix(int_lit(3), "*", infix(int_lit(3), "*", int_lit(3))),
                "+",
                int_lit(10),
            ))]),
            37,
        ),
        // (5 + 10 * 2 + 15 / 3) * 2 + -10
        (
            program(vec![expr_stmt(infix(
                infix(
                    infix(
                        infix(int_lit(5), "+", infix(int_lit(10), "*", int_lit(2))),
                        "+",
                        infix(int_lit(15), "/", int_lit(3)),
                    ),
                    "*",
                    int_lit(2),
                ),
                "+",
                prefix("-", int_lit(10)),
            ))]),
            50,
        ),
    ];

    for (p, expected) in tests {
        let evaluated = test_eval(p);
        assert!(test_integer_object(evaluated, expected));
    }
}

#[test]
fn test_test_eval_boolean_expression() {
    let tests: Vec<(Program, bool)> = vec![
        (program(vec![expr_stmt(boolean(true))]), true),
        (program(vec![expr_stmt(boolean(false))]), false),
        (program(vec![expr_stmt(infix(int_lit(1), "<", int_lit(2)))]), true),
        (program(vec![expr_stmt(infix(int_lit(1), ">", int_lit(2)))]), false),
        (program(vec![expr_stmt(infix(int_lit(1), "<", int_lit(1)))]), false),
        (program(vec![expr_stmt(infix(int_lit(1), ">", int_lit(1)))]), false),
        (program(vec![expr_stmt(infix(int_lit(1), "==", int_lit(1)))]), true),
        (program(vec![expr_stmt(infix(int_lit(1), "!=", int_lit(1)))]), false),
        (program(vec![expr_stmt(infix(int_lit(1), "==", int_lit(2)))]), false),
        (program(vec![expr_stmt(infix(int_lit(1), "!=", int_lit(2)))]), true),
        (program(vec![expr_stmt(infix(boolean(true), "==", boolean(true)))]), true),
        (program(vec![expr_stmt(infix(boolean(false), "==", boolean(false)))]), true),
        (program(vec![expr_stmt(infix(boolean(true), "==", boolean(false)))]), false),
        (program(vec![expr_stmt(infix(boolean(true), "!=", boolean(false)))]), true),
        (program(vec![expr_stmt(infix(boolean(false), "!=", boolean(true)))]), true),
        (
            program(vec![expr_stmt(infix(infix(int_lit(1), "<", int_lit(2)), "==", boolean(true)))]),
            true,
        ),
        (
            program(vec![expr_stmt(infix(infix(int_lit(1), "<", int_lit(2)), "==", boolean(false)))]),
            false,
        ),
        (
            program(vec![expr_stmt(infix(infix(int_lit(1), ">", int_lit(2)), "==", boolean(true)))]),
            false,
        ),
        (
            program(vec![expr_stmt(infix(infix(int_lit(1), ">", int_lit(2)), "==", boolean(false)))]),
            true,
        ),
    ];

    for (p, expected) in tests {
        let evaluated = test_eval(p);
        assert!(test_boolean_object(evaluated, expected));
    }
}

#[test]
fn test_test_bang_operator() {
    let tests: Vec<(Program, bool)> = vec![
        (program(vec![expr_stmt(prefix("!", boolean(true)))]), false),
        (program(vec![expr_stmt(prefix("!", boolean(false)))]), true),
        (program(vec![expr_stmt(prefix("!", int_lit(5)))]), false),
        (program(vec![expr_stmt(prefix("!", prefix("!", boolean(true))))]), true),
        (program(vec![expr_stmt(prefix("!", prefix("!", boolean(false))))]), false),
        (program(vec![expr_stmt(prefix("!", prefix("!", int_lit(5))))]), true),
    ];

    for (p, expected) in tests {
        let evaluated = test_eval(p);
        assert!(test_boolean_object(evaluated, expected));
    }
}

enum Expected {
    Int(i64),
    Nothing,
}

#[test]
fn test_test_if_else_expressions() {
    let tests: Vec<(Program, Expected)> = vec![
        // if (true) { 10 }
        (
            program(vec![expr_stmt(if_expr(
                boolean(true),
                block(vec![expr_stmt(int_lit(10))]),
                None,
            ))]),
            Expected::Int(10),
        ),
        // if (false) { 10 }
        (
            program(vec![expr_stmt(if_expr(
                boolean(false),
                block(vec![expr_stmt(int_lit(10))]),
                None,
            ))]),
            Expected::Nothing,
        ),
        // if (1) { 10 }
        (
            program(vec![expr_stmt(if_expr(int_lit(1), block(vec![expr_stmt(int_lit(10))]), None))]),
            Expected::Int(10),
        ),
        // if (1 < 2) { 10 }
        (
            program(vec![expr_stmt(if_expr(
                infix(int_lit(1), "<", int_lit(2)),
                block(vec![expr_stmt(int_lit(10))]),
                None,
            ))]),
            Expected::Int(10),
        ),
        // if (1 > 2) { 10 }
        (
            program(vec![expr_stmt(if_expr(
                infix(int_lit(1), ">", int_lit(2)),
                block(vec![expr_stmt(int_lit(10))]),
                None,
            ))]),
            Expected::Nothing,
        ),
        // if (1 > 2) { 10 } else { 20 }
        (
            program(vec![expr_stmt(if_expr(
                infix(int_lit(1), ">", int_lit(2)),
                block(vec![expr_stmt(int_lit(10))]),
                Some(block(vec![expr_stmt(int_lit(20))])),
            ))]),
            Expected::Int(20),
        ),
        // if (1 < 2) { 10 } else { 20 }
        (
            program(vec![expr_stmt(if_expr(
                infix(int_lit(1), "<", int_lit(2)),
                block(vec![expr_stmt(int_lit(10))]),
                Some(block(vec![expr_stmt(int_lit(20))])),
            ))]),
            Expected::Int(10),
        ),
    ];

    for (p, expected) in tests {
        let evaluated = test_eval(p);
        match expected {
            Expected::Int(n) => {
                assert!(test_integer_object(evaluated, n));
            }
            Expected::Nothing => {
                assert!(test_null_object(evaluated));
            }
        }
    }
}

#[test]
fn test_test_return_statements() {
    // if (10 > 1) { if (10 > 1) { return 10; } return 1; }
    let nested = program(vec![expr_stmt(if_expr(
        infix(int_lit(10), ">", int_lit(1)),
        block(vec![
            expr_stmt(if_expr(
                infix(int_lit(10), ">", int_lit(1)),
                block(vec![ret_stmt(int_lit(10))]),
                None,
            )),
            ret_stmt(int_lit(1)),
        ]),
        None,
    ))]);

    let tests: Vec<(Program, i64)> = vec![
        (program(vec![ret_stmt(int_lit(10))]), 10),
        (program(vec![ret_stmt(int_lit(10)), expr_stmt(int_lit(9))]), 10),
        (program(vec![ret_stmt(infix(int_lit(2), "*", int_lit(5))), expr_stmt(int_lit(9))]), 10),
        (
            program(vec![
                expr_stmt(int_lit(9)),
                ret_stmt(infix(int_lit(2), "*", int_lit(5))),
                expr_stmt(int_lit(9)),
            ]),
            10,
        ),
        (nested, 10),
    ];

    for (p, expected) in tests {
        let evaluated = test_eval(p);
        assert!(test_integer_object(evaluated, expected));
    }
}

#[test]
fn test_test_error_handling() {
    let tests: Vec<(Program, &str)> = vec![
        // 5 + true;
        (
            program(vec![expr_stmt(infix(int_lit(5), "+", boolean(true)))]),
            "type mismatch: INTEGER + BOOLEAN",
        ),
        // 5 + true; 5;
        (
            program(vec![expr_stmt(infix(int_lit(5), "+", boolean(true))), expr_stmt(int_lit(5))]),
            "type mismatch: INTEGER + BOOLEAN",
        ),
        // -true
        (program(vec![expr_stmt(prefix("-", boolean(true)))]), "unknown operator: -BOOLEAN"),
        // true + false;
        (
            program(vec![expr_stmt(infix(boolean(true), "+", boolean(false)))]),
            "unknown operator: BOOLEAN + BOOLEAN",
        ),
        // 5; true + false; 5
        (
            program(vec![
                expr_stmt(int_lit(5)),
                expr_stmt(infix(boolean(true), "+", boolean(false))),
                expr_stmt(int_lit(5)),
            ]),
            "unknown operator: BOOLEAN + BOOLEAN",
        ),
        // if (10 > 1) { true + false; }
        (
            program(vec![expr_stmt(if_expr(
                infix(int_lit(10), ">", int_lit(1)),
                block(vec![expr_stmt(infix(boolean(true), "+", boolean(false)))]),
                None,
            ))]),
            "unknown operator: BOOLEAN + BOOLEAN",
        ),
        // if (10 > 1) { if (10 > 1) { return true + false; } return 1; }
        (
            program(vec![expr_stmt(if_expr(
                infix(int_lit(10), ">", int_lit(1)),
                block(vec![
                    expr_stmt(if_expr(
                        infix(int_lit(10), ">", int_lit(1)),
                        block(vec![ret_stmt(infix(boolean(true), "+", boolean(false)))]),
                        None,
                    )),
                    ret_stmt(int_lit(1)),
                ]),
                None,
            ))]),
            "unknown operator: BOOLEAN + BOOLEAN",
        ),
        // foobar
        (program(vec![expr_stmt(ident("foobar"))]), "identifier not found: foobar"),
        // "Hello" - "World"
        (
            program(vec![expr_stmt(infix(string_lit("Hello"), "-", string_lit("World")))]),
            "unknown operator: STRING - STRING",
        ),
    ];

    for (p, expected_message) in tests {
        let evaluated = test_eval(p);
        test_error_object(evaluated, expected_message);
    }
}

#[test]
fn test_test_let_statements() {
    let tests: Vec<(Program, i64)> = vec![
        (program(vec![let_stmt("a", int_lit(5)), expr_stmt(ident("a"))]), 5),
        (program(vec![let_stmt("a", infix(int_lit(5), "*", int_lit(5))), expr_stmt(ident("a"))]), 25),
        (
            program(vec![
                let_stmt("a", int_lit(5)),
                let_stmt("b", ident("a")),
                expr_stmt(ident("b")),
            ]),
            5,
        ),
        (
            program(vec![
                let_stmt("a", int_lit(5)),
                let_stmt("b", ident("a")),
                let_stmt("c", infix(infix(ident("a"), "+", ident("b")), "+", int_lit(5))),
                expr_stmt(ident("c")),
            ]),
            15,
        ),
    ];

    for (p, expected) in tests {
        let ret = test_integer_object(test_eval(p), expected);
        assert!(ret);
    }
}

#[test]
fn test_test_function_object() {
    // fn(x) { x + 2; };
    let p = program(vec![expr_stmt(func(
        vec!["x"],
        block(vec![expr_stmt(infix(ident("x"), "+", int_lit(2)))]),
    ))]);

    let evaluated = test_eval(p);

    let value = match evaluated {
        Object::Function(fn_value) => fn_value,
        other => panic!("object is no function. got = {:?}", other),
    };

    assert_eq!(value.parameters.len(), 1, "function has wrong parameters");
    assert_eq!(value.parameters[0], "x", "parameter is not 'x'");

    let expected_body = "(x + 2);";
    assert_eq!(block_to_string(&value.body), expected_body, "body mismatch");
}

#[test]
fn test_test_function_application() {
    let tests: Vec<(Program, i64)> = vec![
        // let identity = fn(x) { x; }; identity(5);
        (
            program(vec![
                let_stmt("identity", func(vec!["x"], block(vec![expr_stmt(ident("x"))]))),
                expr_stmt(call(ident("identity"), vec![int_lit(5)])),
            ]),
            5,
        ),
        // let identity = fn(x) { return x; }; identity(5);
        (
            program(vec![
                let_stmt("identity", func(vec!["x"], block(vec![ret_stmt(ident("x"))]))),
                expr_stmt(call(ident("identity"), vec![int_lit(5)])),
            ]),
            5,
        ),
        // let double = fn(x) { return x * 2; }; double(5);
        (
            program(vec![
                let_stmt(
                    "double",
                    func(vec!["x"], block(vec![ret_stmt(infix(ident("x"), "*", int_lit(2)))])),
                ),
                expr_stmt(call(ident("double"), vec![int_lit(5)])),
            ]),
            10,
        ),
        // let add = fn(x, y) { return x + y; }; add(5, 5);
        (
            program(vec![
                let_stmt(
                    "add",
                    func(
                        vec!["x", "y"],
                        block(vec![ret_stmt(infix(ident("x"), "+", ident("y")))]),
                    ),
                ),
                expr_stmt(call(ident("add"), vec![int_lit(5), int_lit(5)])),
            ]),
            10,
        ),
        // let add = fn(x, y) { x + y; }; add(5 + 5, add(5, 5));
        (
            program(vec![
                let_stmt(
                    "add",
                    func(
                        vec!["x", "y"],
                        block(vec![expr_stmt(infix(ident("x"), "+", ident("y")))]),
                    ),
                ),
                expr_stmt(call(
                    ident("add"),
                    vec![
                        infix(int_lit(5), "+", int_lit(5)),
                        call(ident("add"), vec![int_lit(5), int_lit(5)]),
                    ],
                )),
            ]),
            20,
        ),
        // fn(x) { x; }(5)
        (
            program(vec![expr_stmt(call(
                func(vec!["x"], block(vec![expr_stmt(ident("x"))])),
                vec![int_lit(5)],
            ))]),
            5,
        ),
    ];

    for (p, expected) in tests {
        let ret = test_integer_object(test_eval(p), expected);
        assert!(ret);
    }
}

#[test]
fn test_test_closures() {
    // let newAddr = fn(x) { fn(y) { x + y } };
    // let addTwo = newAddr(2);
    // addTwo(2);
    let p = program(vec![
        let_stmt(
            "newAddr",
            func(
                vec!["x"],
                block(vec![expr_stmt(func(
                    vec!["y"],
                    block(vec![expr_stmt(infix(ident("x"), "+", ident("y")))]),
                ))]),
            ),
        ),
        let_stmt("addTwo", call(ident("newAddr"), vec![int_lit(2)])),
        expr_stmt(call(ident("addTwo"), vec![int_lit(2)])),
    ]);

    let ret = test_integer_object(test_eval(p), 4);
    assert!(ret);
}

#[test]
fn test_test_string_literal() {
    let p = program(vec![expr_stmt(string_lit("Hello World!"))]);
    let evaluated = test_eval(p);

    let str_lit = match evaluated {
        Object::Str(string_lit) => string_lit,
        other => panic!("object is not String. got = {:?}", other),
    };

    assert_eq!(str_lit.value, "Hello World!", "String has wrong value");
}

#[test]
fn test_test_string_concatenation() {
    // "Hello" + " " + "World!"
    let p = program(vec![expr_stmt(infix(
        infix(string_lit("Hello"), "+", string_lit(" ")),
        "+",
        string_lit("World!"),
    ))]);

    let evaluated = test_eval(p);
    let str_lit = match evaluated {
        Object::Str(string_lit) => string_lit,
        other => panic!("object is not String. got = {:?}", other),
    };

    assert_eq!(str_lit.value, "Hello World!", "String has wrong value");
}

#[test]
fn test_test_string_not_equal() {
    // "Hello" != "World!"
    let p = program(vec![expr_stmt(infix(string_lit("Hello"), "!=", string_lit("World!")))]);

    let evaluated = test_eval(p);
    let bool_obj = match evaluated {
        Object::Boolean(value) => value,
        other => panic!("object is not Boolean. got = {:?}", other),
    };

    assert!(bool_obj.value, "Boolean has wrong value");
}

#[test]
fn test_test_string_equal() {
    // "Hello" == "Hello"
    let p = program(vec![expr_stmt(infix(string_lit("Hello"), "==", string_lit("Hello")))]);

    let evaluated = test_eval(p);
    let bool_obj = match evaluated {
        Object::Boolean(value) => value,
        other => panic!("object is not Boolean. got = {:?}", other),
    };

    assert!(bool_obj.value, "Boolean has wrong value");
}

#[test]
fn test_test_builtin_functions() {
    let int_tests: Vec<(Program, i64)> = vec![
        (program(vec![expr_stmt(call(ident("len"), vec![string_lit("")]))]), 0),
        (program(vec![expr_stmt(call(ident("len"), vec![string_lit("four")]))]), 4),
        (program(vec![expr_stmt(call(ident("len"), vec![string_lit("hello world")]))]), 11),
    ];
    for (p, expected) in int_tests {
        let evaluated = test_eval(p);
        assert!(test_integer_object(evaluated, expected));
    }

    let error_tests: Vec<(Program, &str)> = vec![
        (
            program(vec![expr_stmt(call(ident("len"), vec![int_lit(1)]))]),
            "argument to `len` not supported, got INTEGER",
        ),
        (
            program(vec![expr_stmt(call(
                ident("len"),
                vec![string_lit("one"), string_lit("two")],
            ))]),
            "wrong number of arguments. got=2, want=1",
        ),
    ];
    for (p, expected_message) in error_tests {
        let evaluated = test_eval(p);
        test_error_object(evaluated, expected_message);
    }
}
