//! Whole programs, from source text to value.  The small lexer and parser
//! below only serve these tests: they turn text into the syntax tree that
//! the evaluator takes.

use tree_eval::ast::{Expr, Operator, Prefix, Statement};
use tree_eval::eval::{eval_program, EvalError, Object};

#[derive(Debug, Clone, PartialEq)]
enum Token {
    Int(i32),
    Ident(String),
    True,
    False,
    If,
    Else,
    Return,
    Let,
    Bang,
    Minus,
    Plus,
    Star,
    Slash,
    Less,
    Greater,
    EqualEqual,
    BangEqual,
    Assign,
    LeftParen,
    RightParen,
    LeftBrace,
    RightBrace,
    Semicolon,
}

fn lex(input: &str) -> Vec<Token> {
    let chars: Vec<char> = input.chars().collect();
    let mut tokens = Vec::new();
    let mut i = 0;
    while i < chars.len() {
        let c = chars[i];
        if c.is_whitespace() {
            i += 1;
        } else if c.is_ascii_digit() {
            let start = i;
            while i < chars.len() && chars[i].is_ascii_digit() {
                i += 1;
            }
            let text: String = chars[start..i].iter().collect();
            tokens.push(Token::Int(text.parse().unwrap()));
        } else if c.is_ascii_alphabetic() || c == '_' {
            let start = i;
            while i < chars.len() && (chars[i].is_ascii_alphanumeric() || chars[i] == '_') {
                i += 1;
            }
            let text: String = chars[start..i].iter().collect();
            tokens.push(match text.as_str() {
                "true" => Token::True,
                "false" => Token::False,
                "if" => Token::If,
                "else" => Token::Else,
                "return" => Token::Return,
                "let" => Token::Let,
                _ => Token::Ident(text),
            });
        } else {
            let next = chars.get(i + 1).copied();
            let (token, width) = match (c, next) {
                ('=', Some('=')) => (Token::EqualEqual, 2),
                ('!', Some('=')) => (Token::BangEqual, 2),
                ('=', _) => (Token::Assign, 1),
                ('!', _) => (Token::Bang, 1),
                ('-', _) => (Token::Minus, 1),
                ('+', _) => (Token::Plus, 1),
                ('*', _) => (Token::Star, 1),
                ('/', _) => (Token::Slash, 1),
                ('<', _) => (Token::Less, 1),
                ('>', _) => (Token::Greater, 1),
                ('(', _) => (Token::LeftParen, 1),
                (')', _) => (Token::RightParen, 1),
                ('{', _) => (Token::LeftBrace, 1),
                ('}', _) => (Token::RightBrace, 1),
                (';', _) => (Token::Semicolon, 1),
                _ => panic!("unexpected character {:?}", c),
            };
            tokens.push(token);
            i += width;
        }
    }
    tokens
}

struct Parser {
    tokens: Vec<Token>,
    at: usize,
}

impl Parser {
    fn peek(&self) -> Option<&Token> {
        self.tokens.get(self.at)
    }

    fn next(&mut self) -> Token {
        let token = self.tokens[self.at].clone();
        self.at += 1;
        token
    }

    fn expect(&mut self, token: Token) {
        let found = self.next();
        assert_eq!(token, found);
    }

    fn statements(&mut self, closing: Option<Token>) -> Vec<Statement> {
        let mut statements = Vec::new();
        while self.peek().is_some() && self.peek() != closing.as_ref() {
            statements.push(self.statement());
            self.expect(Token::Semicolon);
        }
        statements
    }

    fn statement(&mut self) -> Statement {
        match self.peek() {
            Some(Token::Return) => {
                self.next();
                Statement::Return { value: self.expression(0) }
            }
            Some(Token::Let) => {
                self.next();
                let name = match self.next() {
                    Token::Ident(name) => name,
                    other => panic!("expected a name, found {:?}", other),
                };
                self.expect(Token::Assign);
                Statement::Let { name, value: self.expression(0) }
            }
            _ => Statement::Expression(self.expression(0)),
        }
    }

    fn block(&mut self) -> Vec<Statement> {
        self.expect(Token::LeftBrace);
        let statements = self.statements(Some(Token::RightBrace));
        self.expect(Token::RightBrace);
        statements
    }

    fn binding_power(token: &Token) -> Option<(u8, Operator)> {
        match token {
            Token::EqualEqual => Some((1, Operator::Equals)),
            Token::BangEqual => Some((1, Operator::NotEquals)),
            Token::Less => Some((2, Operator::LessThan)),
            Token::Greater => Some((2, Operator::GreaterThan)),
            Token::Plus => Some((3, Operator::Plus)),
            Token::Minus => Some((3, Operator::Minus)),
            Token::Star => Some((4, Operator::Multiply)),
            Token::Slash => Some((4, Operator::Divide)),
            _ => None,
        }
    }

    fn expression(&mut self, min_power: u8) -> Expr {
        let mut left = self.operand();
        while let Some((power, operator)) = self.peek().and_then(Parser::binding_power) {
            if power <= min_power {
                break;
            }
            self.next();
            let right = self.expression(power);
            left = Expr::Infix { left: Box::new(left), operator, right: Box::new(right) };
        }
        left
    }

    fn operand(&mut self) -> Expr {
        match self.next() {
            Token::Int(n) => Expr::Const(n),
            Token::True => Expr::Boolean(true),
            Token::False => Expr::Boolean(false),
            Token::Ident(name) => Expr::Ident(name),
            Token::Bang => Expr::Prefix { prefix: Prefix::Bang, value: Box::new(self.expression(5)) },
            Token::Minus => {
                Expr::Prefix { prefix: Prefix::Minus, value: Box::new(self.expression(5)) }
            }
            Token::LeftParen => {
                let inner = self.expression(0);
                self.expect(Token::RightParen);
                inner
            }
            Token::If => {
                self.expect(Token::LeftParen);
                let condition = self.expression(0);
                self.expect(Token::RightParen);
                let consequence = self.block();
                let alternative = if self.peek() == Some(&Token::Else) {
                    self.next();
                    self.block()
                } else {
                    Vec::new()
                };
                Expr::If { condition: Box::new(condition), consequence, alternative }
            }
            other => panic!("unexpected token {:?}", other),
        }
    }
}

fn parse(input: &str) -> Vec<Statement> {
    let mut parser = Parser { tokens: lex(input), at: 0 };
    parser.statements(None)
}

fn test_eval(input: &str, expected: Object) {
    let ast = parse(input);
    let obj = eval_program(ast);

    assert_eq!(Ok(expected), obj);
}

fn test_fails(input: &str, expected: EvalError) {
    assert_eq!(Err(expected), eval_program(parse(input)));
}

#[test]
fn parser_builds_the_expected_tree() {
    assert_eq!(
        parse("1 + 2 * 3; return !x;"),
        vec![
            Statement::Expression(Expr::Infix {
                left: Box::new(Expr::Const(1)),
                operator: Operator::Plus,
                right: Box::new(Expr::Infix {
                    left: Box::new(Expr::Const(2)),
                    operator: Operator::Multiply,
                    right: Box::new(Expr::Const(3)),
                }),
            }),
            Statement::Return {
                value: Expr::Prefix {
                    prefix: Prefix::Bang,
                    value: Box::new(Expr::Ident(String::from("x"))),
                },
            },
        ]
    );
    assert_eq!(
        parse("if (a) { 1; } else { 2; };"),
        vec![Statement::Expression(Expr::If {
            condition: Box::new(Expr::Ident(String::from("a"))),
            consequence: vec![Statement::Expression(Expr::Const(1))],
            alternative: vec![Statement::Expression(Expr::Const(2))],
        })]
    );
}

#[test]
fn eval_int_literal() {
    test_eval("5;", Object::Integer(5));
}

#[test]
fn eval_bool() {
    test_eval("true;", Object::Boolean(true));
    test_eval("false;", Object::Boolean(false));
}

#[test]
fn eval_bang() {
    test_eval("!true;", Object::Boolean(false));
    test_eval("!false;", Object::Boolean(true));
    test_eval("!(1 > 2);", Object::Boolean(true));
}

#[test]
fn eval_negative() {
    test_eval("-5;", Object::Integer(-5));
    test_eval("-(1 - 2);", Object::Integer(1));
}

#[test]
fn eval_infix() {
    test_eval("5 + 5;", Object::Integer(10));
    test_eval("5 - 5;", Object::Integer(0));
    test_eval("5 * 5;", Object::Integer(25));
    test_eval("5 / 5;", Object::Integer(1));
    test_eval("5 > 1;", Object::Boolean(true));
    test_eval("5 < 1;", Object::Boolean(false));
    test_eval("5 == 1;", Object::Boolean(false));
    test_eval("5 != 1;", Object::Boolean(true));
    test_eval("true == true;", Object::Boolean(true));
    test_eval("true != true;", Object::Boolean(false));
    test_eval("(1 > 2) == false;", Object::Boolean(true));
}

#[test]
fn eval_infix_nested_types() {
    test_eval("(1 + 2) + 3;", Object::Integer(6));
    test_eval("(1 + 2) - 3;", Object::Integer(0));
    test_eval("(1 + 2) * 3;", Object::Integer(9));
    test_eval("(1 + 2) / 3;", Object::Integer(1));
    test_eval("(1 + 2) < 3;", Object::Boolean(false));
    test_eval("(1 + 2) > 3;", Object::Boolean(false));
    test_eval("(1 > 2) == false;", Object::Boolean(true));
    test_eval("(1 > 2) != false;", Object::Boolean(false));
}

#[test]
fn eval_if() {
    test_eval("if (true) { 10; };", Object::Integer(10));
    test_eval("if (false) { 10; };", Object::Null);
    test_eval("if (false) { 10; } else { 11; };", Object::Integer(11));
    test_eval("if (1 > 2) { 10; } else { 11; };", Object::Integer(11));
    test_eval("if (1 < 2) { 10; } else { 11; };", Object::Integer(10));
}

#[test]
fn eval_return() {
    test_eval("return 10;", Object::Integer(10));
    test_eval("return 10; 11;", Object::Integer(10));
    test_eval("9; return 2 * 5; 9;", Object::Integer(10));
    test_eval(
        r#"
            if (10 > 1) {
              if (10 > 1) {
                return 10;
              };

              return 1;
            };
        "#,
        Object::Integer(10),
    );
}

#[test]
fn end_to_end_programs() {
    test_eval("5+5;", Object::Integer(10));
    test_eval("!(1>2);", Object::Boolean(true));
    test_eval("-(1-2);", Object::Integer(1));
    test_eval("(1>2)==false;", Object::Boolean(true));
    test_eval("9; return 2*5; 9;", Object::Integer(10));
}

#[test]
fn empty_program_is_null() {
    test_eval("", Object::Null);
}

#[test]
fn last_statement_gives_the_value() {
    test_eval("1; 2; 3;", Object::Integer(3));
    test_eval("1; true;", Object::Boolean(true));
    test_eval("1; if (false) { 2; };", Object::Null);
}

#[test]
fn double_not_and_double_negate() {
    test_eval("!!true;", Object::Boolean(true));
    test_eval("!!false;", Object::Boolean(false));
    test_eval("!!(3 < 4);", Object::Boolean(true));
    test_eval("-(-7);", Object::Integer(7));
    test_eval("-(-0);", Object::Integer(0));
    test_eval("-(-(2 - 9));", Object::Integer(-7));
}

#[test]
fn division_truncates_toward_zero() {
    test_eval("7 / 2;", Object::Integer(3));
    test_eval("-7 / 2;", Object::Integer(-3));
    test_eval("7 / -2;", Object::Integer(-3));
    test_eval("-7 / -2;", Object::Integer(3));
    test_eval("0 / 5;", Object::Integer(0));
    test_eval("1 / 5;", Object::Integer(0));
    test_eval("-1 / 5;", Object::Integer(0));
}

#[test]
fn operator_precedence_in_values() {
    test_eval("1 + 2 * 3;", Object::Integer(7));
    test_eval("(1 + 2) * 3;", Object::Integer(9));
    test_eval("10 - 4 - 3;", Object::Integer(3));
    test_eval("2 * 3 == 6;", Object::Boolean(true));
    test_eval("1 < 2 == true;", Object::Boolean(true));
    test_eval("-2 * 3;", Object::Integer(-6));
}

#[test]
fn equality_within_and_across_types() {
    test_eval("7 == 7;", Object::Boolean(true));
    test_eval("false == false;", Object::Boolean(true));
    test_eval("true == false;", Object::Boolean(false));
    test_eval("7 != 7;", Object::Boolean(false));
    test_fails("5 == true;", EvalError::InfixTypeMismatch(Operator::Equals));
    test_fails("true == 5;", EvalError::InfixTypeMismatch(Operator::Equals));
    test_fails("5 != true;", EvalError::InfixTypeMismatch(Operator::NotEquals));
    test_fails("(if (false) { 1; }) == (if (false) { 1; });", EvalError::InfixTypeMismatch(Operator::Equals));
}

#[test]
fn condition_must_be_exactly_true() {
    test_eval("if (5) { 10; } else { 11; };", Object::Integer(11));
    test_eval("if (0) { 10; };", Object::Null);
    test_eval("if (if (false) { 1; }) { 10; } else { 11; };", Object::Integer(11));
    test_eval("if (!false) { 10; } else { 11; };", Object::Integer(10));
    test_eval("if (true) { } else { 11; };", Object::Null);
}

#[test]
fn return_skips_what_follows() {
    test_eval("return 10; 1 / 0;", Object::Integer(10));
    test_eval("return 10; !5;", Object::Integer(10));
    test_eval("return 10; let a = 1;", Object::Integer(10));
    test_eval("1; return true; x;", Object::Boolean(true));
    test_eval("if (true) { return 1; 2 / 0; }; 3 / 0;", Object::Integer(1));
}

#[test]
fn return_leaves_nested_conditionals() {
    test_eval(
        "if (true) { if (true) { if (true) { return 3; }; return 2; }; return 1; }; 0;",
        Object::Integer(3),
    );
    test_eval("if (false) { return 1; } else { if (2 > 1) { return 2; }; 3; }; 4;", Object::Integer(2));
    test_eval("if (true) { if (false) { return 1; }; 2; }; 3;", Object::Integer(3));
}

#[test]
fn return_of_a_returning_expression_has_one_tag() {
    test_eval("return if (true) { return 1; };", Object::Integer(1));
    test_eval("return if (true) { return if (true) { return 7; }; };", Object::Integer(7));
}

#[test]
fn returned_value_is_no_operand() {
    test_fails("!(if (true) { return true; });", EvalError::PrefixTypeMismatch(Prefix::Bang));
    test_fails("1 + (if (true) { return 1; });", EvalError::InfixTypeMismatch(Operator::Plus));
    test_eval("if (if (true) { return true; }) { 10; } else { 11; };", Object::Integer(11));
}

#[test]
fn prefix_operand_errors() {
    test_fails("!5;", EvalError::PrefixTypeMismatch(Prefix::Bang));
    test_fails("!(if (false) { 1; });", EvalError::PrefixTypeMismatch(Prefix::Bang));
    test_fails("-true;", EvalError::PrefixTypeMismatch(Prefix::Minus));
    test_fails("-(if (false) { 1; });", EvalError::PrefixTypeMismatch(Prefix::Minus));
}

#[test]
fn infix_operand_errors() {
    test_fails("true + 1;", EvalError::InfixTypeMismatch(Operator::Plus));
    test_fails("1 - true;", EvalError::InfixTypeMismatch(Operator::Minus));
    test_fails("true * false;", EvalError::InfixTypeMismatch(Operator::Multiply));
    test_fails("true / 1;", EvalError::InfixTypeMismatch(Operator::Divide));
    test_fails("true / 0;", EvalError::InfixTypeMismatch(Operator::Divide));
    test_fails("true < false;", EvalError::InfixTypeMismatch(Operator::LessThan));
    test_fails("1 > true;", EvalError::InfixTypeMismatch(Operator::GreaterThan));
    test_fails("1 == true;", EvalError::InfixTypeMismatch(Operator::Equals));
    test_fails("false != 0;", EvalError::InfixTypeMismatch(Operator::NotEquals));
}

#[test]
fn bindings_are_not_evaluated() {
    test_fails("a;", EvalError::NotImplemented);
    test_fails("1 + a;", EvalError::NotImplemented);
    test_fails("let a = 10;", EvalError::UnsupportedStatement);
    test_fails("let a = 10; a;", EvalError::UnsupportedStatement);
    test_fails("if (true) { let a = 1; };", EvalError::UnsupportedStatement);
}

#[test]
fn division_by_zero_is_an_error() {
    test_fails("5 / 0;", EvalError::DivisionByZero);
    test_fails("0 / 0;", EvalError::DivisionByZero);
    test_fails("1 + 5 / (2 - 2);", EvalError::DivisionByZero);
}

#[test]
fn overflow_is_an_error() {
    test_eval("2147483647;", Object::Integer(2147483647));
    test_eval("-2147483647 - 1;", Object::Integer(-2147483648));
    test_fails("2147483647 + 1;", EvalError::Overflow);
    test_fails("-2147483647 - 2;", EvalError::Overflow);
    test_fails("65536 * 32768;", EvalError::Overflow);
    test_eval("65536 * -32768;", Object::Integer(-2147483648));
    test_fails("-(-2147483647 - 1);", EvalError::Overflow);
    test_fails("(-2147483647 - 1) / -1;", EvalError::Overflow);
    test_eval("(-2147483647 - 1) / 1;", Object::Integer(-2147483648));
    test_eval("(-2147483647 - 1) / 2;", Object::Integer(-1073741824));
}

#[test]
fn first_error_stops_the_program() {
    test_fails("1 / 0; !5;", EvalError::DivisionByZero);
    test_fails("!5; 1 / 0;", EvalError::PrefixTypeMismatch(Prefix::Bang));
    test_fails("1; x; return 2;", EvalError::NotImplemented);
    test_fails("if (1 / 0) { 1; } else { 2; };", EvalError::DivisionByZero);
    test_fails("return 1 / 0;", EvalError::DivisionByZero);
}

#[test]
fn operands_are_evaluated_left_to_right_before_the_operator() {
    test_fails("(1 / 0) + true;", EvalError::DivisionByZero);
    test_fails("true + (1 / 0);", EvalError::DivisionByZero);
    test_fails("(!1) + (1 / 0);", EvalError::PrefixTypeMismatch(Prefix::Bang));
    test_fails("(1 / 0) + (!1);", EvalError::DivisionByZero);
    test_fails("!(1 / 0);", EvalError::DivisionByZero);
}
