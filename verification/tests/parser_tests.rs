use aeiou::lexer::{tokenize, TokenType};
use aeiou::parser::{parse, Expr, Stmt, Type};

fn parse_text(text: &str) -> Result<Vec<Stmt>, &'static str> {
    parse(tokenize(text).unwrap())
}

#[test]
fn print_statement_structure() {
    let stmts = parse_text("დაბეჭდე 2 + 3\n").unwrap();
    assert_eq!(stmts.len(), 1);
    match &stmts[0] {
        Stmt::Print(e) => match &**e {
            Expr::Binary(t, l, op, r) => {
                assert_eq!(*t, Type::I32);
                assert_eq!(*op, TokenType::Plus);
                assert!(matches!(&**l, Expr::Literal(Type::I32, s) if s == "2"));
                assert!(matches!(&**r, Expr::Literal(Type::I32, s) if s == "3"));
            }
            _ => panic!("expected a binary node"),
        },
        _ => panic!("expected a print statement"),
    }
}

#[test]
fn factor_binds_tighter_than_term() {
    let stmts = parse_text("1 + 2 * 3\n").unwrap();
    match &stmts[0] {
        Stmt::Expression(e) => match &**e {
            Expr::Binary(_, l, op, r) => {
                assert_eq!(*op, TokenType::Plus);
                assert!(matches!(&**l, Expr::Literal(_, s) if s == "1"));
                match &**r {
                    Expr::Binary(_, rl, rop, rr) => {
                        assert_eq!(*rop, TokenType::Star);
                        assert!(matches!(&**rl, Expr::Literal(_, s) if s == "2"));
                        assert!(matches!(&**rr, Expr::Literal(_, s) if s == "3"));
                    }
                    _ => panic!("expected multiplication on the right"),
                }
            }
            _ => panic!("expected a binary node"),
        },
        _ => panic!("expected an expression statement"),
    }
}

#[test]
fn grouping_overrides_precedence() {
    let stmts = parse_text("(1 + 2) * 3\n").unwrap();
    match &stmts[0] {
        Stmt::Expression(e) => match &**e {
            Expr::Binary(_, l, op, _) => {
                assert_eq!(*op, TokenType::Star);
                assert!(matches!(&**l, Expr::Grouping(_, _)));
            }
            _ => panic!("expected a binary node"),
        },
        _ => panic!("expected an expression statement"),
    }
}

#[test]
fn unary_negation() {
    let stmts = parse_text("-3.5\n").unwrap();
    match &stmts[0] {
        Stmt::Expression(e) => match &**e {
            Expr::Unary(t, inner) => {
                assert_eq!(*t, Type::F64);
                assert!(matches!(&**inner, Expr::Literal(Type::F64, s) if s == "3.5"));
            }
            _ => panic!("expected a unary node"),
        },
        _ => panic!("expected an expression statement"),
    }
}

#[test]
fn literal_type_follows_decimal_point() {
    let stmts = parse_text("2.5\n5\n").unwrap();
    assert!(matches!(&stmts[0], Stmt::Expression(e) if matches!(&**e, Expr::Literal(Type::F64, _))));
    assert!(matches!(&stmts[1], Stmt::Expression(e) if matches!(&**e, Expr::Literal(Type::I32, _))));
}

#[test]
fn mixed_types_are_rejected_upstream() {
    // a tree mixing the two classes in one binary node never reaches the
    // generator: the parser refuses it
    assert_eq!(parse_text("1 + 2.5\n").err(), Some("Type mismatch."));
    assert_eq!(parse_text("2.5 * 3\n").err(), Some("Type mismatch."));
}

#[test]
fn var_statement_records_name_and_type() {
    let stmts = parse_text("ცვლადი pi = 3.14\n").unwrap();
    match &stmts[0] {
        Stmt::Var(t, name, e) => {
            assert_eq!(*t, Type::F64);
            assert_eq!(name, "pi");
            assert!(matches!(&**e, Expr::Literal(Type::F64, _)));
        }
        _ => panic!("expected a variable declaration"),
    }
}

#[test]
fn missing_newline_is_rejected() {
    assert_eq!(parse_text("დაბეჭდე 5").err(), Some("Expected a newline."));
}

#[test]
fn missing_closing_paren_is_rejected() {
    assert_eq!(parse_text("(1 + 2\n").err(), Some("Expected closing ')'."));
}

#[test]
fn dangling_operator_is_rejected() {
    assert_eq!(parse_text("1 +\n").err(), Some("Expected an expression."));
}

#[test]
fn var_without_identifier_is_rejected() {
    assert_eq!(parse_text("ცვლადი = 5\n").err(), Some("Expected an identifier."));
}

#[test]
fn var_without_equal_is_rejected() {
    assert_eq!(parse_text("ცვლადი x 5\n").err(), Some("Expected an equal operator."));
}

#[test]
fn parsed_statements_pass_the_type_check() {
    let stmts = parse_text("დაბეჭდე (1 + 2) * -3\nცვლადი x = 4\n2.5 / 0.5\n").unwrap();
    for s in &stmts {
        assert!(s.is_well_typed());
    }
}

#[test]
fn hand_built_mixed_tree_fails_the_type_check() {
    let e = Expr::Binary(
        Type::I32,
        Box::new(Expr::Literal(Type::I32, String::from("1"))),
        TokenType::Plus,
        Box::new(Expr::Literal(Type::F64, String::from("2.5"))),
    );
    assert!(!e.is_well_typed());
    assert_eq!(e.get_type(), Type::I32);
}
