use vstd::prelude::*;

pub mod expr;
pub mod stmt;
pub mod types;

verus! {

pub use crate::parser::expr::Expr;
pub use crate::parser::stmt::Stmt;
pub use crate::parser::types::Type;

use crate::lexer::{Token, TokenType};
use crate::parser::expr::{expr_type, ops_ok, well_typed};
use crate::parser::stmt::{stmt_expr, stmt_well_typed};
use vstd::string::{StrSliceExecFns, StringExecFns};

/// What every subtree the parser builds satisfies: type-consistent, only the
/// four arithmetic operators, and the reported type is the root's.
pub open spec fn parsed_wf(t: Type, e: Expr) -> bool {
    well_typed(e) && ops_ok(e) && expr_type(e) == t
}

/// The literal text carries a decimal point.
pub open spec fn has_dot(s: Seq<char>) -> bool {
    exists|q: int| 0 <= q < s.len() && s[q] == '.'
}

fn contains_dot(s: &str) -> (r: bool)
    ensures
        r == has_dot(s@),
{
    let n = s.unicode_len();
    let mut k: usize = 0;
    while k < n
        invariant
            n == s@.len(),
            k <= n,
            forall|q: int| 0 <= q < k ==> s@[q] != '.',
        decreases n - k,
    {
        if s.get_char(k) == '.' {
            proof {
                assert(s@[k as int] == '.');
            }
            return true;
        }
        k += 1;
    }
    false
}

/// True when the token at `i` exists and has the wanted kind; the caller
/// then consumes it.
fn match_token(tokens: &Vec<Token>, i: usize, token_type: TokenType) -> (r: bool)
    ensures
        r == (i < tokens@.len() && tokens@[i as int].type_ == token_type),
{
    if i >= tokens.len() {
        return false;
    }
    let tt = tokens[i].type_;
    tt == token_type
}

/// A primary expression: a parenthesized group, a unary negation, or a
/// number literal, whose type the decimal point decides.
fn primary(tokens: &Vec<Token>, i: usize) -> (r: Result<(Type, Box<Expr>, usize), &'static str>)
    requires
        i <= tokens@.len(),
    ensures
        r is Ok ==> parsed_wf(r.unwrap().0, *r.unwrap().1) && i < r.unwrap().2 <= tokens@.len(),
    decreases tokens@.len() - i, 0int,
{
    if i >= tokens.len() {
        return Result::Err("Expected an expression.");
    }
    let tt = tokens[i].type_;
    match tt {
        TokenType::LeftParen => match expression(tokens, i + 1) {
            Result::Ok((t, e, j)) => {
                if match_token(tokens, j, TokenType::RightParen) {
                    Result::Ok((t, Box::new(Expr::Grouping(t, e)), j + 1))
                } else {
                    Result::Err("Expected closing ')'.")
                }
            },
            Result::Err(er) => Result::Err(er),
        },
        TokenType::Minus => match primary(tokens, i + 1) {
            Result::Ok((t, e, j)) => Result::Ok((t, Box::new(Expr::Unary(t, e)), j)),
            Result::Err(er) => Result::Err(er),
        },
        TokenType::Number => {
            let text = tokens[i].string.clone();
            let type_ = if contains_dot(text.as_str()) {
                Type::F64
            } else {
                Type::I32
            };
            Result::Ok((type_, Box::new(Expr::Literal(type_, text)), i + 1))
        },
        _ => Result::Err("Expected an expression."),
    }
}

/// A factor: primaries folded left-to-right under `*` and `/`, with both
/// sides of every fold required to share one type.
fn factor(tokens: &Vec<Token>, i: usize) -> (r: Result<(Type, Box<Expr>, usize), &'static str>)
    requires
        i <= tokens@.len(),
    ensures
        r is Ok ==> parsed_wf(r.unwrap().0, *r.unwrap().1) && i < r.unwrap().2 <= tokens@.len(),
    decreases tokens@.len() - i, 1int,
{
    match primary(tokens, i) {
        Result::Err(er) => Result::Err(er),
        Result::Ok((left_t, e0, j0)) => {
            let mut left_expr = e0;
            let mut j = j0;
            while j < tokens.len() && (tokens[j].type_ == TokenType::Star || tokens[j].type_
                == TokenType::Slash)
                invariant
                    i < j <= tokens@.len(),
                    parsed_wf(left_t, *left_expr),
                decreases tokens@.len() - j,
            {
                let operator = tokens[j].type_;
                match primary(tokens, j + 1) {
                    Result::Err(er) => {
                        return Result::Err(er);
                    },
                    Result::Ok((right_t, right_expr, j2)) => {
                        if left_t != right_t {
                            return Result::Err("Type mismatch.");
                        }
                        left_expr = Box::new(
                            Expr::Binary(left_t, left_expr, operator, right_expr),
                        );
                        j = j2;
                    },
                }
            }
            Result::Ok((left_t, left_expr, j))
        },
    }
}

/// A term: factors folded left-to-right under `+` and `-`, with both sides
/// of every fold required to share one type.
fn term(tokens: &Vec<Token>, i: usize) -> (r: Result<(Type, Box<Expr>, usize), &'static str>)
    requires
        i <= tokens@.len(),
    ensures
        r is Ok ==> parsed_wf(r.unwrap().0, *r.unwrap().1) && i < r.unwrap().2 <= tokens@.len(),
    decreases tokens@.len() - i, 2int,
{
    match factor(tokens, i) {
        Result::Err(er) => Result::Err(er),
        Result::Ok((left_t, e0, j0)) => {
            let mut left_expr = e0;
            let mut j = j0;
            while j < tokens.len() && (tokens[j].type_ == TokenType::Plus || tokens[j].type_
                == TokenType::Minus)
                invariant
                    i < j <= tokens@.len(),
                    parsed_wf(left_t, *left_expr),
                decreases tokens@.len() - j,
            {
                let operator = tokens[j].type_;
                match factor(tokens, j + 1) {
                    Result::Err(er) => {
                        return Result::Err(er);
                    },
                    Result::Ok((right_t, right_expr, j2)) => {
                        if left_t != right_t {
                            return Result::Err("Type mismatch.");
                        }
                        left_expr = Box::new(
                            Expr::Binary(left_t, left_expr, operator, right_expr),
                        );
                        j = j2;
                    },
                }
            }
            Result::Ok((left_t, left_expr, j))
        },
    }
}

fn expression(tokens: &Vec<Token>, i: usize) -> (r: Result<
    (Type, Box<Expr>, usize),
    &'static str,
>)
    requires
        i <= tokens@.len(),
    ensures
        r is Ok ==> parsed_wf(r.unwrap().0, *r.unwrap().1) && i < r.unwrap().2 <= tokens@.len(),
    decreases tokens@.len() - i, 3int,
{
    term(tokens, i)
}

fn declaration(tokens: &Vec<Token>) -> (r: Result<Vec<Stmt>, &'static str>)
    ensures
        r is Ok ==> forall|k: int|
            0 <= k < r.unwrap()@.len() ==> stmt_well_typed(#[trigger] r.unwrap()@[k]) && ops_ok(
                stmt_expr(r.unwrap()@[k]),
            ),
        r is Ok ==> ((r.unwrap()@.len() == 0) <==> (tokens@.len() == 0)),
{
    let mut statements: Vec<Stmt> = Vec::new();
    let n = tokens.len();
    let mut i: usize = 0;
    while i < n
        invariant
            n == tokens@.len(),
            i <= n,
            forall|k: int|
                0 <= k < statements@.len() ==> stmt_well_typed(#[trigger] statements@[k])
                    && ops_ok(stmt_expr(statements@[k])),
            i == 0 ==> statements@.len() == 0,
            i > 0 ==> statements@.len() > 0,
        decreases n - i,
    {
        let tt = tokens[i].type_;
        match tt {
            TokenType::Print => match expression(tokens, i + 1) {
                Result::Err(er) => {
                    return Result::Err(er);
                },
                Result::Ok((_t, e, j)) => {
                    if !match_token(tokens, j, TokenType::Newline) {
                        return Result::Err("Expected a newline.");
                    }
                    statements.push(Stmt::Print(e));
                    i = j + 1;
                },
            },
            TokenType::Var => {
                if !match_token(tokens, i + 1, TokenType::Identifier) {
                    return Result::Err("Expected an identifier.");
                }
                let name = tokens[i + 1].string.clone();
                if !match_token(tokens, i + 2, TokenType::Equal) {
                    return Result::Err("Expected an equal operator.");
                }
                match expression(tokens, i + 3) {
                    Result::Err(er) => {
                        return Result::Err(er);
                    },
                    Result::Ok((t, e, j)) => {
                        if !match_token(tokens, j, TokenType::Newline) {
                            return Result::Err("Expected a newline.");
                        }
                        statements.push(Stmt::Var(t, name, e));
                        i = j + 1;
                    },
                }
            },
            _ => match expression(tokens, i) {
                Result::Err(er) => {
                    return Result::Err(er);
                },
                Result::Ok((_t, e, j)) => {
                    if !match_token(tokens, j, TokenType::Newline) {
                        return Result::Err("Expected a newline.");
                    }
                    statements.push(Stmt::Expression(e));
                    i = j + 1;
                },
            },
        }
    }
    Result::Ok(statements)
}

/// Parses a token sequence into statements. Every statement of a successful
/// parse is type-consistent and carries only the four supported operators —
/// the invariant the code generator trusts — and a nonempty token sequence
/// never parses into an empty program.
pub fn parse(tokens: Vec<Token>) -> (r: Result<Vec<Stmt>, &'static str>)
    ensures
        r is Ok ==> forall|k: int|
            0 <= k < r.unwrap()@.len() ==> stmt_well_typed(#[trigger] r.unwrap()@[k]) && ops_ok(
                stmt_expr(r.unwrap()@[k]),
            ),
        r is Ok ==> ((r.unwrap()@.len() == 0) <==> (tokens@.len() == 0)),
{
    declaration(&tokens)
}

} // verus!
