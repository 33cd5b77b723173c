use vstd::prelude::*;

verus! {

use crate::parser::expr::{well_typed, Expr};
use crate::parser::Type;

/// One statement of the source language.
pub enum Stmt {
    Var(Type, String, Box<Expr>),
    Print(Box<Expr>),
    Expression(Box<Expr>),
}

/// The expression a statement evaluates.
pub open spec fn stmt_expr(s: Stmt) -> Expr {
    match s {
        Stmt::Var(_, _, e) => *e,
        Stmt::Print(e) => *e,
        Stmt::Expression(e) => *e,
    }
}

/// The invariant the statement driver trusts of its input: the expression
/// tree is type-consistent, and a declared variable's recorded type is the
/// type of its initializer.
pub open spec fn stmt_well_typed(s: Stmt) -> bool {
    well_typed(stmt_expr(s)) && match s {
        Stmt::Var(t, _, e) => crate::parser::expr::expr_type(*e) == t,
        _ => true,
    }
}

impl Stmt {
    /// Decides `stmt_well_typed` executably for unverified callers.
    pub fn is_well_typed(&self) -> (r: bool)
        ensures
            r == stmt_well_typed(*self),
    {
        match self {
            Stmt::Var(t, _, e) => {
                let et = e.get_type();
                et == *t && e.is_well_typed()
            },
            Stmt::Print(e) => e.is_well_typed(),
            Stmt::Expression(e) => e.is_well_typed(),
        }
    }
}

} // verus!
