use vstd::prelude::*;

verus! {

use crate::lexer::TokenType;
use crate::parser::Type;
use vstd::math::max;

/// A typed expression tree. Each node carries its resolved operand type; the
/// generator trusts the upstream type resolution and re-validates nothing.
#[derive(Debug)]
pub enum Expr {
    Binary(Type, Box<Expr>, TokenType, Box<Expr>),
    Grouping(Type, Box<Expr>),
    Unary(Type, Box<Expr>),
    Literal(Type, String),
}

/// The resolved type carried by the root node of `e`.
pub open spec fn expr_type(e: Expr) -> Type {
    match e {
        Expr::Binary(t, _, _, _) => t,
        Expr::Grouping(t, _) => t,
        Expr::Unary(t, _) => t,
        Expr::Literal(t, _) => t,
    }
}

/// Type consistency as the upstream type checker guarantees it: every child
/// carries the type of its parent, so a tree is homogeneous in one operand
/// class and no implicit numeric coercion ever occurs.
pub open spec fn well_typed(e: Expr) -> bool
    decreases e,
{
    match e {
        Expr::Binary(t, l, _, r) => expr_type(*l) == t && expr_type(*r) == t && well_typed(*l)
            && well_typed(*r),
        Expr::Grouping(t, inner) => expr_type(*inner) == t && well_typed(*inner),
        Expr::Unary(t, inner) => expr_type(*inner) == t && well_typed(*inner),
        Expr::Literal(_, _) => true,
    }
}

/// The four operators the generator selects instructions for.
pub open spec fn arith_op(op: TokenType) -> bool {
    op == TokenType::Plus || op == TokenType::Minus || op == TokenType::Star || op
        == TokenType::Slash
}

/// Every binary node of `e` carries one of the four supported operators; any
/// other operator reaching the generator is an internal-invariant violation.
pub open spec fn ops_ok(e: Expr) -> bool
    decreases e,
{
    match e {
        Expr::Binary(_, l, op, r) => arith_op(op) && ops_ok(*l) && ops_ok(*r),
        Expr::Grouping(_, inner) => ops_ok(*inner),
        Expr::Unary(_, inner) => ops_ok(*inner),
        Expr::Literal(_, _) => true,
    }
}

/// The peak number of registers of the tree's own class that are live above
/// the caller's stack pointer while `e` is generated: a literal takes one, a
/// binary node keeps its left operand live while the right one is built, and
/// a floating negation materializes `-1.0` in one extra temporary.
pub open spec fn reg_demand(e: Expr) -> nat
    decreases e,
{
    match e {
        Expr::Binary(_, l, _, r) => max(reg_demand(*l) as int, 1 + reg_demand(*r) as int) as nat,
        Expr::Grouping(_, inner) => reg_demand(*inner),
        Expr::Unary(t, inner) => if t == Type::F64 {
            max(reg_demand(*inner) as int, 2int) as nat
        } else {
            reg_demand(*inner)
        },
        Expr::Literal(_, _) => 1,
    }
}

impl Expr {
    /// The root node's resolved type.
    pub fn get_type(&self) -> (t: Type)
        ensures
            t == expr_type(*self),
    {
        match self {
            Expr::Binary(t, _, _, _) => *t,
            Expr::Grouping(t, _) => *t,
            Expr::Unary(t, _) => *t,
            Expr::Literal(t, _) => *t,
        }
    }

    /// Decides `well_typed` executably, so unverified callers can test the
    /// invariant the generator trusts before handing a tree to it.
    pub fn is_well_typed(&self) -> (r: bool)
        ensures
            r == well_typed(*self),
        decreases *self,
    {
        match self {
            Expr::Binary(t, l, _, r) => {
                let lt = l.get_type();
                let rt = r.get_type();
                lt == *t && rt == *t && l.is_well_typed() && r.is_well_typed()
            },
            Expr::Grouping(t, inner) => {
                let it = inner.get_type();
                it == *t && inner.is_well_typed()
            },
            Expr::Unary(t, inner) => {
                let it = inner.get_type();
                it == *t && inner.is_well_typed()
            },
            Expr::Literal(_, _) => true,
        }
    }
}

} // verus!
