use vstd::prelude::*;

verus! {

/// Operand class of an expression: it decides the instruction mnemonics,
/// the operand width and which register pool a value occupies.
#[derive(Copy, Clone, Debug, PartialEq, Eq, Structural)]
pub enum Type {
    I32,
    F64,
}

} // verus!
